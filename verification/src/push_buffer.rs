//! Packing byte spans into one buffer, each span starting at an offset that
//! is a multiple of the alignment it asks for; and the size calculator that
//! predicts how large such a buffer becomes.
use vstd::prelude::*;

verus! {

/// The smallest multiple of `alignment` that is not below `offset`.
pub open spec fn align_up(offset: nat, alignment: nat) -> nat {
    if offset % alignment == 0 {
        offset
    } else {
        (offset + alignment - offset % alignment) as nat
    }
}

/// `n` zero bytes.
pub open spec fn zeros(n: nat) -> Seq<u8> {
    Seq::new(n, |i: int| 0u8)
}

/// The buffer after `data` is pushed with `alignment`: zero padding up to
/// the next multiple of the alignment, then the data.
pub open spec fn spec_push(buffer: Seq<u8>, data: Seq<u8>, alignment: nat) -> Seq<u8> {
    buffer + zeros((align_up(buffer.len(), alignment) - buffer.len()) as nat) + data
}

/// The size that the calculator predicts after a push of `len` bytes with
/// `alignment` onto a buffer of `size` bytes.
pub open spec fn spec_size_after_push(size: nat, len: nat, alignment: nat) -> nat {
    align_up(size, alignment) + len
}

/// `align_up` gives an aligned offset, not below the given one and less than
/// one alignment above it.
pub proof fn lemma_align_up(offset: nat, alignment: nat)
    requires
        alignment > 0,
    ensures
        align_up(offset, alignment) % alignment == 0,
        offset <= align_up(offset, alignment) < offset + alignment,
{
    let r = offset % alignment;
    assert(0 <= r < alignment) by (nonlinear_arith)
        requires alignment > 0, r == offset % alignment;
    if r != 0 {
        let q = offset / alignment;
        assert(offset == alignment * q + r) by (nonlinear_arith)
            requires alignment > 0, r == offset % alignment, q == offset / alignment;
        assert((offset + alignment - r) == alignment * (q + 1)) by (nonlinear_arith)
            requires offset == alignment * q + r;
        assert((alignment * (q + 1)) % alignment == 0) by (nonlinear_arith)
            requires alignment > 0, q >= 0;
    }
}

/// A push leaves what was in the buffer in place, and puts the data at the
/// aligned offset.
pub proof fn lemma_push_places_data(buffer: Seq<u8>, data: Seq<u8>, alignment: nat)
    requires
        alignment > 0,
    ensures
        spec_push(buffer, data, alignment).len() == align_up(buffer.len(), alignment) + data.len(),
        spec_push(buffer, data, alignment).subrange(0, buffer.len() as int) == buffer,
        spec_push(buffer, data, alignment).subrange(
            align_up(buffer.len(), alignment) as int,
            (align_up(buffer.len(), alignment) + data.len()) as int,
        ) == data,
{
    lemma_align_up(buffer.len(), alignment);
    let out = spec_push(buffer, data, alignment);
    assert(out.subrange(0, buffer.len() as int) =~= buffer);
    assert(out.subrange(
        align_up(buffer.len(), alignment) as int,
        (align_up(buffer.len(), alignment) + data.len()) as int,
    ) =~= data);
}

/// The offset and size at which a push placed its data.
#[derive(Clone, Copy, Debug, PartialEq, Eq, Structural)]
pub struct PushBufferResult {
    offset: usize,
    size: usize,
}

impl PushBufferResult {
    pub closed spec fn spec_offset(&self) -> nat {
        self.offset as nat
    }

    pub closed spec fn spec_size(&self) -> nat {
        self.size as nat
    }

    pub fn offset(&self) -> (r: usize)
        ensures
            r == self.spec_offset(),
    {
        self.offset
    }

    pub fn size(&self) -> (r: usize)
        ensures
            r == self.spec_size(),
    {
        self.size
    }
}

/// Predicts the size of a `PushBuffer` that receives the same pushes.
pub struct PushBufferSizeCalculator {
    required_size: usize,
}

impl PushBufferSizeCalculator {
    pub closed spec fn spec_required_size(&self) -> nat {
        self.required_size as nat
    }

    pub fn new() -> (r: Self)
        ensures
            r.spec_required_size() == 0,
    {
        PushBufferSizeCalculator { required_size: 0 }
    }

    /// Accounts for a push of `data` with `required_alignment`; the size
    /// must stay within `usize`.
    pub fn push(&mut self, data: &[u8], required_alignment: usize)
        requires
            required_alignment > 0,
            spec_size_after_push(old(self).spec_required_size(), data@.len(), required_alignment as nat)
                <= usize::MAX,
        ensures
            final(self).spec_required_size() == spec_size_after_push(
                old(self).spec_required_size(),
                data@.len(),
                required_alignment as nat,
            ),
    {
        proof {
            lemma_align_up(self.required_size as nat, required_alignment as nat);
        }
        let rem = self.required_size % required_alignment;
        if rem != 0 {
            self.required_size = self.required_size + (required_alignment - rem);
        }
        self.required_size = self.required_size + data.len();
    }

    pub fn required_size(&self) -> (r: usize)
        ensures
            r == self.spec_required_size(),
    {
        self.required_size
    }
}

/// A growing byte buffer into which spans are pushed at aligned offsets.
pub struct PushBuffer {
    data: Vec<u8>,
}

impl PushBuffer {
    pub closed spec fn spec_data(&self) -> Seq<u8> {
        self.data@
    }

    /// An empty buffer, with room reserved for `size_hint` bytes.
    pub fn new(size_hint: usize) -> (r: Self)
        ensures
            r.spec_data() == Seq::<u8>::empty(),
    {
        PushBuffer { data: Vec::with_capacity(size_hint) }
    }

    pub fn len(&self) -> (r: usize)
        ensures
            r == self.spec_data().len(),
    {
        self.data.len()
    }

    /// Pads with zeros to the next multiple of `required_alignment`, then
    /// appends `data`; returns where the data went.
    pub fn push(&mut self, data: &[u8], required_alignment: usize) -> (r: PushBufferResult)
        requires
            required_alignment > 0,
            spec_size_after_push(old(self).spec_data().len(), data@.len(), required_alignment as nat)
                <= usize::MAX,
        ensures
            final(self).spec_data() == spec_push(old(self).spec_data(), data@, required_alignment as nat),
            r.spec_offset() == align_up(old(self).spec_data().len(), required_alignment as nat),
            r.spec_size() == data@.len(),
    {
        let ghost old_data = self.data@;
        let ghost a = required_alignment as nat;
        proof {
            lemma_align_up(old_data.len(), a);
        }
        let rem = self.data.len() % required_alignment;
        let offset = if rem == 0 {
            self.data.len()
        } else {
            self.data.len() + (required_alignment - rem)
        };
        assert(offset == align_up(old_data.len(), a));
        while self.data.len() < offset
            invariant
                old_data.len() <= self.data@.len() <= offset,
                offset <= usize::MAX,
                self.data@ == old_data + zeros((self.data@.len() - old_data.len()) as nat),
            decreases offset - self.data@.len(),
        {
            let ghost before = self.data@;
            self.data.push(0u8);
            assert(self.data@ =~= old_data + zeros((self.data@.len() - old_data.len()) as nat)) by {
                assert(before =~= old_data + zeros((before.len() - old_data.len()) as nat));
            }
        }
        let ghost padded = self.data@;
        let mut i: usize = 0;
        while i < data.len()
            invariant
                i <= data@.len(),
                padded.len() == offset,
                offset + data@.len() <= usize::MAX,
                self.data@ == padded + data@.subrange(0, i as int),
            decreases data@.len() - i,
        {
            self.data.push(data[i]);
            i = i + 1;
            assert(self.data@ =~= padded + data@.subrange(0, i as int));
        }
        assert(data@.subrange(0, data@.len() as int) =~= data@);
        assert(self.data@ =~= spec_push(old_data, data@, a));
        PushBufferResult { offset, size: data.len() }
    }

    /// Hands over the bytes pushed so far.
    pub fn into_data(self) -> (r: Vec<u8>)
        ensures
            r@ == self.spec_data(),
    {
        self.data
    }
}

} // verus!
