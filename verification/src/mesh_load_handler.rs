//! Bookkeeping of mesh assets on their way to the GPU: the vertex and index
//! data of all parts of a mesh are packed into one buffer, the upload is
//! remembered per load handle and asset version until the asset version is
//! committed, and a committed upload becomes a mesh update.
use crate::fnv_map::{fnv_map_insert, fnv_map_new, fnv_map_remove};
use crate::push_buffer::{
    align_up, lemma_align_up, lemma_push_places_data, spec_push, spec_size_after_push, PushBuffer,
    PushBufferSizeCalculator,
};
use fnv::FnvHashMap;
use vstd::prelude::*;

verus! {

broadcast use vstd::std_specs::hash::group_hash_axioms;

/// Alignment of each index and vertex span in the combined buffer.
pub const REQUIRED_ALIGNMENT: usize = 16;

/// Identifier of an asset.
#[derive(Clone, Copy, Debug)]
pub struct AssetUuid(pub [u8; 16]);

/// One part of a mesh: its encoded vertices and indices and its material.
pub struct MeshPartAsset {
    pub vertices: Vec<u8>,
    pub indices: Vec<u8>,
    pub material: AssetUuid,
}

/// A mesh asset: its parts, in drawing order.
pub struct MeshAsset {
    pub mesh_parts: Vec<MeshPartAsset>,
}

/// Where the data of one mesh part lies in the combined buffer.
#[derive(Clone, Copy, Debug)]
pub struct LoadingMeshPartRenderInfo {
    pub index_offset: u32,
    pub index_size: u32,
    pub vertex_offset: u32,
    pub vertex_size: u32,
    pub material: AssetUuid,
}

/// An upload in flight: what signals its completion, and where the parts
/// will lie in the uploaded buffer.
pub struct PendingMeshUpdate<A> {
    pub awaiter: A,
    pub mesh_parts: Vec<LoadingMeshPartRenderInfo>,
}

/// The outcome of a buffer upload.
pub enum BufferUploadOpResult<B> {
    UploadComplete(B),
    UploadError,
    UploadDrop,
}

/// A mesh whose data has reached the GPU.
pub struct LoadingMeshRenderInfo<B> {
    pub buffer: B,
    pub mesh_parts: Vec<LoadingMeshPartRenderInfo>,
}

/// Meshes that became ready, with the resource handles they belong to.
pub struct MeshUpdate<B, R> {
    pub meshes: Vec<LoadingMeshRenderInfo<B>>,
    pub resource_handles: Vec<R>,
}

/// What committing an asset version finds.
pub enum CommitStep<A> {
    /// The pending upload of that version, now taken out of the bookkeeping.
    Committed(PendingMeshUpdate<A>),
    /// The load handle has uploads pending, but none of that version.
    UnknownVersion,
    /// Nothing is pending for the load handle.
    UnknownHandle,
}

/// The size that the size calculator arrives at for the parts: per part,
/// the indices and then the vertices, each at a 16-byte aligned offset.
pub open spec fn mesh_required_size(parts: Seq<MeshPartAsset>) -> nat
    decreases parts.len(),
{
    if parts.len() == 0 {
        0
    } else {
        let part = parts.last();
        spec_size_after_push(
            spec_size_after_push(mesh_required_size(parts.drop_last()), part.indices@.len(), 16),
            part.vertices@.len(),
            16,
        )
    }
}

/// The combined buffer of the parts: per part, the indices and then the
/// vertices, each pushed at a 16-byte aligned offset.
pub open spec fn mesh_buffer_bytes(parts: Seq<MeshPartAsset>) -> Seq<u8>
    decreases parts.len(),
{
    if parts.len() == 0 {
        Seq::empty()
    } else {
        let part = parts.last();
        spec_push(spec_push(mesh_buffer_bytes(parts.drop_last()), part.indices@, 16), part.vertices@, 16)
    }
}

/// Offset of the indices of the last part in the combined buffer.
pub open spec fn last_index_offset(parts: Seq<MeshPartAsset>) -> nat {
    align_up(mesh_buffer_bytes(parts.drop_last()).len(), 16)
}

/// Offset of the vertices of the last part in the combined buffer.
pub open spec fn last_vertex_offset(parts: Seq<MeshPartAsset>) -> nat {
    align_up(spec_push(mesh_buffer_bytes(parts.drop_last()), parts.last().indices@, 16).len(), 16)
}

/// Where each part lies in the combined buffer, offsets and sizes taken as
/// `u32`.
pub open spec fn mesh_part_infos(parts: Seq<MeshPartAsset>) -> Seq<LoadingMeshPartRenderInfo>
    decreases parts.len(),
{
    if parts.len() == 0 {
        Seq::empty()
    } else {
        let part = parts.last();
        mesh_part_infos(parts.drop_last()).push(
            LoadingMeshPartRenderInfo {
                index_offset: last_index_offset(parts) as u32,
                index_size: part.indices@.len() as u32,
                vertex_offset: last_vertex_offset(parts) as u32,
                vertex_size: part.vertices@.len() as u32,
                material: part.material,
            },
        )
    }
}

/// The size calculator predicts the size of the combined buffer exactly.
pub proof fn lemma_required_size_is_buffer_len(parts: Seq<MeshPartAsset>)
    ensures
        mesh_buffer_bytes(parts).len() == mesh_required_size(parts),
    decreases parts.len(),
{
    if parts.len() > 0 {
        let part = parts.last();
        let prev = mesh_buffer_bytes(parts.drop_last());
        lemma_required_size_is_buffer_len(parts.drop_last());
        lemma_push_places_data(prev, part.indices@, 16);
        lemma_push_places_data(spec_push(prev, part.indices@, 16), part.vertices@, 16);
    }
}

/// The size of a prefix of the parts is at most the size of all of them.
pub proof fn lemma_required_size_prefix(parts: Seq<MeshPartAsset>, i: int)
    requires
        0 <= i <= parts.len(),
    ensures
        mesh_required_size(parts.take(i)) <= mesh_required_size(parts),
    decreases parts.len(),
{
    if i < parts.len() {
        let part = parts.last();
        let prev = mesh_required_size(parts.drop_last());
        lemma_required_size_prefix(parts.drop_last(), i);
        assert(parts.drop_last().take(i) =~= parts.take(i));
        lemma_align_up(prev, 16);
        lemma_align_up(spec_size_after_push(prev, part.indices@.len(), 16), 16);
    } else {
        assert(parts.take(i) =~= parts);
    }
}

/// The combined buffer of a prefix of the parts is a prefix of the combined
/// buffer of all of them, and the layout of a prefix is a prefix of the
/// layout.
pub proof fn lemma_mesh_layout_prefix(parts: Seq<MeshPartAsset>, i: int)
    requires
        0 <= i <= parts.len(),
    ensures
        mesh_buffer_bytes(parts.take(i)).len() <= mesh_buffer_bytes(parts).len(),
        mesh_buffer_bytes(parts).subrange(0, mesh_buffer_bytes(parts.take(i)).len() as int)
            == mesh_buffer_bytes(parts.take(i)),
        mesh_part_infos(parts).len() == parts.len(),
        mesh_part_infos(parts).take(i) == mesh_part_infos(parts.take(i)),
    decreases parts.len(),
{
    if parts.len() > 0 {
        lemma_mesh_layout_prefix(parts.drop_last(), if i < parts.len() { i } else { parts.len() - 1 });
    }
    if i < parts.len() {
        let part = parts.last();
        let prev = mesh_buffer_bytes(parts.drop_last());
        let mid = spec_push(prev, part.indices@, 16);
        lemma_push_places_data(prev, part.indices@, 16);
        lemma_push_places_data(mid, part.vertices@, 16);
        assert(parts.drop_last().take(i) =~= parts.take(i));
        let pre = mesh_buffer_bytes(parts.take(i));
        let all = mesh_buffer_bytes(parts);
        assert(all.subrange(0, pre.len() as int) =~= prev.subrange(0, pre.len() as int)) by {
            assert(all.subrange(0, mid.len() as int) == mid);
            assert(mid.subrange(0, prev.len() as int) == prev);
        }
        assert(mesh_part_infos(parts).take(i) =~= mesh_part_infos(parts.drop_last()).take(i));
    } else {
        assert(parts.take(i) =~= parts);
        assert(mesh_part_infos(parts).take(i) =~= mesh_part_infos(parts));
        assert(mesh_buffer_bytes(parts).subrange(0, mesh_buffer_bytes(parts).len() as int)
            =~= mesh_buffer_bytes(parts));
    }
}

/// A part's data can be read back from the combined buffer at the offsets
/// that the layout records for it: indices, then vertices, each at a 16-byte
/// aligned offset after the data of the parts before it. The recorded
/// offsets and sizes are these, taken as `u32`.
pub proof fn lemma_mesh_part_read_back(parts: Seq<MeshPartAsset>, k: int)
    requires
        0 <= k < parts.len(),
    ensures
        ({
            let bytes = mesh_buffer_bytes(parts);
            let index_offset = last_index_offset(parts.take(k + 1));
            let vertex_offset = last_vertex_offset(parts.take(k + 1));
            let indices = parts[k].indices@;
            let vertices = parts[k].vertices@;
            &&& index_offset % 16 == 0 && vertex_offset % 16 == 0
            &&& mesh_buffer_bytes(parts.take(k)).len() <= index_offset
            &&& index_offset + indices.len() <= vertex_offset
            &&& vertex_offset + vertices.len() <= bytes.len()
            &&& bytes.subrange(index_offset as int, (index_offset + indices.len()) as int) == indices
            &&& bytes.subrange(vertex_offset as int, (vertex_offset + vertices.len()) as int) == vertices
            &&& mesh_part_infos(parts)[k] == LoadingMeshPartRenderInfo {
                index_offset: index_offset as u32,
                index_size: indices.len() as u32,
                vertex_offset: vertex_offset as u32,
                vertex_size: vertices.len() as u32,
                material: parts[k].material,
            }
        }),
{
    let prefix = parts.take(k + 1);
    assert(prefix.drop_last() =~= parts.take(k));
    assert(prefix.last() == parts[k]);
    lemma_mesh_layout_prefix(parts, k + 1);
    let prev = mesh_buffer_bytes(parts.take(k));
    let mid = spec_push(prev, parts[k].indices@, 16);
    let own = mesh_buffer_bytes(prefix);
    lemma_push_places_data(prev, parts[k].indices@, 16);
    lemma_push_places_data(mid, parts[k].vertices@, 16);
    lemma_align_up(prev.len(), 16);
    lemma_align_up(mid.len(), 16);
    let bytes = mesh_buffer_bytes(parts);
    let io = last_index_offset(prefix);
    let vo = last_vertex_offset(prefix);
    assert(bytes.subrange(io as int, (io + parts[k].indices@.len()) as int) =~= own.subrange(
        io as int,
        ((io + parts[k].indices@.len()) as int) as int,
    )) by {
        assert(bytes.subrange(0, own.len() as int) == own);
    }
    assert(own.subrange(io as int, (io + parts[k].indices@.len()) as int) =~= mid.subrange(
        io as int,
        ((io + parts[k].indices@.len()) as int) as int,
    )) by {
        assert(own.subrange(0, mid.len() as int) == mid);
    }
    assert(bytes.subrange(vo as int, (vo + parts[k].vertices@.len()) as int) =~= own.subrange(
        vo as int,
        ((vo + parts[k].vertices@.len()) as int) as int,
    )) by {
        assert(bytes.subrange(0, own.len() as int) == own);
    }
    assert(mesh_part_infos(parts)[k] == mesh_part_infos(parts).take(k + 1)[k]);
    assert(mesh_part_infos(prefix)[k] == mesh_part_infos(prefix).last());
}

/// The size after a push, if it fits in `usize`.
fn checked_size_after_push(size: usize, len: usize, alignment: usize) -> (r: Option<usize>)
    requires
        alignment > 0,
    ensures
        match r {
            Some(next) => next == spec_size_after_push(size as nat, len as nat, alignment as nat),
            None => spec_size_after_push(size as nat, len as nat, alignment as nat) > usize::MAX,
        },
{
    proof {
        lemma_align_up(size as nat, alignment as nat);
    }
    let rem = size % alignment;
    let padded = if rem == 0 {
        Some(size)
    } else {
        size.checked_add(alignment - rem)
    };
    match padded {
        Some(p) => p.checked_add(len),
        None => None,
    }
}

/// Whether the combined buffer of the asset's parts fits in `usize`, as
/// `update_asset` requires.
pub fn mesh_size_fits(asset: &MeshAsset) -> (r: bool)
    ensures
        r == (mesh_required_size(asset.mesh_parts@) <= usize::MAX),
{
    let parts = &asset.mesh_parts;
    let mut size: usize = 0;
    let mut i: usize = 0;
    assert(parts@.take(0) =~= Seq::<MeshPartAsset>::empty());
    while i < parts.len()
        invariant
            i <= parts@.len(),
            parts@ == asset.mesh_parts@,
            size == mesh_required_size(parts@.take(i as int)),
        decreases parts@.len() - i,
    {
        proof {
            lemma_required_size_prefix(parts@, i + 1);
            assert(parts@.take(i + 1).drop_last() =~= parts@.take(i as int));
            lemma_align_up(spec_size_after_push(size as nat, parts@[i as int].indices@.len(), 16), 16);
            assert(parts@.take(i + 1).last() == parts@[i as int]);
            assert(mesh_required_size(parts@.take(i + 1)) >= spec_size_after_push(
                size as nat,
                parts@[i as int].indices@.len(),
                16,
            ));
        }
        match checked_size_after_push(size, parts[i].indices.len(), REQUIRED_ALIGNMENT) {
            None => return false,
            Some(after_indices) => {
                match checked_size_after_push(after_indices, parts[i].vertices.len(), REQUIRED_ALIGNMENT) {
                    None => return false,
                    Some(after_vertices) => {
                        size = after_vertices;
                    },
                }
            },
        }
        i = i + 1;
    }
    assert(parts@.take(parts@.len() as int) =~= parts@);
    true
}

/// Packs the index and vertex data of all parts into one buffer, sized in
/// advance by the size calculator, and says where each part went.
pub fn layout_mesh_parts(parts: &Vec<MeshPartAsset>) -> (r: (Vec<u8>, Vec<LoadingMeshPartRenderInfo>))
    requires
        mesh_required_size(parts@) <= usize::MAX,
    ensures
        r.0@ == mesh_buffer_bytes(parts@),
        r.1@ == mesh_part_infos(parts@),
{
    //
    // Determine size of buffer needed
    //
    let mut storage_calculator = PushBufferSizeCalculator::new();
    let mut i: usize = 0;
    assert(parts@.take(0) =~= Seq::<MeshPartAsset>::empty());
    while i < parts.len()
        invariant
            i <= parts@.len(),
            mesh_required_size(parts@) <= usize::MAX,
            storage_calculator.spec_required_size() == mesh_required_size(parts@.take(i as int)),
        decreases parts@.len() - i,
    {
        let ghost before = storage_calculator.spec_required_size();
        proof {
            lemma_required_size_prefix(parts@, i + 1);
            assert(parts@.take(i + 1).drop_last() =~= parts@.take(i as int));
            lemma_align_up(before, 16);
            lemma_align_up(spec_size_after_push(before, parts@[i as int].indices@.len(), 16), 16);
        }
        storage_calculator.push(parts[i].indices.as_slice(), REQUIRED_ALIGNMENT);
        storage_calculator.push(parts[i].vertices.as_slice(), REQUIRED_ALIGNMENT);
        i = i + 1;
    }
    //
    // Concatenate vertex/index data for all mesh parts into a buffer
    //
    let mut mesh_part_render_infos: Vec<LoadingMeshPartRenderInfo> = Vec::with_capacity(parts.len());
    let mut combined_mesh_data = PushBuffer::new(storage_calculator.required_size());
    let mut i: usize = 0;
    while i < parts.len()
        invariant
            i <= parts@.len(),
            mesh_required_size(parts@) <= usize::MAX,
            combined_mesh_data.spec_data() == mesh_buffer_bytes(parts@.take(i as int)),
            mesh_part_render_infos@ == mesh_part_infos(parts@.take(i as int)),
        decreases parts@.len() - i,
    {
        let ghost prefix = parts@.take(i as int);
        let ghost next = parts@.take(i + 1);
        let ghost before = combined_mesh_data.spec_data();
        proof {
            lemma_required_size_prefix(parts@, i + 1);
            assert(next.drop_last() =~= prefix);
            assert(next.last() == parts@[i as int]);
            lemma_required_size_is_buffer_len(prefix);
            lemma_align_up(before.len(), 16);
            lemma_align_up(spec_size_after_push(before.len(), parts@[i as int].indices@.len(), 16), 16);
            lemma_push_places_data(before, parts@[i as int].indices@, 16);
        }
        let index = combined_mesh_data.push(parts[i].indices.as_slice(), REQUIRED_ALIGNMENT);
        let vertex = combined_mesh_data.push(parts[i].vertices.as_slice(), REQUIRED_ALIGNMENT);
        mesh_part_render_infos.push(
            LoadingMeshPartRenderInfo {
                index_offset: index.offset() as u32,
                index_size: index.size() as u32,
                vertex_offset: vertex.offset() as u32,
                vertex_size: vertex.size() as u32,
                material: parts[i].material,
            },
        );
        i = i + 1;
    }
    assert(parts@.take(parts@.len() as int) =~= parts@);
    (combined_mesh_data.into_data(), mesh_part_render_infos)
}

/// The versions pending for a load handle; none when the handle is unknown.
pub open spec fn pending_versions<A>(
    pending: Map<u64, Map<u32, (A, Seq<LoadingMeshPartRenderInfo>)>>,
    load_handle: u64,
) -> Map<u32, (A, Seq<LoadingMeshPartRenderInfo>)> {
    if pending.contains_key(load_handle) {
        pending[load_handle]
    } else {
        Map::empty()
    }
}

/// The bookkeeping reads back what it recorded: after `update_asset` for a
/// load handle and version, committing them finds the recorded upload, and
/// leaves the other versions of the handle and the other handles as they
/// were; committing them a second time finds no such version; and after
/// `free` nothing is pending for the handle.
pub proof fn lemma_pending_updates_read_back<A>(
    pending: Map<u64, Map<u32, (A, Seq<LoadingMeshPartRenderInfo>)>>,
    load_handle: u64,
    version: u32,
    recorded: (A, Seq<LoadingMeshPartRenderInfo>),
)
    ensures
        ({
            let updated = pending.insert(
                load_handle,
                pending_versions(pending, load_handle).insert(version, recorded),
            );
            let committed = updated.insert(load_handle, updated[load_handle].remove(version));
            &&& updated.contains_key(load_handle) && updated[load_handle].contains_key(version)
            &&& updated[load_handle][version] == recorded
            &&& committed.contains_key(load_handle) && !committed[load_handle].contains_key(version)
            &&& committed[load_handle] == pending_versions(pending, load_handle).remove(version)
            &&& forall|other: u64|
                other != load_handle ==> #[trigger] committed.contains_key(other) == pending.contains_key(other)
                    && (pending.contains_key(other) ==> committed[other] == pending[other])
            &&& !updated.remove(load_handle).contains_key(load_handle)
        }),
{
    let updated = pending.insert(load_handle, pending_versions(pending, load_handle).insert(version, recorded));
    assert(updated[load_handle].remove(version) =~= pending_versions(pending, load_handle).remove(version));
}

/// Tracks the mesh uploads that are waiting for their asset version to be
/// committed, per load handle and version.
pub struct MeshLoadHandler<A> {
    pending_updates: FnvHashMap<u64, FnvHashMap<u32, PendingMeshUpdate<A>>>,
}

pub open spec fn view_versions<A>(versions: FnvHashMap<u32, PendingMeshUpdate<A>>) -> Map<
    u32,
    (A, Seq<LoadingMeshPartRenderInfo>),
> {
    versions@.map_values(|p: PendingMeshUpdate<A>| (p.awaiter, p.mesh_parts@))
}

impl<A> MeshLoadHandler<A> {
    /// The pending uploads: per load handle, per version, the awaiter and
    /// the layout of the parts.
    pub closed spec fn pending(&self) -> Map<u64, Map<u32, (A, Seq<LoadingMeshPartRenderInfo>)>> {
        self.pending_updates@.map_values(
            |versions: FnvHashMap<u32, PendingMeshUpdate<A>>| view_versions(versions),
        )
    }

    pub fn new() -> (r: Self)
        ensures
            r.pending().is_empty(),
    {
        let r = MeshLoadHandler { pending_updates: fnv_map_new() };
        assert(r.pending() =~= Map::empty());
        r
    }

    /// A new version of a mesh asset arrived: packs its parts into one
    /// buffer, which the caller uploads, and remembers the upload under the
    /// load handle and version, replacing one remembered there before.
    pub fn update_asset(&mut self, load_handle: u64, version: u32, asset: &MeshAsset, awaiter: A) -> (data: Vec<
        u8,
    >)
        requires
            mesh_required_size(asset.mesh_parts@) <= usize::MAX,
        ensures
            data@ == mesh_buffer_bytes(asset.mesh_parts@),
            final(self).pending() == old(self).pending().insert(
                load_handle,
                pending_versions(old(self).pending(), load_handle).insert(
                    version,
                    (awaiter, mesh_part_infos(asset.mesh_parts@)),
                ),
            ),
    {
        let (data, mesh_part_render_infos) = layout_mesh_parts(&asset.mesh_parts);
        let ghost infos = mesh_part_render_infos@;
        let pending_update = PendingMeshUpdate { awaiter, mesh_parts: mesh_part_render_infos };
        let ghost old_outer = self.pending_updates@;
        let mut versions = match fnv_map_remove(&mut self.pending_updates, &load_handle) {
            Some(versions) => versions,
            None => fnv_map_new(),
        };
        fnv_map_insert(&mut versions, version, pending_update);
        let ghost new_versions = versions;
        fnv_map_insert(&mut self.pending_updates, load_handle, versions);
        proof {
            assert(self.pending_updates@ =~= old_outer.insert(load_handle, new_versions));
            assert(view_versions(new_versions) =~= pending_versions(old(self).pending(), load_handle).insert(
                version,
                (awaiter, infos),
            ));
            assert(self.pending() =~= old(self).pending().insert(
                load_handle,
                pending_versions(old(self).pending(), load_handle).insert(version, (awaiter, infos)),
            ));
        }
        data
    }

    /// An asset version is committed: takes its pending upload out of the
    /// bookkeeping, or says which of load handle and version was unknown.
    pub fn commit_asset_version(&mut self, load_handle: u64, version: u32) -> (r: CommitStep<A>)
        ensures
            !old(self).pending().contains_key(load_handle) ==> r is UnknownHandle && final(self).pending()
                == old(self).pending(),
            old(self).pending().contains_key(load_handle) && !old(self).pending()[load_handle].contains_key(
                version,
            ) ==> r is UnknownVersion && final(self).pending() == old(self).pending(),
            old(self).pending().contains_key(load_handle) && old(self).pending()[load_handle].contains_key(
                version,
            ) ==> (r matches CommitStep::Committed(update) && (update.awaiter, update.mesh_parts@)
                == old(self).pending()[load_handle][version]) && final(self).pending() == old(
                self,
            ).pending().insert(load_handle, old(self).pending()[load_handle].remove(version)),
    {
        let ghost old_outer = self.pending_updates@;
        match fnv_map_remove(&mut self.pending_updates, &load_handle) {
            None => {
                assert(self.pending() =~= old(self).pending());
                CommitStep::UnknownHandle
            },
            Some(mut versions) => {
                let ghost old_versions = versions;
                let removed = fnv_map_remove(&mut versions, &version);
                let ghost new_versions = versions;
                fnv_map_insert(&mut self.pending_updates, load_handle, versions);
                assert(self.pending_updates@ =~= old_outer.insert(load_handle, new_versions));
                match removed {
                    None => {
                        assert(view_versions(new_versions) =~= view_versions(old_versions));
                        assert(self.pending() =~= old(self).pending());
                        CommitStep::UnknownVersion
                    },
                    Some(update) => {
                        assert(view_versions(new_versions) =~= view_versions(old_versions).remove(version));
                        assert(self.pending() =~= old(self).pending().insert(
                            load_handle,
                            old(self).pending()[load_handle].remove(version),
                        ));
                        CommitStep::Committed(update)
                    },
                }
            },
        }
    }

    /// The asset is unloaded: forgets every upload pending for the load
    /// handle.
    pub fn free(&mut self, load_handle: u64)
        ensures
            final(self).pending() == old(self).pending().remove(load_handle),
    {
        let _ = fnv_map_remove(&mut self.pending_updates, &load_handle);
        assert(self.pending() =~= old(self).pending().remove(load_handle));
    }
}

/// The mesh update that a committed upload yields. Only a completed upload
/// is expected here: a commit comes after the upload signalled success.
pub fn complete_mesh_update<B, R>(
    mesh_parts: Vec<LoadingMeshPartRenderInfo>,
    upload_result: BufferUploadOpResult<B>,
    resource_handle: R,
) -> (r: MeshUpdate<B, R>)
    requires
        upload_result is UploadComplete,
    ensures
        r.meshes@.len() == 1,
        upload_result matches BufferUploadOpResult::UploadComplete(buffer) && r.meshes@[0].buffer == buffer,
        r.meshes@[0].mesh_parts@ == mesh_parts@,
        r.resource_handles@ == seq![resource_handle],
{
    match upload_result {
        BufferUploadOpResult::UploadComplete(buffer) => {
            let mesh_render_info = LoadingMeshRenderInfo { buffer, mesh_parts };
            let mut meshes = Vec::new();
            meshes.push(mesh_render_info);
            let mut resource_handles = Vec::new();
            resource_handles.push(resource_handle);
            MeshUpdate { meshes, resource_handles }
        },
        BufferUploadOpResult::UploadError => {
            proof { assert(false); }
            MeshUpdate { meshes: Vec::new(), resource_handles: Vec::new() }
        },
        BufferUploadOpResult::UploadDrop => {
            proof { assert(false); }
            MeshUpdate { meshes: Vec::new(), resource_handles: Vec::new() }
        },
    }
}

} // verus!
