//! The vertex, index and draw-call buffers that render one egui frame:
//! the meshes of all clip rectangles, split to 16-bit indices by egui, are
//! concatenated, and each non-empty mesh becomes a draw call that says where
//! its data lies.
use egui::epaint::Vertex;
use egui::{Rect, Texture, TextureId};
use std::sync::Arc;
use vstd::prelude::*;

verus! {

broadcast use vstd::std_specs::vec::group_vec_axioms;

#[verifier::external_type_specification]
#[verifier::external_body]
pub struct ExVertex(Vertex);

#[verifier::external_type_specification]
#[verifier::external_body]
pub struct ExRect(Rect);

#[verifier::external_type_specification]
#[verifier::external_body]
pub struct ExTexture(Texture);

#[verifier::external_type_specification]
#[verifier::external_body]
pub struct ExTextureId(TextureId);

/// An egui mesh with 32-bit indices, as egui tessellates it.
pub struct EguiMesh {
    pub indices: Vec<u32>,
    pub vertices: Vec<Vertex>,
    pub texture_id: TextureId,
}

/// An egui mesh with 16-bit indices.
pub struct EguiMesh16 {
    pub indices: Vec<u16>,
    pub vertices: Vec<Vertex>,
    pub texture_id: TextureId,
}

/// A mesh and the rectangle it is clipped to, in physical pixels.
pub struct EguiClippedMesh {
    pub clip_rect: Rect,
    pub mesh: EguiMesh,
}

/// The 16-bit meshes of one clip rectangle.
pub struct EguiSplitClippedMesh {
    pub clip_rect: Rect,
    pub meshes: Vec<EguiMesh16>,
}

/// One indexed draw: `index_count` indices from `index_offset`, relative to
/// the vertex at `vertex_offset`, with the given texture bound.
pub struct EguiDrawCall {
    pub texture_id: TextureId,
    pub vertex_offset: usize,
    pub index_offset: usize,
    pub index_count: usize,
}

/// The draw calls of one clip rectangle.
pub struct EguiClippedDrawCalls {
    pub clip_rect: Rect,
    pub draw_calls: Vec<EguiDrawCall>,
}

/// Everything needed to render an egui frame. `P` is the scale from points
/// to pixels.
pub struct EguiDrawData<P> {
    pub vertices: Vec<Vertex>,
    pub indices: Vec<u16>,
    pub clipped_draw_calls: Vec<EguiClippedDrawCalls>,
    pub font_atlas: Arc<Texture>,
    pub pixels_per_point: P,
}

/// A 16-bit mesh as values: texture, indices, vertices.
pub type MeshModel = (TextureId, Seq<u16>, Seq<Vertex>);

/// A clip rectangle with its 16-bit meshes, as values.
pub type ClippedModel = (Rect, Seq<MeshModel>);

/// Draw calls as values.
pub type DrawCallModel = (TextureId, nat, nat, nat);

/// Buffers under construction: vertices, indices, and the draw calls of
/// the current clip rectangle.
pub type MeshFoldModel = (Seq<Vertex>, Seq<u16>, Seq<DrawCallModel>);

/// Buffers under construction: vertices, indices, and the draw calls per
/// clip rectangle.
pub type FrameModel = (Seq<Vertex>, Seq<u16>, Seq<(Rect, Seq<DrawCallModel>)>);

/// What egui's `Mesh::split_to_u16` returns for a mesh with this texture,
/// these indices and these vertices.
pub uninterp spec fn egui_split_to_u16(texture_id: TextureId, indices: Seq<u32>, vertices: Seq<Vertex>) -> Seq<
    MeshModel,
>;

pub open spec fn mesh16_model(mesh: EguiMesh16) -> MeshModel {
    (mesh.texture_id, mesh.indices@, mesh.vertices@)
}

pub open spec fn meshes16_model(meshes: Seq<EguiMesh16>) -> Seq<MeshModel> {
    meshes.map_values(|m: EguiMesh16| mesh16_model(m))
}

pub open spec fn split_clipped_model(clipped: EguiSplitClippedMesh) -> ClippedModel {
    (clipped.clip_rect, meshes16_model(clipped.meshes@))
}

/// A clipped mesh as values, split by egui.
pub open spec fn clipped_model(clipped: EguiClippedMesh) -> ClippedModel {
    (clipped.clip_rect, egui_split_to_u16(clipped.mesh.texture_id, clipped.mesh.indices@, clipped.mesh.vertices@))
}

pub open spec fn draw_call_model(call: EguiDrawCall) -> DrawCallModel {
    (call.texture_id, call.vertex_offset as nat, call.index_offset as nat, call.index_count as nat)
}

pub open spec fn draw_calls_model(calls: Seq<EguiDrawCall>) -> Seq<DrawCallModel> {
    calls.map_values(|c: EguiDrawCall| draw_call_model(c))
}

pub open spec fn clipped_draw_calls_model(clipped: EguiClippedDrawCalls) -> (Rect, Seq<DrawCallModel>) {
    (clipped.clip_rect, draw_calls_model(clipped.draw_calls@))
}

/// Whether the three indices of triangle `t` lie less than 65536 vertices
/// apart.
pub open spec fn triangle_fits_u16(indices: Seq<u32>, t: int) -> bool {
    let a = indices[3 * t] as int;
    let b = indices[3 * t + 1] as int;
    let c = indices[3 * t + 2] as int;
    &&& a - b < 65536 && b - a < 65536
    &&& a - c < 65536 && c - a < 65536
    &&& b - c < 65536 && c - b < 65536
}

/// The meshes that egui splits without panicking: those with fewer than
/// 65536 vertices, and otherwise those made of whole triangles whose indices
/// are in bounds and lie less than 65536 vertices apart.
pub open spec fn split_to_u16_accepts(indices: Seq<u32>, vertex_count: nat) -> bool {
    ||| vertex_count < 65536
    ||| {
        &&& indices.len() % 3 == 0
        &&& forall|i: int| 0 <= i < indices.len() ==> (#[trigger] indices[i] as nat) < vertex_count
        &&& forall|t: int| 0 <= t < indices.len() / 3 ==> #[trigger] triangle_fits_u16(indices, t)
    }
}

/// Whether egui splits the mesh to 16-bit indices without panicking.
pub fn split_to_u16_accepted(mesh: &EguiMesh) -> (r: bool)
    ensures
        r == split_to_u16_accepts(mesh.indices@, mesh.vertices@.len()),
{
    let vertex_count = mesh.vertices.len();
    if vertex_count < 65536 {
        return true;
    }
    let n = mesh.indices.len();
    if n % 3 != 0 {
        return false;
    }
    let mut i: usize = 0;
    while i < n
        invariant
            n == mesh.indices@.len(),
            vertex_count == mesh.vertices@.len(),
            vertex_count >= 65536,
            n % 3 == 0,
            i <= n,
            forall|j: int| 0 <= j < i ==> (#[trigger] mesh.indices@[j] as nat) < vertex_count,
        decreases n - i,
    {
        if mesh.indices[i] as usize >= vertex_count {
            assert(!((mesh.indices@[i as int] as nat) < vertex_count));
            return false;
        }
        i = i + 1;
    }
    let mut t: usize = 0;
    while t < n / 3
        invariant
            n == mesh.indices@.len(),
            n % 3 == 0,
            mesh.vertices@.len() >= 65536,
            t <= n / 3,
            forall|u: int| 0 <= u < t ==> #[trigger] triangle_fits_u16(mesh.indices@, u),
        decreases n / 3 - t,
    {
        assert(3 * t + 2 < n) by (nonlinear_arith)
            requires t < n / 3, n % 3 == 0;
        let a = mesh.indices[3 * t];
        let b = mesh.indices[3 * t + 1];
        let c = mesh.indices[3 * t + 2];
        let ab = if a >= b { a - b } else { b - a };
        let ac = if a >= c { a - c } else { c - a };
        let bc = if b >= c { b - c } else { c - b };
        if ab >= 65536 || ac >= 65536 || bc >= 65536 {
            assert(!triangle_fits_u16(mesh.indices@, t as int));
            return false;
        }
        t = t + 1;
    }
    true
}

/// Whether every index is below the vertex count.
pub open spec fn indices_in_bounds(indices: Seq<u32>, vertex_count: nat) -> bool {
    forall|i: int| 0 <= i < indices.len() ==> (#[trigger] indices[i] as nat) < vertex_count
}

/// Whether every index of a 16-bit mesh is below its vertex count.
pub open spec fn mesh16_valid(mesh: MeshModel) -> bool {
    forall|i: int| 0 <= i < mesh.1.len() ==> (#[trigger] mesh.1[i] as nat) < mesh.2.len()
}

/// egui's `Mesh::split_to_u16`, on a mesh rebuilt from `mesh`'s fields.
/// Its result is named `egui_split_to_u16`. egui's source shows three more
/// facts, stated here: a mesh of fewer than 65536 vertices comes back as
/// one mesh with each index cast to 16 bits and the same vertices; every
/// mesh that comes back keeps the texture; and when the indices are below
/// the vertex count, every mesh that comes back has its indices below its
/// own vertex count (a larger mesh is cut into the vertices from the
/// lowest to the highest index of a span, with the indices rebased). How a
/// larger mesh is cut into spans of triangles is not stated.
#[verifier::external_body]
pub(crate) fn split_to_u16(mesh: EguiMesh) -> (r: Vec<EguiMesh16>)
    requires
        split_to_u16_accepts(mesh.indices@, mesh.vertices@.len()),
    ensures
        meshes16_model(r@) == egui_split_to_u16(mesh.texture_id, mesh.indices@, mesh.vertices@),
        mesh.vertices@.len() < 65536 ==> meshes16_model(r@) == seq![
            (mesh.texture_id, mesh.indices@.map_values(|i: u32| i as u16), mesh.vertices@),
        ],
        forall|k: int| 0 <= k < r@.len() ==> (#[trigger] r@[k]).texture_id == mesh.texture_id,
        indices_in_bounds(mesh.indices@, mesh.vertices@.len()) ==> forall|k: int|
            0 <= k < r@.len() ==> mesh16_valid(#[trigger] meshes16_model(r@)[k]),
{
    let mesh = egui::epaint::Mesh { indices: mesh.indices, vertices: mesh.vertices, texture_id: mesh.texture_id };
    mesh.split_to_u16().into_iter().map(
        |m| EguiMesh16 { indices: m.indices, vertices: m.vertices, texture_id: m.texture_id },
    ).collect()
}

/// One mesh appended to the buffers: an empty one is skipped; otherwise its
/// vertices and indices go at the end, and a draw call records the offsets
/// where they start, the index count and the texture.
pub open spec fn append_mesh(state: MeshFoldModel, mesh: MeshModel) -> MeshFoldModel {
    if mesh.1.len() == 0 {
        state
    } else {
        (
            state.0 + mesh.2,
            state.1 + mesh.1,
            state.2.push((mesh.0, state.0.len(), state.1.len(), mesh.1.len())),
        )
    }
}

pub open spec fn append_meshes(state: MeshFoldModel, meshes: Seq<MeshModel>) -> MeshFoldModel
    decreases meshes.len(),
{
    if meshes.len() == 0 {
        state
    } else {
        append_mesh(append_meshes(state, meshes.drop_last()), meshes.last())
    }
}

/// One clip rectangle appended to the frame: its meshes go into the shared
/// buffers, and its draw calls form a list of their own.
pub open spec fn append_clipped(frame: FrameModel, clipped: ClippedModel) -> FrameModel {
    let done = append_meshes((frame.0, frame.1, Seq::empty()), clipped.1);
    (done.0, done.1, frame.2.push((clipped.0, done.2)))
}

pub open spec fn assemble_frame(clipped: Seq<ClippedModel>) -> FrameModel
    decreases clipped.len(),
{
    if clipped.len() == 0 {
        (Seq::empty(), Seq::empty(), Seq::empty())
    } else {
        append_clipped(assemble_frame(clipped.drop_last()), clipped.last())
    }
}

/// Whether `data` holds the frame assembled from `clipped`, with the given
/// font atlas and scale.
pub open spec fn is_frame<P>(data: EguiDrawData<P>, clipped: Seq<ClippedModel>, font_atlas: Arc<Texture>, pixels_per_point: P) -> bool {
    let frame = assemble_frame(clipped);
    &&& data.vertices@ == frame.0
    &&& data.indices@ == frame.1
    &&& data.clipped_draw_calls@.map_values(|c: EguiClippedDrawCalls| clipped_draw_calls_model(c)) == frame.2
    &&& data.font_atlas == font_atlas
    &&& data.pixels_per_point == pixels_per_point
}

/// The frame's data when it has more than one vertex; none otherwise.
pub open spec fn frame_result<P>(r: Option<EguiDrawData<P>>, clipped: Seq<ClippedModel>, font_atlas: Arc<Texture>, pixels_per_point: P) -> bool {
    match r {
        Some(data) => assemble_frame(clipped).0.len() > 1 && is_frame(data, clipped, font_atlas, pixels_per_point),
        None => assemble_frame(clipped).0.len() <= 1,
    }
}

/// Whether the draw call `call` finds, in the vertex and index buffers, the
/// data of one non-empty mesh of `meshes` with the call's texture: its
/// indices from the call's index offset, its vertices from the call's
/// vertex offset.
pub open spec fn call_locates_mesh(
    vertices: Seq<Vertex>,
    indices: Seq<u16>,
    meshes: Seq<MeshModel>,
    call: DrawCallModel,
) -> bool {
    &&& call.3 > 0
    &&& call.2 + call.3 <= indices.len()
    &&& exists|j: int|
        0 <= j < meshes.len() && (#[trigger] meshes[j]).0 == call.0 && meshes[j].1 == indices.subrange(
            call.2 as int,
            (call.2 + call.3) as int,
        ) && call.1 + meshes[j].2.len() <= vertices.len() && meshes[j].2 == vertices.subrange(
            call.1 as int,
            (call.1 + meshes[j].2.len()) as int,
        )
}

/// Appending data keeps what a draw call located.
proof fn lemma_call_locates_extend(
    vertices: Seq<Vertex>,
    indices: Seq<u16>,
    meshes: Seq<MeshModel>,
    more_meshes: Seq<MeshModel>,
    call: DrawCallModel,
    extra_vertices: Seq<Vertex>,
    extra_indices: Seq<u16>,
)
    requires
        call_locates_mesh(vertices, indices, meshes, call),
        meshes.len() <= more_meshes.len(),
        forall|j: int| 0 <= j < meshes.len() ==> more_meshes[j] == meshes[j],
    ensures
        call_locates_mesh(vertices + extra_vertices, indices + extra_indices, more_meshes, call),
{
    let j = choose|j: int|
        0 <= j < meshes.len() && (#[trigger] meshes[j]).0 == call.0 && meshes[j].1 == indices.subrange(
            call.2 as int,
            (call.2 + call.3) as int,
        ) && call.1 + meshes[j].2.len() <= vertices.len() && meshes[j].2 == vertices.subrange(
            call.1 as int,
            (call.1 + meshes[j].2.len()) as int,
        );
    assert((indices + extra_indices).subrange(call.2 as int, (call.2 + call.3) as int) =~= indices.subrange(
        call.2 as int,
        (call.2 + call.3) as int,
    ));
    assert((vertices + extra_vertices).subrange(call.1 as int, (call.1 + meshes[j].2.len()) as int)
        =~= vertices.subrange(call.1 as int, (call.1 + meshes[j].2.len()) as int));
    assert(more_meshes[j] == meshes[j]);
}

/// Appending meshes extends the buffers and the draw calls, and every new
/// draw call locates the data of one of the appended meshes.
pub proof fn lemma_append_meshes_locates(state: MeshFoldModel, meshes: Seq<MeshModel>)
    ensures
        ({
            let out = append_meshes(state, meshes);
            &&& out.0.len() >= state.0.len() && out.0.subrange(0, state.0.len() as int) == state.0
            &&& out.1.len() >= state.1.len() && out.1.subrange(0, state.1.len() as int) == state.1
            &&& out.2.len() >= state.2.len() && out.2.subrange(0, state.2.len() as int) == state.2
            &&& forall|k: int|
                state.2.len() <= k < out.2.len() ==> call_locates_mesh(out.0, out.1, meshes, #[trigger] out.2[k])
        }),
    decreases meshes.len(),
{
    if meshes.len() > 0 {
        let prev = append_meshes(state, meshes.drop_last());
        let mesh = meshes.last();
        lemma_append_meshes_locates(state, meshes.drop_last());
        let out = append_meshes(state, meshes);
        assert(out == append_mesh(prev, mesh));
        if mesh.1.len() > 0 {
            assert(out.0.subrange(0, state.0.len() as int) =~= prev.0.subrange(0, state.0.len() as int));
            assert(out.1.subrange(0, state.1.len() as int) =~= prev.1.subrange(0, state.1.len() as int));
            assert(out.2.subrange(0, state.2.len() as int) =~= prev.2.subrange(0, state.2.len() as int));
            assert forall|k: int| state.2.len() <= k < out.2.len() implies call_locates_mesh(
                out.0,
                out.1,
                meshes,
                #[trigger] out.2[k],
            ) by {
                if k < prev.2.len() {
                    assert(out.2[k] == prev.2[k]);
                    lemma_call_locates_extend(prev.0, prev.1, meshes.drop_last(), meshes, prev.2[k], mesh.2, mesh.1);
                } else {
                    let j = meshes.len() - 1;
                    assert(meshes[j] == mesh);
                    assert(out.1.subrange(prev.1.len() as int, (prev.1.len() + mesh.1.len()) as int) =~= mesh.1);
                    assert(out.0.subrange(prev.0.len() as int, (prev.0.len() + mesh.2.len()) as int) =~= mesh.2);
                }
            }
        } else {
            assert forall|k: int| state.2.len() <= k < out.2.len() implies call_locates_mesh(
                out.0,
                out.1,
                meshes,
                #[trigger] out.2[k],
            ) by {
                lemma_call_locates_extend(prev.0, prev.1, meshes.drop_last(), meshes, prev.2[k], Seq::empty(), Seq::empty());
                assert(prev.0 + Seq::<Vertex>::empty() =~= prev.0);
                assert(prev.1 + Seq::<u16>::empty() =~= prev.1);
            }
        }
    } else {
        assert(state.0.subrange(0, state.0.len() as int) =~= state.0);
        assert(state.1.subrange(0, state.1.len() as int) =~= state.1);
        assert(state.2.subrange(0, state.2.len() as int) =~= state.2);
    }
}

/// Draw data locates every mesh: the frame has one list of draw calls per
/// clip rectangle, for that rectangle; and each draw call finds, at its
/// offsets in the vertex and index buffers, the data of a non-empty mesh of
/// its clip rectangle, drawn with that mesh's texture.
pub proof fn lemma_frame_draw_calls_locate_meshes(clipped: Seq<ClippedModel>)
    ensures
        ({
            let frame = assemble_frame(clipped);
            &&& frame.2.len() == clipped.len()
            &&& forall|g: int| 0 <= g < clipped.len() ==> (#[trigger] frame.2[g]).0 == clipped[g].0
            &&& forall|g: int, k: int|
                0 <= g < clipped.len() && 0 <= k < (#[trigger] frame.2[g]).1.len() ==> call_locates_mesh(
                    frame.0,
                    frame.1,
                    clipped[g].1,
                    #[trigger] frame.2[g].1[k],
                )
        }),
    decreases clipped.len(),
{
    if clipped.len() > 0 {
        let prev = assemble_frame(clipped.drop_last());
        let last = clipped.last();
        lemma_frame_draw_calls_locate_meshes(clipped.drop_last());
        let done = append_meshes((prev.0, prev.1, Seq::empty()), last.1);
        lemma_append_meshes_locates((prev.0, prev.1, Seq::empty()), last.1);
        let frame = assemble_frame(clipped);
        assert(frame == (done.0, done.1, prev.2.push((last.0, done.2))));
        assert forall|g: int, k: int|
            0 <= g < clipped.len() && 0 <= k < (#[trigger] frame.2[g]).1.len() implies call_locates_mesh(
            frame.0,
            frame.1,
            clipped[g].1,
            #[trigger] frame.2[g].1[k],
        ) by {
            if g < clipped.len() - 1 {
                assert(frame.2[g] == prev.2[g]);
                assert(clipped[g] == clipped.drop_last()[g]);
                let extra_v = done.0.subrange(prev.0.len() as int, done.0.len() as int);
                let extra_i = done.1.subrange(prev.1.len() as int, done.1.len() as int);
                assert(done.0 =~= prev.0 + extra_v) by {
                    assert(done.0.subrange(0, prev.0.len() as int) == prev.0);
                }
                assert(done.1 =~= prev.1 + extra_i) by {
                    assert(done.1.subrange(0, prev.1.len() as int) == prev.1);
                }
                lemma_call_locates_extend(prev.0, prev.1, clipped[g].1, clipped[g].1, prev.2[g].1[k], extra_v, extra_i);
            } else {
                assert(frame.2[g] == (last.0, done.2));
            }
        }
    }
}

/// A clipped mesh of fewer than 65536 vertices as egui splits it: one mesh
/// with each index cast to 16 bits and the same vertices and texture.
pub open spec fn small_clipped_model(clipped: EguiClippedMesh) -> ClippedModel {
    (
        clipped.clip_rect,
        seq![
            (
                clipped.mesh.texture_id,
                clipped.mesh.indices@.map_values(|i: u32| i as u16),
                clipped.mesh.vertices@,
            ),
        ],
    )
}

/// Whether every clipped mesh has fewer than 65536 vertices.
pub open spec fn clipped_input_small(clipped: Seq<EguiClippedMesh>) -> bool {
    forall|i: int| 0 <= i < clipped.len() ==> (#[trigger] clipped[i]).mesh.vertices@.len() < 65536
}

/// Whether every clipped mesh has its indices below its vertex count.
pub open spec fn clipped_input_in_bounds(clipped: Seq<EguiClippedMesh>) -> bool {
    forall|i: int|
        0 <= i < clipped.len() ==> indices_in_bounds(
            (#[trigger] clipped[i]).mesh.indices@,
            clipped[i].mesh.vertices@.len(),
        )
}

/// Whether every mesh of every clip rectangle has its indices below its
/// vertex count.
pub open spec fn clipped_meshes_valid(clipped: Seq<ClippedModel>) -> bool {
    forall|g: int, k: int|
        0 <= g < clipped.len() && 0 <= k < clipped[g].1.len() ==> mesh16_valid(#[trigger] clipped[g].1[k])
}

/// Whether every index that a draw call of the frame reads lies in the
/// index buffer, and names, from the call's vertex offset, a vertex of the
/// vertex buffer.
pub open spec fn draw_calls_in_bounds(frame: FrameModel) -> bool {
    forall|g: int, k: int, j: int|
        0 <= g < frame.2.len() && 0 <= k < frame.2[g].1.len() && (#[trigger] frame.2[g].1[k]).2 <= j
            < frame.2[g].1[k].2 + frame.2[g].1[k].3 ==> j < frame.1.len() && frame.2[g].1[k].1 + (
        #[trigger] frame.1[j]) < frame.0.len()
}

/// The draw calls of all clip rectangles, in order.
pub open spec fn flat_draw_calls(lists: Seq<(Rect, Seq<DrawCallModel>)>) -> Seq<DrawCallModel>
    decreases lists.len(),
{
    if lists.len() == 0 {
        Seq::empty()
    } else {
        flat_draw_calls(lists.drop_last()) + lists.last().1
    }
}

/// Whether the index ranges of the draw calls, in order, cover the indices
/// from `start` to `end` one after another, without gap or overlap.
pub open spec fn calls_tile(calls: Seq<DrawCallModel>, start: nat, end: nat) -> bool
    decreases calls.len(),
{
    if calls.len() == 0 {
        start == end
    } else {
        let last = calls.last();
        &&& last.2 + last.3 == end
        &&& start <= last.2
        &&& calls_tile(calls.drop_last(), start, last.2)
    }
}

proof fn lemma_calls_tile_concat(a: Seq<DrawCallModel>, b: Seq<DrawCallModel>, start: nat, mid: nat, end: nat)
    requires
        calls_tile(a, start, mid),
        calls_tile(b, mid, end),
    ensures
        calls_tile(a + b, start, end),
    decreases b.len(),
{
    if b.len() == 0 {
        assert(a + b =~= a);
    } else {
        lemma_calls_tile_concat(a, b.drop_last(), start, mid, b.last().2);
        assert((a + b).drop_last() =~= a + b.drop_last());
        assert((a + b).last() == b.last());
    }
}

proof fn lemma_calls_tile_bounds(calls: Seq<DrawCallModel>, start: nat, end: nat)
    requires
        calls_tile(calls, start, end),
    ensures
        start <= end,
    decreases calls.len(),
{
    if calls.len() > 0 {
        lemma_calls_tile_bounds(calls.drop_last(), start, calls.last().2);
    }
}

/// The draw calls that appending meshes adds cover the appended indices
/// one after another.
proof fn lemma_append_meshes_tile(state: MeshFoldModel, meshes: Seq<MeshModel>)
    ensures
        ({
            let out = append_meshes(state, meshes);
            &&& out.2.len() >= state.2.len()
            &&& out.2 == state.2 + out.2.skip(state.2.len() as int)
            &&& calls_tile(out.2.skip(state.2.len() as int), state.1.len(), out.1.len())
        }),
    decreases meshes.len(),
{
    if meshes.len() == 0 {
        assert(state.2 + state.2.skip(state.2.len() as int) =~= state.2);
        assert(state.2.skip(state.2.len() as int) =~= Seq::<DrawCallModel>::empty());
    } else {
        lemma_append_meshes_tile(state, meshes.drop_last());
        let prev = append_meshes(state, meshes.drop_last());
        let mesh = meshes.last();
        let out = append_meshes(state, meshes);
        assert(out == append_mesh(prev, mesh));
        if mesh.1.len() > 0 {
            let new_prev = prev.2.skip(state.2.len() as int);
            let new = out.2.skip(state.2.len() as int);
            assert(new =~= new_prev.push(out.2.last()));
            assert(new.drop_last() =~= new_prev);
            assert(out.2 =~= state.2 + new);
            lemma_calls_tile_bounds(new_prev, state.1.len(), prev.1.len());
        }
    }
}

/// Draw calls tile the index buffer and stay in bounds: taken in order over
/// all clip rectangles, the index ranges of the draw calls cover the whole
/// index buffer one after another, without gap or overlap; and when every
/// mesh has its indices below its own vertex count, every index that a draw
/// call reads, counted from the call's vertex offset, names a vertex of the
/// vertex buffer.
pub proof fn lemma_frame_draw_calls_tile_and_stay_in_bounds(clipped: Seq<ClippedModel>)
    ensures
        calls_tile(flat_draw_calls(assemble_frame(clipped).2), 0, assemble_frame(clipped).1.len()),
        clipped_meshes_valid(clipped) ==> draw_calls_in_bounds(assemble_frame(clipped)),
    decreases clipped.len(),
{
    let frame = assemble_frame(clipped);
    if clipped.len() > 0 {
        let prev = assemble_frame(clipped.drop_last());
        let last = clipped.last();
        lemma_frame_draw_calls_tile_and_stay_in_bounds(clipped.drop_last());
        let start = (prev.0, prev.1, Seq::<DrawCallModel>::empty());
        let done = append_meshes(start, last.1);
        lemma_append_meshes_tile(start, last.1);
        assert(done.2.skip(0) =~= done.2);
        assert(frame == (done.0, done.1, prev.2.push((last.0, done.2))));
        assert(frame.2.drop_last() =~= prev.2);
        lemma_calls_tile_concat(flat_draw_calls(prev.2), done.2, 0, prev.1.len(), done.1.len());
    }
    if clipped_meshes_valid(clipped) {
        lemma_frame_draw_calls_locate_meshes(clipped);
        assert forall|g: int, k: int, j: int|
            0 <= g < frame.2.len() && 0 <= k < frame.2[g].1.len() && (#[trigger] frame.2[g].1[k]).2 <= j
                < frame.2[g].1[k].2 + frame.2[g].1[k].3 implies j < frame.1.len() && frame.2[g].1[k].1 + (
            #[trigger] frame.1[j]) < frame.0.len() by {
            let call = frame.2[g].1[k];
            assert(call_locates_mesh(frame.0, frame.1, clipped[g].1, call));
            let m = choose|m: int|
                0 <= m < clipped[g].1.len() && (#[trigger] clipped[g].1[m]).0 == call.0 && clipped[g].1[m].1
                    == frame.1.subrange(call.2 as int, (call.2 + call.3) as int) && call.1 + clipped[g].1[m].2.len()
                    <= frame.0.len() && clipped[g].1[m].2 == frame.0.subrange(
                    call.1 as int,
                    (call.1 + clipped[g].1[m].2.len()) as int,
                );
            let mesh = clipped[g].1[m];
            assert(mesh16_valid(mesh));
            assert(frame.1[j] == mesh.1[j - call.2]);
        }
    }
}

proof fn lemma_append_meshes_grow(state: MeshFoldModel, meshes: Seq<MeshModel>)
    ensures
        append_meshes(state, meshes).0.len() >= state.0.len(),
        forall|j: int|
            0 <= j < meshes.len() && (#[trigger] meshes[j]).1.len() > 0 ==> append_meshes(state, meshes).0.len()
                >= state.0.len() + meshes[j].2.len(),
    decreases meshes.len(),
{
    if meshes.len() > 0 {
        lemma_append_meshes_grow(state, meshes.drop_last());
        let prev = append_meshes(state, meshes.drop_last());
        assert forall|j: int|
            0 <= j < meshes.len() && (#[trigger] meshes[j]).1.len() > 0 implies append_meshes(state, meshes).0.len()
                >= state.0.len() + meshes[j].2.len() by {
            if j < meshes.len() - 1 {
                assert(meshes.drop_last()[j] == meshes[j]);
            }
        }
    }
}

/// Every mesh with indices lands in the frame's vertex buffer: the frame
/// holds at least as many vertices as any such mesh of any clip rectangle.
pub proof fn lemma_frame_holds_mesh_vertices(clipped: Seq<ClippedModel>)
    ensures
        forall|g: int, j: int|
            0 <= g < clipped.len() && 0 <= j < clipped[g].1.len() && (#[trigger] clipped[g].1[j]).1.len() > 0
                ==> assemble_frame(clipped).0.len() >= clipped[g].1[j].2.len(),
    decreases clipped.len(),
{
    if clipped.len() > 0 {
        let prev = assemble_frame(clipped.drop_last());
        let last = clipped.last();
        lemma_frame_holds_mesh_vertices(clipped.drop_last());
        lemma_append_meshes_grow((prev.0, prev.1, Seq::empty()), last.1);
        assert forall|g: int, j: int|
            0 <= g < clipped.len() && 0 <= j < clipped[g].1.len() && (#[trigger] clipped[g].1[j]).1.len() > 0
                implies assemble_frame(clipped).0.len() >= clipped[g].1[j].2.len() by {
            if g < clipped.len() - 1 {
                assert(clipped.drop_last()[g] == clipped[g]);
            }
        }
    }
}

/// A frame of one clip rectangle with one mesh that has indices is that
/// mesh: its vertices, its indices, and one draw call from offset zero over
/// all its indices with its texture.
pub proof fn lemma_single_mesh_frame(clip_rect: Rect, mesh: MeshModel)
    requires
        mesh.1.len() > 0,
    ensures
        assemble_frame(seq![(clip_rect, seq![mesh])]) == (
            mesh.2,
            mesh.1,
            seq![(clip_rect, seq![(mesh.0, 0nat, 0nat, mesh.1.len())])],
        ),
{
    let clipped = seq![(clip_rect, seq![mesh])];
    assert(clipped.drop_last() =~= Seq::<ClippedModel>::empty());
    assert(seq![mesh].drop_last() =~= Seq::<MeshModel>::empty());
    let empty = (Seq::<Vertex>::empty(), Seq::<u16>::empty(), Seq::<DrawCallModel>::empty());
    assert(append_meshes(empty, Seq::<MeshModel>::empty()) == empty);
    assert(append_meshes(empty, seq![mesh].drop_last()) == empty);
    assert(seq![mesh].last() == mesh);
    assert(append_meshes(empty, seq![mesh]) == append_mesh(empty, mesh));
    assert(assemble_frame(clipped.drop_last()) == (
        Seq::<Vertex>::empty(),
        Seq::<u16>::empty(),
        Seq::<(Rect, Seq<DrawCallModel>)>::empty(),
    ));
    assert(clipped.last() == (clip_rect, seq![mesh]));
    assert(Seq::<Vertex>::empty() + mesh.2 =~= mesh.2);
    assert(Seq::<u16>::empty() + mesh.1 =~= mesh.1);
    assert(Seq::<(Rect, Seq<DrawCallModel>)>::empty().push((clip_rect, seq![(mesh.0, 0nat, 0nat, mesh.1.len())]))
        =~= seq![(clip_rect, seq![(mesh.0, 0nat, 0nat, mesh.1.len())])]);
    assert(Seq::<DrawCallModel>::empty().push((mesh.0, 0nat, 0nat, mesh.1.len())) =~= seq![
        (mesh.0, 0nat, 0nat, mesh.1.len()),
    ]);
}

impl<P> EguiDrawData<P> {
    /// Assembles the frame from meshes that are already split to 16-bit
    /// indices.
    pub fn from_split_meshes(
        clipped_meshes: Vec<EguiSplitClippedMesh>,
        font_atlas: Arc<Texture>,
        pixels_per_point: P,
    ) -> (r: Option<Self>)
        ensures
            frame_result(
                r,
                clipped_meshes@.map_values(|c: EguiSplitClippedMesh| split_clipped_model(c)),
                font_atlas,
                pixels_per_point,
            ),
            r is Some <==> assemble_frame(
                clipped_meshes@.map_values(|c: EguiSplitClippedMesh| split_clipped_model(c)),
            ).0.len() > 1,
    {
        let ghost model = clipped_meshes@.map_values(|c: EguiSplitClippedMesh| split_clipped_model(c));
        let mut vertices: Vec<Vertex> = Vec::new();
        let mut indices: Vec<u16> = Vec::new();
        let mut all_clipped_draw_calls: Vec<EguiClippedDrawCalls> = Vec::new();
        for clipped_mesh in it: clipped_meshes
            invariant
                model == it.seq().map_values(|c: EguiSplitClippedMesh| split_clipped_model(c)),
                (vertices@, indices@, all_clipped_draw_calls@.map_values(
                    |c: EguiClippedDrawCalls| clipped_draw_calls_model(c),
                )) == assemble_frame(model.take(it.index() as int)),
        {
            let ghost prefix = model.take(it.index() as int);
            let ghost group = split_clipped_model(clipped_mesh);
            let ghost start_vertices = vertices@;
            let ghost start_indices = indices@;
            let ghost start_calls = all_clipped_draw_calls@.map_values(
                |c: EguiClippedDrawCalls| clipped_draw_calls_model(c),
            );
            let mut draw_calls: Vec<EguiDrawCall> = Vec::new();
            let EguiSplitClippedMesh { clip_rect, meshes } = clipped_mesh;
            for mesh in mit: meshes
                invariant
                    group.1 == mit.seq().map_values(|m: EguiMesh16| mesh16_model(m)),
                    (vertices@, indices@, draw_calls_model(draw_calls@)) == append_meshes(
                        (start_vertices, start_indices, Seq::empty()),
                        group.1.take(mit.index() as int),
                    ),
            {
                let ghost before = (vertices@, indices@, draw_calls_model(draw_calls@));
                let ghost m = mesh16_model(mesh);
                let mut mesh = mesh;
                if mesh.indices.len() != 0 {
                    let vertex_offset = vertices.len();
                    let index_offset = indices.len();
                    let call = EguiDrawCall {
                        texture_id: mesh.texture_id,
                        vertex_offset,
                        index_offset,
                        index_count: mesh.indices.len(),
                    };
                    draw_calls.push(call);
                    vertices.append(&mut mesh.vertices);
                    indices.append(&mut mesh.indices);
                    assert(draw_calls_model(draw_calls@) =~= before.2.push(draw_call_model(call)));
                }
                proof {
                    assert(group.1.take(mit.index() + 1).drop_last() =~= group.1.take(mit.index() as int));
                    assert(group.1.take(mit.index() + 1).last() == m);
                }
            }
            proof {
                assert(group.1.take(group.1.len() as int) =~= group.1);
            }
            let clipped_draw_calls = EguiClippedDrawCalls { clip_rect, draw_calls };
            all_clipped_draw_calls.push(clipped_draw_calls);
            proof {
                assert(model.take(it.index() + 1).drop_last() =~= prefix);
                assert(model.take(it.index() + 1).last() == group);
                assert(all_clipped_draw_calls@.map_values(|c: EguiClippedDrawCalls| clipped_draw_calls_model(c))
                    =~= start_calls.push(clipped_draw_calls_model(clipped_draw_calls)));
            }
        }
        proof {
            assert(model.take(model.len() as int) =~= model);
        }
        if vertices.len() > 1 {
            Some(
                EguiDrawData {
                    vertices,
                    indices,
                    clipped_draw_calls: all_clipped_draw_calls,
                    font_atlas,
                    pixels_per_point,
                },
            )
        } else {
            None
        }
    }

    /// Builds the frame from egui's clipped meshes (clip rectangles already
    /// scaled to pixels): each mesh is split to 16-bit indices by egui, and
    /// the pieces are assembled as `from_split_meshes` does. No data is
    /// returned for a frame with fewer than two vertices.
    pub fn try_create_new(
        clipped_meshes: Vec<EguiClippedMesh>,
        font_atlas: Arc<Texture>,
        pixels_per_point: P,
    ) -> (r: Option<Self>)
        requires
            forall|i: int|
                0 <= i < clipped_meshes@.len() ==> split_to_u16_accepts(
                    (#[trigger] clipped_meshes@[i]).mesh.indices@,
                    clipped_meshes@[i].mesh.vertices@.len(),
                ),
        ensures
            frame_result(
                r,
                clipped_meshes@.map_values(|c: EguiClippedMesh| clipped_model(c)),
                font_atlas,
                pixels_per_point,
            ),
            clipped_input_in_bounds(clipped_meshes@) ==> draw_calls_in_bounds(
                assemble_frame(clipped_meshes@.map_values(|c: EguiClippedMesh| clipped_model(c))),
            ),
            clipped_input_small(clipped_meshes@) ==> frame_result(
                r,
                clipped_meshes@.map_values(|c: EguiClippedMesh| small_clipped_model(c)),
                font_atlas,
                pixels_per_point,
            ),
            r is Some <==> assemble_frame(clipped_meshes@.map_values(|c: EguiClippedMesh| clipped_model(c))).0.len()
                > 1,
    {
        let ghost model = clipped_meshes@.map_values(|c: EguiClippedMesh| clipped_model(c));
        let ghost input = clipped_meshes@;
        let mut split: Vec<EguiSplitClippedMesh> = Vec::new();
        for clipped_mesh in it: clipped_meshes
            invariant
                input == it.seq(),
                model == input.map_values(|c: EguiClippedMesh| clipped_model(c)),
                forall|i: int|
                    0 <= i < input.len() ==> split_to_u16_accepts(
                        (#[trigger] input[i]).mesh.indices@,
                        input[i].mesh.vertices@.len(),
                    ),
                split@.map_values(|c: EguiSplitClippedMesh| split_clipped_model(c)) == model.take(
                    it.index() as int,
                ),
                clipped_input_in_bounds(input) ==> forall|g: int, k: int|
                    0 <= g < it.index() && 0 <= k < model[g].1.len() ==> mesh16_valid(
                        #[trigger] model[g].1[k],
                    ),
                clipped_input_small(input) ==> forall|g: int|
                    0 <= g < it.index() ==> #[trigger] model[g] == small_clipped_model(input[g]),
        {
            let ghost before = split@.map_values(|c: EguiSplitClippedMesh| split_clipped_model(c));
            let ghost c = clipped_mesh;
            let EguiClippedMesh { clip_rect, mesh } = clipped_mesh;
            let meshes = split_to_u16(mesh);
            proof {
                if clipped_input_in_bounds(input) {
                    assert(indices_in_bounds(input[it.index() as int].mesh.indices@, input[it.index() as int].mesh.vertices@.len()));
                    assert(model[it.index() as int].1 == meshes16_model(meshes@));
                }
                if clipped_input_small(input) {
                    assert(input[it.index() as int].mesh.vertices@.len() < 65536);
                    assert(model[it.index() as int] == small_clipped_model(input[it.index() as int]));
                }
            }
            let piece = EguiSplitClippedMesh { clip_rect, meshes };
            split.push(piece);
            assert(split@.map_values(|c: EguiSplitClippedMesh| split_clipped_model(c)) =~= before.push(
                clipped_model(c),
            ));
            assert(model.take(it.index() + 1) =~= model.take(it.index() as int).push(model[it.index() as int]));
        }
        assert(model.take(model.len() as int) =~= model);
        proof {
            lemma_frame_draw_calls_tile_and_stay_in_bounds(model);
            if clipped_input_small(input) {
                assert(model =~= input.map_values(|c: EguiClippedMesh| small_clipped_model(c)));
            }
        }
        Self::from_split_meshes(split, font_atlas, pixels_per_point)
    }

    /// The draw calls, per clip rectangle.
    pub fn draw_lists(&self) -> (r: &[EguiClippedDrawCalls])
        ensures
            r@ == self.clipped_draw_calls@,
    {
        self.clipped_draw_calls.as_slice()
    }
}

} // verus!
