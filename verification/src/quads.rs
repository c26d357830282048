//! Tagging the quads of a triangle list.
//!
//! A quad-triangulated mesh lists its quads one after another, six vertices
//! each: the first three are one triangle, the last three the other, and the
//! two share the quad's diagonal. Re-indexing such a mesh gives every quad a
//! texture space of its own and numbers the quads in the order they come.

use crate::mesh::{Mesh, MeshError, Scalar, Vector2, Vertex, MAX_VERTICES, ONE_BITS, ZERO_BITS};
use vstd::prelude::*;
use vstd::set_lib::{lemma_int_range, set_int_range};

verus! {

/// Number of vertices that encode one quad.
pub const VERTICES_PER_QUAD: usize = 6;

/// The texture coordinate with the given bit patterns.
pub open spec fn spec_uv(x: u32, y: u32) -> Vector2 {
    Vector2 { x: Scalar { bits: x }, y: Scalar { bits: y } }
}

/// The texture coordinates of the six vertices of a quad: the unit square cut
/// along the diagonal from (0, 1) to (1, 0).
pub open spec fn quad_uvs() -> Seq<Vector2> {
    seq![
        spec_uv(ZERO_BITS, ZERO_BITS),
        spec_uv(ZERO_BITS, ONE_BITS),
        spec_uv(ONE_BITS, ZERO_BITS),
        spec_uv(ONE_BITS, ZERO_BITS),
        spec_uv(ZERO_BITS, ONE_BITS),
        spec_uv(ONE_BITS, ONE_BITS),
    ]
}

/// The vertex `vertex` as the `corner`-th vertex of a quad: position and
/// normal as they are, the texture coordinate replaced by that of the corner.
pub open spec fn spec_retag(vertex: Vertex, corner: int) -> Vertex {
    Vertex { position: vertex.position, normal: vertex.normal, uv: quad_uvs()[corner] }
}

/// What re-indexing makes of the vertices `mesh`.
pub open spec fn spec_reindex(mesh: Seq<Vertex>) -> Seq<Vertex> {
    Seq::new(mesh.len(), |n: int| spec_retag(mesh[n], n % 6))
}

/// `ids` numbers the quads of `count` vertices: one id per vertex, and the id
/// of a vertex is its place in the list divided by six.
pub open spec fn tags_quads(ids: Seq<u32>, count: nat) -> bool {
    &&& ids.len() == count
    &&& forall|n: int| 0 <= n < count ==> ids[n] == n / 6
}

/// The texture coordinate of the `corner`-th vertex of a quad.
fn quad_uv(corner: usize) -> (uv: Vector2)
    requires
        corner < 6,
    ensures
        uv == quad_uvs()[corner as int],
{
    let zero = Scalar::zero();
    let one = Scalar::one();
    if corner == 0 {
        Vector2 { x: zero, y: zero }
    } else if corner == 1 || corner == 4 {
        Vector2 { x: zero, y: one }
    } else if corner == 2 || corner == 3 {
        Vector2 { x: one, y: zero }
    } else {
        Vector2 { x: one, y: one }
    }
}

/// Re-indexes a quad-triangulated mesh.
///
/// Succeeds exactly when the number of vertices is a multiple of six. The
/// result is the mesh with the texture coordinates of every quad overwritten
/// by [`quad_uvs`], positions and normals untouched, together with one quad id
/// per vertex. Any other mesh is rejected whole as
/// [`MeshError::MalformedMesh`]. The mesh handed in is never changed.
pub fn reindex(mesh: &Mesh) -> (result: Result<(Mesh, Vec<u32>), MeshError>)
    ensures
        match result {
            Ok((tagged, ids)) => {
                &&& mesh@.len() % 6 == 0
                &&& tagged@ == spec_reindex(mesh@)
                &&& tags_quads(ids@, mesh@.len())
            },
            Err(error) => mesh@.len() % 6 != 0 && error == MeshError::MalformedMesh,
        },
{
    let count: usize = mesh.len();
    if count % VERTICES_PER_QUAD != 0 {
        return Err(MeshError::MalformedMesh);
    }
    let source = mesh.vertices();
    let mut vertices: Vec<Vertex> = Vec::new();
    let mut ids: Vec<u32> = Vec::new();
    let mut n: usize = 0;
    while n < count
        invariant
            n <= count,
            count == source@.len(),
            count <= MAX_VERTICES,
            vertices@.len() == n,
            ids@.len() == n,
            forall|k: int| 0 <= k < n ==> vertices@[k] == spec_retag(source@[k], k % 6),
            forall|k: int| 0 <= k < n ==> ids@[k] == k / 6,
        decreases count - n,
    {
        let vertex = source[n];
        vertices.push(
            Vertex {
                position: vertex.position,
                normal: vertex.normal,
                uv: quad_uv(n % VERTICES_PER_QUAD),
            },
        );
        ids.push((n / VERTICES_PER_QUAD) as u32);
        n += 1;
    }
    assert(vertices@ =~= spec_reindex(mesh@));
    match Mesh::from_vertices(vertices) {
        Some(tagged) => Ok((tagged, ids)),
        None => Err(MeshError::MalformedMesh),
    }
}

/// The places in `ids` that hold the quad id `quad`.
pub open spec fn places_of(ids: Seq<u32>, quad: int) -> Set<int> {
    Set::new(|n: int| 0 <= n < ids.len() && ids[n] == quad)
}

/// The quad ids that occur in `ids`.
pub open spec fn quads_of(ids: Seq<u32>) -> Set<int> {
    Set::new(|quad: int| exists|n: int| 0 <= n < ids.len() && #[trigger] ids[n] == quad)
}

/// The quad ids of `6 * quads` vertices name exactly the quads `0` to
/// `quads - 1`, so `quads` distinct ones; each of them stands at exactly the
/// six places of its own block, and the ids never fall from one place to the
/// next.
pub proof fn lemma_quad_ids_in_blocks(ids: Seq<u32>, quads: nat)
    requires
        tags_quads(ids, 6 * quads),
    ensures
        quads_of(ids) == set_int_range(0, quads as int),
        quads_of(ids).finite(),
        quads_of(ids).len() == quads,
        forall|quad: int|
            0 <= quad < quads ==> #[trigger] places_of(ids, quad) == set_int_range(
                6 * quad,
                6 * quad + 6,
            ),
        forall|quad: int|
            0 <= quad < quads ==> (#[trigger] places_of(ids, quad)).finite() && places_of(
                ids,
                quad,
            ).len() == 6,
        forall|a: int, b: int| 0 <= a <= b < ids.len() ==> ids[a] <= ids[b],
{
    assert forall|quad: int| set_int_range(0, quads as int).contains(quad) implies quads_of(
        ids,
    ).contains(quad) by {
        assert(ids[6 * quad] == quad);
    }
    assert(quads_of(ids) =~= set_int_range(0, quads as int));
    lemma_int_range(0, quads as int);
    assert forall|quad: int| 0 <= quad < quads implies #[trigger] places_of(ids, quad)
        == set_int_range(6 * quad, 6 * quad + 6) && places_of(ids, quad).finite() && places_of(
        ids,
        quad,
    ).len() == 6 by {
        assert(places_of(ids, quad) =~= set_int_range(6 * quad, 6 * quad + 6));
        lemma_int_range(6 * quad, 6 * quad + 6);
    }
}

/// Whatever texture coordinates a mesh of whole quads came with, re-indexing
/// leaves every quad with exactly the six coordinates of [`quad_uvs`], in
/// that order.
pub proof fn lemma_quad_uvs_per_block(mesh: Seq<Vertex>, quad: int)
    requires
        mesh.len() % 6 == 0,
        0 <= quad < mesh.len() / 6,
    ensures
        spec_reindex(mesh).subrange(6 * quad, 6 * quad + 6).map_values(|v: Vertex| v.uv)
            == quad_uvs(),
{
    let block = spec_reindex(mesh).subrange(6 * quad, 6 * quad + 6).map_values(|v: Vertex| v.uv);
    assert forall|k: int| 0 <= k < 6 implies block[k] == quad_uvs()[k] by {
        assert((6 * quad + k) % 6 == k);
    }
    assert(block =~= quad_uvs());
}

/// Re-indexing a mesh that has been re-indexed changes nothing.
pub proof fn lemma_reindex_idempotent(mesh: Seq<Vertex>)
    ensures
        spec_reindex(spec_reindex(mesh)) == spec_reindex(mesh),
{
    assert(spec_reindex(spec_reindex(mesh)) =~= spec_reindex(mesh));
}

/// The quad ids depend on the number of vertices alone: two runs over meshes
/// of one length, whatever their texture coordinates, tag the vertices alike.
pub proof fn lemma_quad_ids_by_count(first: Seq<u32>, second: Seq<u32>, count: nat)
    requires
        tags_quads(first, count),
        tags_quads(second, count),
    ensures
        first == second,
{
    assert(first =~= second);
}

} // verus!
