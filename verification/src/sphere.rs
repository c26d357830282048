//! Stitching a sphere out of quads.
//!
//! A UV-sphere is a lattice: `u_steps` divisions run around it, `v_steps` from
//! pole to pole, and a surface point sits at each of the
//! `(u_steps + 1) * (v_steps + 1)` crossings. The caller evaluates the surface
//! at the crossings, row by row; the generator lays a quad between every four
//! neighbouring points and emits it as two independent triangles.

use crate::mesh::{Mesh, MeshError, Vertex, MAX_VERTICES};
use vstd::arithmetic::div_mod::{lemma_fundamental_div_mod, lemma_fundamental_div_mod_converse};
use vstd::prelude::*;

verus! {

/// The number of lattice points of a sphere of `u_steps` by `v_steps` quads.
pub open spec fn spec_sample_count(u_steps: int, v_steps: int) -> int {
    (u_steps + 1) * (v_steps + 1)
}

/// The place of the lattice point `(i, j)` in the table of samples: the
/// table lists the points of row `i = 0` first, `j` rising, then row 1, and
/// so on.
pub open spec fn spec_sample_index(i: int, j: int, v_steps: int) -> int {
    i * (v_steps + 1) + j
}

/// How far the six vertices of a quad lie from the quad's first lattice
/// point, as steps in `u` and in `v`: the unit square cut along the diagonal
/// from (0, 1) to (1, 0).
pub open spec fn quad_corners() -> Seq<(int, int)> {
    seq![(0, 0), (0, 1), (1, 0), (1, 0), (0, 1), (1, 1)]
}

/// The place in the table of samples that the `n`-th vertex of the generated
/// mesh is taken from. Quad `q` lies at the lattice point
/// `(q / v_steps, q % v_steps)`, and vertex `n` is corner `n % 6` of quad
/// `n / 6`.
pub open spec fn spec_source(n: int, v_steps: int) -> int {
    let quad: int = n / 6;
    let corner: (int, int) = quad_corners()[n % 6];
    spec_sample_index(quad / v_steps + corner.0, quad % v_steps + corner.1, v_steps)
}

/// The vertices of the sphere of `u_steps` by `v_steps` quads over the
/// lattice points `samples`.
pub open spec fn spec_generate(samples: Seq<Vertex>, u_steps: int, v_steps: int) -> Seq<Vertex> {
    Seq::new((6 * (u_steps * v_steps)) as nat, |n: int| samples[spec_source(n, v_steps)])
}

/// The lattice points of a sphere of `u_steps` by `v_steps` quads, in the
/// order of the table of samples.
pub open spec fn spec_lattice(u_steps: int, v_steps: int) -> Seq<(usize, usize)> {
    Seq::new(
        spec_sample_count(u_steps, v_steps) as nat,
        |k: int| ((k / (v_steps + 1)) as usize, (k % (v_steps + 1)) as usize),
    )
}

/// Whether a sphere can have `u_steps` by `v_steps` quads: there is at least
/// one step each way, and the mesh stays within [`MAX_VERTICES`].
pub open spec fn lattice_fits(u_steps: int, v_steps: int) -> bool {
    &&& u_steps >= 1
    &&& v_steps >= 1
    &&& 6 * (u_steps * v_steps) <= MAX_VERTICES
}

/// Whether a sphere of `u_steps` by `v_steps` quads can be built over a table
/// of `samples` lattice points: the step counts fit, and there is one sample
/// for every lattice point.
pub open spec fn generate_accepts(samples: int, u_steps: int, v_steps: int) -> bool {
    &&& lattice_fits(u_steps, v_steps)
    &&& samples == spec_sample_count(u_steps, v_steps)
}

/// Whether a sphere can have `u_steps` by `v_steps` quads.
fn fits(u_steps: usize, v_steps: usize) -> (yes: bool)
    ensures
        yes == lattice_fits(u_steps as int, v_steps as int),
{
    if u_steps < 1 || v_steps < 1 {
        return false;
    }
    match u_steps.checked_mul(v_steps) {
        Some(quads) => quads <= MAX_VERTICES / 6,
        None => false,
    }
}

/// Lists the lattice points of a sphere of `u_steps` by `v_steps` quads, in
/// the order in which [`generate`] wants their samples: `(0, 0)`, `(0, 1)`
/// up to `(0, v_steps)`, then `(1, 0)` and so on up to `(u_steps, v_steps)`.
/// Fails with [`MeshError::InvalidParameter`] exactly where [`lattice_fits`]
/// does not hold.
pub fn lattice(u_steps: usize, v_steps: usize) -> (result: Result<Vec<(usize, usize)>, MeshError>)
    ensures
        match result {
            Ok(points) => {
                &&& lattice_fits(u_steps as int, v_steps as int)
                &&& points@ == spec_lattice(u_steps as int, v_steps as int)
            },
            Err(error) => {
                &&& !lattice_fits(u_steps as int, v_steps as int)
                &&& error == MeshError::InvalidParameter
            },
        },
{
    if !fits(u_steps, v_steps) {
        return Err(MeshError::InvalidParameter);
    }
    proof {
        lemma_lattice_bounds(u_steps as int, v_steps as int);
    }
    let mut points: Vec<(usize, usize)> = Vec::new();
    let mut i: usize = 0;
    while i <= u_steps
        invariant
            i <= u_steps + 1,
            u_steps + 1 <= MAX_VERTICES,
            v_steps + 1 <= MAX_VERTICES,
            points@.len() == i * (v_steps + 1),
            forall|k: int|
                0 <= k < points@.len() ==> points@[k] == (
                    (k / (v_steps + 1)) as usize,
                    (k % (v_steps + 1)) as usize,
                ),
        decreases u_steps + 1 - i,
    {
        let mut j: usize = 0;
        while j <= v_steps
            invariant
                i <= u_steps,
                j <= v_steps + 1,
                u_steps + 1 <= MAX_VERTICES,
                v_steps + 1 <= MAX_VERTICES,
                points@.len() == i * (v_steps + 1) + j,
                forall|k: int|
                    0 <= k < points@.len() ==> points@[k] == (
                        (k / (v_steps + 1)) as usize,
                        (k % (v_steps + 1)) as usize,
                    ),
            decreases v_steps + 1 - j,
        {
            proof {
                lemma_fundamental_div_mod_converse(
                    i * (v_steps + 1) + j,
                    v_steps + 1,
                    i as int,
                    j as int,
                );
            }
            points.push((i, j));
            j += 1;
        }
        assert((i + 1) * (v_steps + 1) == i * (v_steps + 1) + (v_steps + 1)) by (nonlinear_arith);
        i += 1;
    }
    assert(points@ =~= spec_lattice(u_steps as int, v_steps as int));
    Ok(points)
}

/// Builds the sphere of `u_steps` by `v_steps` quads over the lattice points
/// `samples`.
///
/// The quads come row by row, quad `(i, j)` before quad `(i, j + 1)`, each as
/// six vertices: the lattice points `(i, j)`, `(i, j + 1)`, `(i + 1, j)` for
/// the first triangle and `(i + 1, j)`, `(i, j + 1)`, `(i + 1, j + 1)` for
/// the second. Fails with [`MeshError::InvalidParameter`] exactly where
/// [`generate_accepts`] does not hold: a step count below one, more quads
/// than a mesh can take, or a table that does not hold one sample per lattice
/// point.
pub fn generate(samples: &Vec<Vertex>, u_steps: usize, v_steps: usize) -> (result: Result<
    Mesh,
    MeshError,
>)
    ensures
        match result {
            Ok(mesh) => {
                &&& generate_accepts(samples@.len() as int, u_steps as int, v_steps as int)
                &&& mesh@ == spec_generate(samples@, u_steps as int, v_steps as int)
                &&& mesh@.len() == 6 * (u_steps * v_steps)
                &&& mesh@.len() % 6 == 0
            },
            Err(error) => {
                &&& !generate_accepts(samples@.len() as int, u_steps as int, v_steps as int)
                &&& error == MeshError::InvalidParameter
            },
        },
{
    if !fits(u_steps, v_steps) {
        return Err(MeshError::InvalidParameter);
    }
    proof {
        lemma_lattice_bounds(u_steps as int, v_steps as int);
    }
    let row: usize = v_steps + 1;
    if samples.len() != (u_steps + 1) * row {
        return Err(MeshError::InvalidParameter);
    }
    let mut vertices: Vec<Vertex> = Vec::new();
    let mut i: usize = 0;
    let mut first: usize = 0;
    while i < u_steps
        invariant
            i <= u_steps,
            v_steps >= 1,
            row == v_steps + 1,
            first == i * (v_steps + 1),
            samples@.len() == (u_steps + 1) * (v_steps + 1),
            samples@.len() <= MAX_VERTICES,
            6 * (u_steps * v_steps) <= MAX_VERTICES,
            vertices@.len() == 6 * (i * v_steps),
            forall|n: int|
                0 <= n < vertices@.len() ==> vertices@[n] == samples@[spec_source(
                    n,
                    v_steps as int,
                )],
        decreases u_steps - i,
    {
        let mut j: usize = 0;
        while j < v_steps
            invariant
                i < u_steps,
                j <= v_steps,
                v_steps >= 1,
                row == v_steps + 1,
                first == i * (v_steps + 1),
                samples@.len() == (u_steps + 1) * (v_steps + 1),
                samples@.len() <= MAX_VERTICES,
                6 * (u_steps * v_steps) <= MAX_VERTICES,
                vertices@.len() == 6 * (i * v_steps + j),
                forall|n: int|
                    0 <= n < vertices@.len() ==> vertices@[n] == samples@[spec_source(
                        n,
                        v_steps as int,
                    )],
            decreases v_steps - j,
        {
            proof {
                lemma_quad_in_lattice(i as int, j as int, u_steps as int, v_steps as int);
            }
            let ghost before = vertices@;
            let near: usize = first + j;
            let far: usize = near + row;
            let a = samples[near];
            let b = samples[near + 1];
            let c = samples[far];
            let d = samples[far + 1];
            vertices.push(a);
            vertices.push(b);
            vertices.push(c);
            vertices.push(c);
            vertices.push(b);
            vertices.push(d);
            proof {
                let quad: int = i * v_steps + j;
                assert forall|n: int| 0 <= n < vertices@.len() implies vertices@[n]
                    == samples@[spec_source(n, v_steps as int)] by {
                    if n < before.len() {
                        assert(vertices@[n] == before[n]);
                    } else {
                        assert(n / 6 == quad);
                        assert(quad / (v_steps as int) == i && quad % (v_steps as int) == j);
                    }
                }
            }
            j += 1;
        }
        assert(6 * (i * v_steps + v_steps) == 6 * ((i + 1) * v_steps)) by (nonlinear_arith);
        assert((i + 1) * (v_steps + 1) == i * (v_steps + 1) + (v_steps + 1)) by (nonlinear_arith);
        assert((i + 1) * (v_steps + 1) <= (u_steps + 1) * (v_steps + 1)) by (nonlinear_arith)
            requires
                i + 1 <= u_steps + 1,
                0 <= v_steps + 1,
        ;
        i += 1;
        first += row;
    }
    assert(vertices@ =~= spec_generate(samples@, u_steps as int, v_steps as int));
    match Mesh::from_vertices(vertices) {
        Some(mesh) => Ok(mesh),
        None => Err(MeshError::InvalidParameter),
    }
}

/// A generated sphere is made of whole quads, `u_steps * v_steps` of them.
/// Every vertex of a quad is one of the lattice points, and the two triangles
/// of a quad share its diagonal: the second and third vertex of the first
/// triangle are the second and first of the other.
pub proof fn lemma_generated_quads(samples: Seq<Vertex>, u_steps: int, v_steps: int, quad: int)
    requires
        generate_accepts(samples.len() as int, u_steps, v_steps),
        0 <= quad < u_steps * v_steps,
    ensures
        spec_generate(samples, u_steps, v_steps).len() == 6 * (u_steps * v_steps),
        spec_generate(samples, u_steps, v_steps).len() % 6 == 0,
        forall|corner: int|
            0 <= corner < 6 ==> 0 <= #[trigger] spec_source(6 * quad + corner, v_steps)
                < samples.len(),
        spec_generate(samples, u_steps, v_steps)[6 * quad + 1] == spec_generate(
            samples,
            u_steps,
            v_steps,
        )[6 * quad + 4],
        spec_generate(samples, u_steps, v_steps)[6 * quad + 2] == spec_generate(
            samples,
            u_steps,
            v_steps,
        )[6 * quad + 3],
{
    let i: int = quad / v_steps;
    let j: int = quad % v_steps;
    lemma_fundamental_div_mod(quad, v_steps);
    assert(0 <= i < u_steps) by (nonlinear_arith)
        requires
            quad == v_steps * i + j,
            0 <= j < v_steps,
            0 <= quad < u_steps * v_steps,
            v_steps >= 1,
    ;
    lemma_quad_in_lattice(i, j, u_steps, v_steps);
    assert forall|corner: int| 0 <= corner < 6 implies 0 <= #[trigger] spec_source(
        6 * quad + corner,
        v_steps,
    ) < samples.len() by {
        assert((6 * quad + corner) / 6 == quad);
        assert((6 * quad + corner) % 6 == corner);
    }
    assert((6 * quad + 1) / 6 == quad && (6 * quad + 4) / 6 == quad);
    assert((6 * quad + 2) / 6 == quad && (6 * quad + 3) / 6 == quad);
}

/// The table of samples lists every lattice point once: the point `(i, j)`
/// stands at the place [`spec_sample_index`] gives for it.
pub proof fn lemma_lattice_places(u_steps: int, v_steps: int, i: int, j: int)
    requires
        lattice_fits(u_steps, v_steps),
        0 <= i <= u_steps,
        0 <= j <= v_steps,
    ensures
        0 <= spec_sample_index(i, j, v_steps) < spec_lattice(u_steps, v_steps).len(),
        spec_lattice(u_steps, v_steps)[spec_sample_index(i, j, v_steps)] == (i as usize, j as usize),
{
    lemma_lattice_bounds(u_steps, v_steps);
    lemma_fundamental_div_mod_converse(i * (v_steps + 1) + j, v_steps + 1, i, j);
    assert(0 <= i * (v_steps + 1) && (i + 1) * (v_steps + 1) <= (u_steps + 1) * (v_steps + 1)
        && (i + 1) * (v_steps + 1) == i * (v_steps + 1) + (v_steps + 1)) by (nonlinear_arith)
        requires
            0 <= i <= u_steps,
            0 <= v_steps,
    ;
}

/// A sphere within the vertex limit has a table of samples that can be
/// counted.
proof fn lemma_lattice_bounds(u_steps: int, v_steps: int)
    requires
        lattice_fits(u_steps, v_steps),
    ensures
        0 <= (u_steps + 1) * (v_steps + 1),
        u_steps + 1 <= MAX_VERTICES,
        v_steps + 1 <= MAX_VERTICES,
        (u_steps + 1) * (v_steps + 1) <= MAX_VERTICES,
{
    assert(u_steps <= u_steps * v_steps && v_steps <= u_steps * v_steps) by (nonlinear_arith)
        requires
            u_steps >= 1,
            v_steps >= 1,
    ;
    assert((u_steps + 1) * (v_steps + 1) == u_steps * v_steps + u_steps + v_steps + 1)
        by (nonlinear_arith);
}

/// Quad `(i, j)` of the lattice: its number, its four lattice points in the
/// table of samples, and the room its six vertices take.
proof fn lemma_quad_in_lattice(i: int, j: int, u_steps: int, v_steps: int)
    requires
        0 <= i < u_steps,
        0 <= j < v_steps,
    ensures
        (i * v_steps + j) / v_steps == i,
        (i * v_steps + j) % v_steps == j,
        0 <= i * v_steps + j < u_steps * v_steps,
        0 <= i * (v_steps + 1) + j,
        i * (v_steps + 1) + j + (v_steps + 1) + 1 < (u_steps + 1) * (v_steps + 1),
        (i + 1) * (v_steps + 1) == i * (v_steps + 1) + (v_steps + 1),
{
    lemma_fundamental_div_mod_converse(i * v_steps + j, v_steps, i, j);
    assert(0 <= i * v_steps && 0 <= i * (v_steps + 1)) by (nonlinear_arith)
        requires
            0 <= i,
            0 <= v_steps,
    ;
    assert((i + 1) * v_steps <= u_steps * v_steps) by (nonlinear_arith)
        requires
            i + 1 <= u_steps,
            0 <= v_steps,
    ;
    assert((i + 1) * v_steps == i * v_steps + v_steps) by (nonlinear_arith);
    assert((i + 1) * (v_steps + 1) == i * (v_steps + 1) + (v_steps + 1)) by (nonlinear_arith);
    assert((i + 2) * (v_steps + 1) <= (u_steps + 1) * (v_steps + 1)) by (nonlinear_arith)
        requires
            i + 2 <= u_steps + 1,
            0 <= v_steps + 1,
    ;
    assert((i + 2) * (v_steps + 1) == i * (v_steps + 1) + 2 * (v_steps + 1)) by (nonlinear_arith);
}

} // verus!
