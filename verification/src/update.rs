//! Rebuilding the bush when its settings change.
//!
//! A change of settings asks for a new mesh and a new material. The two are
//! built whole and then put in place of what was published before; where the
//! build fails, what was published stays.

use crate::material::{BushMaterial, Palette, Settings};
use crate::mesh::{Mesh, MeshError, Vertex, ONE_BITS, ZERO_BITS};
use crate::quads::{
    lemma_quad_ids_in_blocks, places_of, quads_of, reindex, spec_reindex, spec_uv, tags_quads,
};
use crate::sphere::{generate, generate_accepts, quad_corners, spec_generate};
use vstd::prelude::*;

verus! {

/// The name under which the scene is published.
pub const SCENE_NAME: &'static str = "ripples";

/// A mesh with its quad ids and the material it is drawn with: what is
/// published for drawing, as one piece.
#[derive(Debug, PartialEq, Eq)]
pub struct Scene {
    pub mesh: Mesh,
    pub quad_ids: Vec<u32>,
    pub material: BushMaterial,
}

/// Whether `mesh` and `ids` are the re-indexed sphere of `u_steps` by
/// `v_steps` quads over the lattice points `samples`.
pub open spec fn is_tagged_sphere(
    mesh: Seq<Vertex>,
    ids: Seq<u32>,
    samples: Seq<Vertex>,
    u_steps: int,
    v_steps: int,
) -> bool {
    &&& mesh == spec_reindex(spec_generate(samples, u_steps, v_steps))
    &&& tags_quads(ids, mesh.len())
    &&& mesh.len() == 6 * (u_steps * v_steps)
}

/// Generates the sphere of `u_steps` by `v_steps` quads over the lattice
/// points `samples` and re-indexes it.
///
/// Fails exactly where the generator does, with
/// [`MeshError::InvalidParameter`]: what the generator builds is always made
/// of whole quads.
pub fn regenerate(samples: &Vec<Vertex>, u_steps: usize, v_steps: usize) -> (result: Result<
    (Mesh, Vec<u32>),
    MeshError,
>)
    ensures
        match result {
            Ok((mesh, ids)) => {
                &&& generate_accepts(samples@.len() as int, u_steps as int, v_steps as int)
                &&& is_tagged_sphere(mesh@, ids@, samples@, u_steps as int, v_steps as int)
            },
            Err(error) => {
                &&& !generate_accepts(samples@.len() as int, u_steps as int, v_steps as int)
                &&& error == MeshError::InvalidParameter
            },
        },
{
    match generate(samples, u_steps, v_steps) {
        Ok(sphere) => reindex(&sphere),
        Err(error) => Err(error),
    }
}

/// Answers a change of settings.
///
/// `samples` are the lattice points of the sphere that the settings describe
/// and `palette` their colours in linear space. Where the sphere can be
/// built, the scene made of the re-indexed sphere and of the material that
/// the settings ask for takes the place of what was published. Where it
/// cannot, what was published stays as it is and the failure is handed back.
pub fn on_changed(
    published: &mut Option<Scene>,
    settings: &Settings,
    samples: &Vec<Vertex>,
    palette: Palette,
) -> (result: Result<(), MeshError>)
    ensures
        match result {
            Ok(_) => {
                &&& generate_accepts(
                    samples@.len() as int,
                    settings.u_steps as int,
                    settings.v_steps as int,
                )
                &&& *final(published) matches Some(scene)
                &&& is_tagged_sphere(
                    scene.mesh@,
                    scene.quad_ids@,
                    samples@,
                    settings.u_steps as int,
                    settings.v_steps as int,
                )
                &&& scene.material.spec_from_settings(*settings, palette)
            },
            Err(error) => {
                &&& !generate_accepts(
                    samples@.len() as int,
                    settings.u_steps as int,
                    settings.v_steps as int,
                )
                &&& error == MeshError::InvalidParameter
                &&& *final(published) == *old(published)
            },
        },
{
    match regenerate(samples, settings.u_steps, settings.v_steps) {
        Ok((mesh, quad_ids)) => {
            let material = BushMaterial::from_settings(settings, palette);
            *published = Some(Scene { mesh, quad_ids, material });
            Ok(())
        },
        Err(error) => Err(error),
    }
}

/// The bit pattern of a step of nought or one along a quad's edge.
pub open spec fn spec_step_bits(step: int) -> u32 {
    if step == 0 {
        ZERO_BITS
    } else {
        ONE_BITS
    }
}

/// A re-indexed sphere has `u_steps * v_steps` quads, numbered from nought in
/// the order in which the generator laid them, and each quad id stands at
/// exactly six vertices.
pub proof fn lemma_sphere_quads(
    mesh: Seq<Vertex>,
    ids: Seq<u32>,
    samples: Seq<Vertex>,
    u_steps: int,
    v_steps: int,
)
    requires
        generate_accepts(samples.len() as int, u_steps, v_steps),
        is_tagged_sphere(mesh, ids, samples, u_steps, v_steps),
    ensures
        mesh.len() == 6 * (u_steps * v_steps),
        ids.len() == mesh.len(),
        quads_of(ids).finite(),
        quads_of(ids).len() == u_steps * v_steps,
        forall|quad: int|
            0 <= quad < u_steps * v_steps ==> (#[trigger] places_of(ids, quad)).finite()
                && places_of(ids, quad).len() == 6,
{
    assert(0 <= u_steps * v_steps) by (nonlinear_arith)
        requires
            u_steps >= 1,
            v_steps >= 1,
    ;
    lemma_quad_ids_in_blocks(ids, (u_steps * v_steps) as nat);
}

/// Re-indexing a generated sphere gives every vertex the texture coordinate
/// of the corner of the quad that the generator took it from: a step along
/// `u` is a step along the first coordinate, a step along `v` one along the
/// second.
pub proof fn lemma_uvs_follow_corners(
    mesh: Seq<Vertex>,
    ids: Seq<u32>,
    samples: Seq<Vertex>,
    u_steps: int,
    v_steps: int,
    n: int,
)
    requires
        is_tagged_sphere(mesh, ids, samples, u_steps, v_steps),
        0 <= n < mesh.len(),
    ensures
        mesh[n].uv == spec_uv(
            spec_step_bits(quad_corners()[n % 6].0),
            spec_step_bits(quad_corners()[n % 6].1),
        ),
{
}

} // verus!
