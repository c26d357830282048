//! Binding the vertex attributes of a mesh to the inputs of the shader.
//!
//! The shader reads four attributes per vertex: position, normal and texture
//! coordinate, which every mesh of the engine has, and the quad id, which is
//! this library's own. Each is bound to a fixed input slot.

use bevy::render::mesh::{
    MeshVertexAttribute, MeshVertexBufferLayoutRef, MissingVertexAttributeError,
    VertexAttributeDescriptor, VertexBufferLayout, VertexFormat,
};
use bevy::render::render_resource::{RenderPipelineDescriptor, SpecializedMeshPipelineError};
use vstd::prelude::*;

verus! {

/// How the values of one vertex attribute lie in the vertex buffer.
#[derive(Clone, Copy, Debug, PartialEq, Eq, Structural)]
pub enum AttributeFormat {
    /// Two binary32 values.
    Float32x2,
    /// Three binary32 values.
    Float32x3,
    /// One unsigned 32-bit integer.
    Uint32,
}

/// A vertex attribute: its name, the number by which the engine tells
/// attributes apart, and the layout of its values.
#[derive(Clone, Copy, Debug, PartialEq, Eq)]
pub struct VertexAttribute {
    pub name: &'static str,
    pub id: u64,
    pub format: AttributeFormat,
}

/// A vertex attribute bound to an input slot of the shader.
#[derive(Clone, Copy, Debug, PartialEq, Eq)]
pub struct VertexInput {
    pub attribute: VertexAttribute,
    pub shader_location: u32,
}

/// The name of the quad id attribute.
pub const QUAD_INDEX_NAME: &'static str = "QUAD_INDEX";

/// The number of the quad id attribute.
pub const QUAD_INDEX_ID: u64 = 9809767611;

/// The engine's position attribute.
pub open spec fn spec_position() -> VertexAttribute {
    VertexAttribute { name: "Vertex_Position", id: 0, format: AttributeFormat::Float32x3 }
}

/// The engine's normal attribute.
pub open spec fn spec_normal() -> VertexAttribute {
    VertexAttribute { name: "Vertex_Normal", id: 1, format: AttributeFormat::Float32x3 }
}

/// The engine's first texture coordinate attribute.
pub open spec fn spec_uv() -> VertexAttribute {
    VertexAttribute { name: "Vertex_Uv", id: 2, format: AttributeFormat::Float32x2 }
}

/// The quad id attribute: one unsigned integer per vertex, the number of the
/// quad that the vertex belongs to.
pub open spec fn spec_quad_index() -> VertexAttribute {
    VertexAttribute { name: QUAD_INDEX_NAME, id: QUAD_INDEX_ID, format: AttributeFormat::Uint32 }
}

/// The inputs of the shader: position in slot 0, normal in slot 1, texture
/// coordinate in slot 2, quad id in slot 3.
pub open spec fn spec_vertex_inputs() -> Seq<VertexInput> {
    seq![
        VertexInput { attribute: spec_position(), shader_location: 0 },
        VertexInput { attribute: spec_normal(), shader_location: 1 },
        VertexInput { attribute: spec_uv(), shader_location: 2 },
        VertexInput { attribute: spec_quad_index(), shader_location: 3 },
    ]
}

/// Whether a mesh whose attributes have the numbers `ids` has every attribute
/// that the shader reads.
pub open spec fn feeds_shader(ids: Seq<u64>) -> bool {
    &&& ids.contains(spec_position().id)
    &&& ids.contains(spec_normal().id)
    &&& ids.contains(spec_uv().id)
    &&& ids.contains(spec_quad_index().id)
}

/// The byte offset at which a mesh keeps the attribute numbered `id`: that of
/// the first entry with this number. The mesh holds the numbers `ids` of its
/// attributes and, entry for entry, their byte `offsets`.
pub open spec fn spec_offset_of(ids: Seq<u64>, offsets: Seq<u64>, id: u64) -> u64 {
    offsets[ids.index_of_first(id).unwrap()]
}

/// The vertex buffer that reads `inputs` out of such a mesh: one entry per
/// input, the slot that the input asks for paired with the byte offset at
/// which the mesh keeps the attribute.
pub open spec fn spec_select(ids: Seq<u64>, offsets: Seq<u64>, inputs: Seq<VertexInput>) -> Seq<
    (u32, u64),
> {
    inputs.map_values(
        |input: VertexInput| (input.shader_location, spec_offset_of(ids, offsets, input.attribute.id)),
    )
}

/// The quad id attribute.
pub fn quad_index() -> (attribute: VertexAttribute)
    ensures
        attribute == spec_quad_index(),
{
    VertexAttribute { name: QUAD_INDEX_NAME, id: QUAD_INDEX_ID, format: AttributeFormat::Uint32 }
}

/// The inputs of the shader, in the order of their slots.
pub fn vertex_inputs() -> (inputs: Vec<VertexInput>)
    ensures
        inputs@ == spec_vertex_inputs(),
{
    let position = VertexAttribute {
        name: "Vertex_Position",
        id: 0,
        format: AttributeFormat::Float32x3,
    };
    let normal = VertexAttribute {
        name: "Vertex_Normal",
        id: 1,
        format: AttributeFormat::Float32x3,
    };
    let uv = VertexAttribute { name: "Vertex_Uv", id: 2, format: AttributeFormat::Float32x2 };
    let mut inputs: Vec<VertexInput> = Vec::new();
    inputs.push(VertexInput { attribute: position, shader_location: 0 });
    inputs.push(VertexInput { attribute: normal, shader_location: 1 });
    inputs.push(VertexInput { attribute: uv, shader_location: 2 });
    inputs.push(VertexInput { attribute: quad_index(), shader_location: 3 });
    assert(inputs@ =~= spec_vertex_inputs());
    inputs
}

/// The engine's `MeshVertexBufferLayoutRef`: the shared layout of the vertex
/// buffer of a mesh, one entry per attribute that the mesh has.
#[verifier::external_type_specification]
#[verifier::external_body]
pub struct ExMeshVertexBufferLayoutRef(MeshVertexBufferLayoutRef);

/// The engine's `VertexBufferLayout`: how a pipeline reads a vertex buffer,
/// one entry per attribute that it reads.
#[verifier::external_type_specification]
#[verifier::external_body]
pub struct ExVertexBufferLayout(VertexBufferLayout);

/// The engine's `MissingVertexAttributeError`: a mesh lacks an attribute
/// that was asked for.
#[verifier::external_type_specification]
#[verifier::external_body]
pub struct ExMissingVertexAttributeError(MissingVertexAttributeError);

/// The engine's `SpecializedMeshPipelineError`: a pipeline could not be
/// fitted to a mesh.
#[verifier::external_type_specification]
#[verifier::external_body]
pub struct ExSpecializedMeshPipelineError(SpecializedMeshPipelineError);

/// The engine's `RenderPipelineDescriptor`: everything a render pipeline is
/// built from.
#[verifier::external_type_specification]
#[verifier::external_body]
pub struct ExRenderPipelineDescriptor(RenderPipelineDescriptor);

/// The numbers of the attributes that a mesh layout holds, in their order:
/// the `attribute_ids` of the engine's `MeshVertexBufferLayout`, each by the
/// number that its `MeshVertexAttributeId` was made from.
pub uninterp spec fn layout_ids(layout: MeshVertexBufferLayoutRef) -> Seq<u64>;

/// The byte offsets of the entries of the buffer layout that a mesh layout
/// holds, in their order: the `offset` of each of the `attributes` of its
/// `layout`. In a mesh layout that the engine made, entry `k` belongs to the
/// attribute with the `k`-th number.
pub uninterp spec fn layout_offsets(layout: MeshVertexBufferLayoutRef) -> Seq<u64>;

/// The entries of a vertex buffer layout, in their order, each as its input
/// slot and its byte offset: `shader_location` and `offset` of each of its
/// `attributes`.
pub uninterp spec fn buffer_entries(buffer: VertexBufferLayout) -> Seq<(u32, u64)>;

/// The vertex buffers that a pipeline descriptor holds, each given by its
/// entries: the `buffers` of its `vertex` state.
pub uninterp spec fn vertex_buffers(descriptor: RenderPipelineDescriptor) -> Seq<Seq<(u32, u64)>>;

/// Whether a mesh layout has an entry for each of its attribute numbers.
pub open spec fn layout_is_whole(layout: MeshVertexBufferLayoutRef) -> bool {
    layout_ids(layout).len() <= layout_offsets(layout).len()
}

/// Calls `MeshVertexBufferLayout::get_layout` of the engine on the mesh
/// layout behind `layout`, asking for `inputs`.
///
/// The engine looks every asked attribute up by its number and takes the
/// first entry that bears it. Where the mesh has them all, it answers with a
/// buffer layout of one entry per asked attribute, in the order asked, each
/// at the slot asked for and at the byte offset of the mesh's entry. Where
/// the mesh lacks one, it answers with an error. On a mesh layout with fewer
/// entries than attribute numbers the engine may run past the entries, so
/// such a layout is not admitted.
#[verifier::external_body]
fn get_layout(layout: &MeshVertexBufferLayoutRef, inputs: &Vec<VertexInput>) -> (result: Result<
    VertexBufferLayout,
    MissingVertexAttributeError,
>)
    requires
        layout_is_whole(*layout),
    ensures
        result is Ok <==> forall|k: int|
            0 <= k < inputs@.len() ==> layout_ids(*layout).contains(
                (#[trigger] inputs@[k]).attribute.id,
            ),
        match result {
            Ok(buffer) => buffer_entries(buffer) == spec_select(
                layout_ids(*layout),
                layout_offsets(*layout),
                inputs@,
            ),
            Err(_) => true,
        },
{
    let descriptors: Vec<VertexAttributeDescriptor> = inputs.iter().map(
        |input|
            MeshVertexAttribute::new(
                input.attribute.name,
                input.attribute.id,
                match input.attribute.format {
                    AttributeFormat::Float32x2 => VertexFormat::Float32x2,
                    AttributeFormat::Float32x3 => VertexFormat::Float32x3,
                    AttributeFormat::Uint32 => VertexFormat::Uint32,
                },
            ).at_shader_location(input.shader_location),
    ).collect();
    layout.0.get_layout(&descriptors)
}

/// Makes `buffer` the one vertex buffer of the pipeline: stores it in the
/// field `vertex.buffers` of the engine's descriptor.
#[verifier::external_body]
fn set_vertex_buffer(descriptor: &mut RenderPipelineDescriptor, buffer: VertexBufferLayout)
    ensures
        vertex_buffers(*final(descriptor)) == seq![buffer_entries(buffer)],
{
    descriptor.vertex.buffers = vec![buffer];
}

/// Wraps the error in the engine's `SpecializedMeshPipelineError`, by its
/// `From`.
#[verifier::external_body]
fn pipeline_error(missing: MissingVertexAttributeError) -> SpecializedMeshPipelineError {
    SpecializedMeshPipelineError::from(missing)
}

/// Counts the attribute numbers of the mesh layout behind `layout`, as
/// `MeshVertexBufferLayout::attribute_ids` of the engine hands them out.
#[verifier::external_body]
fn count_ids(layout: &MeshVertexBufferLayoutRef) -> (count: usize)
    ensures
        count == layout_ids(*layout).len(),
{
    layout.0.attribute_ids().len()
}

/// Counts the entries of the buffer layout that the mesh layout behind
/// `layout` holds, as `MeshVertexBufferLayout::layout` of the engine hands it
/// out.
#[verifier::external_body]
fn count_entries(layout: &MeshVertexBufferLayoutRef) -> (count: usize)
    ensures
        count == layout_offsets(*layout).len(),
{
    layout.0.layout().attributes.len()
}

/// What fitting a pipeline to the mesh layout `layout` makes of the
/// descriptor `before`. Where the mesh has all four attributes that the
/// shader reads, the pipeline is `fitted`: it has one vertex buffer, which
/// reads the attributes in the order of [`spec_vertex_inputs`], each into its
/// slot and from the byte offset at which the mesh keeps it. Where the mesh
/// lacks one, the pipeline is not fitted and the descriptor is as before.
pub open spec fn spec_specialize(
    before: RenderPipelineDescriptor,
    after: RenderPipelineDescriptor,
    layout: MeshVertexBufferLayoutRef,
    fitted: bool,
) -> bool {
    if fitted {
        &&& feeds_shader(layout_ids(layout))
        &&& vertex_buffers(after) == seq![
            spec_select(layout_ids(layout), layout_offsets(layout), spec_vertex_inputs()),
        ]
    } else {
        &&& !feeds_shader(layout_ids(layout))
        &&& after == before
    }
}

/// Fits a render pipeline to the vertex buffer of a mesh.
///
/// Where the mesh has all four attributes that the shader reads, the
/// pipeline gets one vertex buffer that reads them into the slots 0 to 3.
/// Where the mesh lacks one of them the pipeline is left as it was and the
/// engine's error is handed on. The mesh layout must be whole; for one that
/// may not be, there is [`specialize_checked`].
pub fn specialize(
    descriptor: &mut RenderPipelineDescriptor,
    layout: &MeshVertexBufferLayoutRef,
) -> (result: Result<(), SpecializedMeshPipelineError>)
    requires
        layout_is_whole(*layout),
    ensures
        spec_specialize(*old(descriptor), *final(descriptor), *layout, result is Ok),
{
    let inputs = vertex_inputs();
    assert(inputs@[0].attribute.id == 0 && inputs@[1].attribute.id == 1 && inputs@[2].attribute.id
        == 2 && inputs@[3].attribute.id == QUAD_INDEX_ID);
    match get_layout(layout, &inputs) {
        Ok(buffer) => {
            set_vertex_buffer(descriptor, buffer);
            Ok(())
        },
        Err(missing) => Err(pipeline_error(missing)),
    }
}

/// Fits a render pipeline to the vertex buffer of a mesh, whatever the mesh
/// layout.
///
/// On a mesh layout that is whole this is [`specialize`]. On one with fewer
/// entries than attribute numbers nothing is done and `None` comes back.
pub fn specialize_checked(
    descriptor: &mut RenderPipelineDescriptor,
    layout: &MeshVertexBufferLayoutRef,
) -> (result: Option<Result<(), SpecializedMeshPipelineError>>)
    ensures
        match result {
            Some(outcome) => {
                &&& layout_is_whole(*layout)
                &&& spec_specialize(*old(descriptor), *final(descriptor), *layout, outcome is Ok)
            },
            None => !layout_is_whole(*layout) && *final(descriptor) == *old(descriptor),
        },
{
    if count_ids(layout) <= count_entries(layout) {
        Some(specialize(descriptor, layout))
    } else {
        None
    }
}

/// The vertex buffer that [`specialize`] makes reads position, normal,
/// texture coordinate and quad id into the slots 0, 1, 2 and 3, whatever the
/// mesh.
pub proof fn lemma_slots_are_fixed(ids: Seq<u64>, offsets: Seq<u64>)
    ensures
        spec_select(ids, offsets, spec_vertex_inputs()).map_values(|entry: (u32, u64)| entry.0)
            == seq![0u32, 1u32, 2u32, 3u32],
{
    assert(spec_select(ids, offsets, spec_vertex_inputs()).map_values(|entry: (u32, u64)| entry.0)
        =~= seq![0u32, 1u32, 2u32, 3u32]);
}

} // verus!
