use bevy::asset::Handle;
use bevy::render::mesh::{
    Mesh, MeshVertexAttribute, MeshVertexBufferLayout, MeshVertexBufferLayoutRef,
    VertexBufferLayout, VertexFormat,
};
use bevy::render::render_resource::{
    MultisampleState, PrimitiveState, RenderPipelineDescriptor, SpecializedMeshPipelineError,
    VertexAttribute, VertexState, VertexStepMode,
};
use shaders::pipeline::{
    quad_index, specialize, specialize_checked, vertex_inputs, AttributeFormat, VertexInput,
    QUAD_INDEX_ID,
};
use std::sync::Arc;

fn engine_format(format: AttributeFormat) -> VertexFormat {
    match format {
        AttributeFormat::Float32x2 => VertexFormat::Float32x2,
        AttributeFormat::Float32x3 => VertexFormat::Float32x3,
        AttributeFormat::Uint32 => VertexFormat::Uint32,
    }
}

fn engine_attribute(input: &VertexInput) -> MeshVertexAttribute {
    MeshVertexAttribute::new(
        input.attribute.name,
        input.attribute.id,
        engine_format(input.attribute.format),
    )
}

fn engine_quad_index() -> MeshVertexAttribute {
    MeshVertexAttribute::new("QUAD_INDEX", 9809767611, VertexFormat::Uint32)
}

/// The layout of a mesh that keeps `attributes` densely packed, in this
/// order.
fn layout_of(attributes: &[MeshVertexAttribute]) -> MeshVertexBufferLayoutRef {
    let ids = attributes.iter().map(|attribute| attribute.id).collect();
    let buffer = VertexBufferLayout::from_vertex_formats(
        VertexStepMode::Vertex,
        attributes.iter().map(|attribute| attribute.format),
    );
    MeshVertexBufferLayoutRef(Arc::new(MeshVertexBufferLayout::new(ids, buffer)))
}

fn descriptor(buffers: Vec<VertexBufferLayout>) -> RenderPipelineDescriptor {
    RenderPipelineDescriptor {
        label: Some("bush".into()),
        layout: Vec::new(),
        push_constant_ranges: Vec::new(),
        vertex: VertexState {
            shader: Handle::default(),
            shader_defs: Vec::new(),
            entry_point: "vertex".into(),
            buffers,
        },
        primitive: PrimitiveState::default(),
        depth_stencil: None,
        multisample: MultisampleState::default(),
        fragment: None,
        zero_initialize_workgroup_memory: false,
    }
}

#[test]
fn quad_index_attribute() {
    let attribute = quad_index();
    assert_eq!(attribute.name, "QUAD_INDEX");
    assert_eq!(attribute.id, 9809767611);
    assert_eq!(attribute.id, QUAD_INDEX_ID);
    assert_eq!(attribute.format, AttributeFormat::Uint32);
}

#[test]
fn vertex_inputs_fill_the_slots_in_order() {
    let inputs = vertex_inputs();
    let slots: Vec<(&str, u64, AttributeFormat, u32)> = inputs
        .iter()
        .map(|input| {
            (input.attribute.name, input.attribute.id, input.attribute.format, input.shader_location)
        })
        .collect();
    assert_eq!(
        slots,
        vec![
            ("Vertex_Position", 0, AttributeFormat::Float32x3, 0),
            ("Vertex_Normal", 1, AttributeFormat::Float32x3, 1),
            ("Vertex_Uv", 2, AttributeFormat::Float32x2, 2),
            ("QUAD_INDEX", 9809767611, AttributeFormat::Uint32, 3),
        ]
    );
}

#[test]
fn vertex_inputs_name_the_engines_attributes() {
    let inputs = vertex_inputs();
    let engine = [Mesh::ATTRIBUTE_POSITION, Mesh::ATTRIBUTE_NORMAL, Mesh::ATTRIBUTE_UV_0];
    for (input, engine) in inputs.iter().zip(engine.iter()) {
        let ours = engine_attribute(input);
        assert_eq!(ours.id, engine.id);
        assert_eq!(ours.name, engine.name);
        assert_eq!(ours.format, engine.format);
    }
}

#[test]
fn specialize_binds_the_four_attributes() {
    let layout = layout_of(&[
        Mesh::ATTRIBUTE_POSITION,
        Mesh::ATTRIBUTE_NORMAL,
        Mesh::ATTRIBUTE_UV_0,
        engine_quad_index(),
    ]);
    let mut pipeline = descriptor(Vec::new());
    assert!(specialize(&mut pipeline, &layout).is_ok());
    assert_eq!(
        pipeline.vertex.buffers,
        vec![VertexBufferLayout {
            array_stride: 36,
            step_mode: VertexStepMode::Vertex,
            attributes: vec![
                VertexAttribute { format: VertexFormat::Float32x3, offset: 0, shader_location: 0 },
                VertexAttribute { format: VertexFormat::Float32x3, offset: 12, shader_location: 1 },
                VertexAttribute { format: VertexFormat::Float32x2, offset: 24, shader_location: 2 },
                VertexAttribute { format: VertexFormat::Uint32, offset: 32, shader_location: 3 },
            ],
        }]
    );
}

#[test]
fn specialize_reads_each_attribute_where_the_mesh_keeps_it() {
    let layout = layout_of(&[
        engine_quad_index(),
        Mesh::ATTRIBUTE_UV_0,
        Mesh::ATTRIBUTE_COLOR,
        Mesh::ATTRIBUTE_NORMAL,
        Mesh::ATTRIBUTE_POSITION,
    ]);
    let mut pipeline = descriptor(Vec::new());
    assert!(specialize(&mut pipeline, &layout).is_ok());
    assert_eq!(pipeline.vertex.buffers.len(), 1);
    assert_eq!(pipeline.vertex.buffers[0].array_stride, 4 + 8 + 16 + 12 + 12);
    assert_eq!(
        pipeline.vertex.buffers[0].attributes,
        vec![
            VertexAttribute { format: VertexFormat::Float32x3, offset: 40, shader_location: 0 },
            VertexAttribute { format: VertexFormat::Float32x3, offset: 28, shader_location: 1 },
            VertexAttribute { format: VertexFormat::Float32x2, offset: 4, shader_location: 2 },
            VertexAttribute { format: VertexFormat::Uint32, offset: 0, shader_location: 3 },
        ]
    );
}

#[test]
fn specialize_puts_its_buffer_in_place_of_the_old_ones() {
    let layout = layout_of(&[
        Mesh::ATTRIBUTE_POSITION,
        Mesh::ATTRIBUTE_NORMAL,
        Mesh::ATTRIBUTE_UV_0,
        engine_quad_index(),
    ]);
    let stale = VertexBufferLayout::from_vertex_formats(
        VertexStepMode::Instance,
        [VertexFormat::Float32x4, VertexFormat::Float32x4],
    );
    let mut pipeline = descriptor(vec![stale.clone(), stale]);
    let before = pipeline.clone();
    assert!(specialize(&mut pipeline, &layout).is_ok());
    assert_eq!(pipeline.vertex.buffers.len(), 1);
    assert_eq!(pipeline.vertex.buffers[0].step_mode, VertexStepMode::Vertex);
    let slots: Vec<u32> =
        pipeline.vertex.buffers[0].attributes.iter().map(|a| a.shader_location).collect();
    assert_eq!(slots, vec![0, 1, 2, 3]);
    pipeline.vertex.buffers = before.vertex.buffers.clone();
    assert_eq!(pipeline, before);
}

#[test]
fn specialize_fails_on_a_mesh_without_quad_ids() {
    let layout =
        layout_of(&[Mesh::ATTRIBUTE_POSITION, Mesh::ATTRIBUTE_NORMAL, Mesh::ATTRIBUTE_UV_0]);
    let stale =
        VertexBufferLayout::from_vertex_formats(VertexStepMode::Vertex, [VertexFormat::Float32x4]);
    let mut pipeline = descriptor(vec![stale]);
    let before = pipeline.clone();
    let outcome = specialize(&mut pipeline, &layout);
    assert!(matches!(outcome, Err(SpecializedMeshPipelineError::MissingVertexAttribute(_))));
    let message = format!("{}", outcome.unwrap_err());
    assert!(message.contains("QUAD_INDEX"));
    assert_eq!(pipeline, before);
}

#[test]
fn specialize_fails_on_a_mesh_without_normals() {
    let layout =
        layout_of(&[Mesh::ATTRIBUTE_POSITION, Mesh::ATTRIBUTE_UV_0, engine_quad_index()]);
    let mut pipeline = descriptor(Vec::new());
    let before = pipeline.clone();
    let outcome = specialize(&mut pipeline, &layout);
    assert!(matches!(outcome, Err(SpecializedMeshPipelineError::MissingVertexAttribute(_))));
    assert!(format!("{}", outcome.unwrap_err()).contains("Vertex_Normal"));
    assert_eq!(pipeline, before);
}

#[test]
fn specialize_fails_on_a_mesh_without_attributes() {
    let layout = layout_of(&[]);
    let mut pipeline = descriptor(Vec::new());
    assert!(specialize(&mut pipeline, &layout).is_err());
    assert!(pipeline.vertex.buffers.is_empty());
}

#[test]
fn specialize_checked_fits_a_whole_layout() {
    let layout = layout_of(&[
        Mesh::ATTRIBUTE_POSITION,
        Mesh::ATTRIBUTE_NORMAL,
        Mesh::ATTRIBUTE_UV_0,
        engine_quad_index(),
    ]);
    let mut checked = descriptor(Vec::new());
    let mut plain = descriptor(Vec::new());
    assert!(matches!(specialize_checked(&mut checked, &layout), Some(Ok(()))));
    assert!(specialize(&mut plain, &layout).is_ok());
    assert_eq!(checked, plain);
    assert_eq!(checked.vertex.buffers[0].attributes.len(), 4);
}

#[test]
fn specialize_checked_hands_the_engines_error_on() {
    let layout = layout_of(&[Mesh::ATTRIBUTE_POSITION, Mesh::ATTRIBUTE_NORMAL]);
    let mut pipeline = descriptor(Vec::new());
    let before = pipeline.clone();
    assert!(matches!(
        specialize_checked(&mut pipeline, &layout),
        Some(Err(SpecializedMeshPipelineError::MissingVertexAttribute(_)))
    ));
    assert_eq!(pipeline, before);
}

#[test]
fn specialize_checked_refuses_a_layout_with_entries_missing() {
    let ids = vec![
        Mesh::ATTRIBUTE_POSITION.id,
        Mesh::ATTRIBUTE_NORMAL.id,
        Mesh::ATTRIBUTE_UV_0.id,
        engine_quad_index().id,
    ];
    let buffer = VertexBufferLayout::from_vertex_formats(
        VertexStepMode::Vertex,
        [VertexFormat::Float32x3, VertexFormat::Float32x3, VertexFormat::Float32x2],
    );
    let layout = MeshVertexBufferLayoutRef(Arc::new(MeshVertexBufferLayout::new(ids, buffer)));
    let mut pipeline = descriptor(Vec::new());
    let before = pipeline.clone();
    assert!(specialize_checked(&mut pipeline, &layout).is_none());
    assert_eq!(pipeline, before);
}
