use shaders::mesh::{MeshError, Scalar, Vector2, Vector3, Vertex};
use shaders::sphere::{generate, lattice};

fn scalar(value: f32) -> Scalar {
    Scalar::from_bits(value.to_bits())
}

/// A lattice whose point `(i, j)` can be read back from its position.
fn samples_of(u_steps: usize, v_steps: usize) -> Vec<Vertex> {
    let mut samples = Vec::new();
    for i in 0..=u_steps {
        for j in 0..=v_steps {
            samples.push(Vertex {
                position: Vector3 { x: scalar(i as f32), y: scalar(j as f32), z: scalar(0.0) },
                normal: Vector3 { x: scalar(0.0), y: scalar(0.0), z: scalar(1.0) },
                uv: Vector2 {
                    x: scalar(i as f32 / u_steps as f32),
                    y: scalar(j as f32 / v_steps as f32),
                },
            });
        }
    }
    samples
}

fn lattice_point(vertex: &Vertex) -> (usize, usize) {
    (
        f32::from_bits(vertex.position.x.to_bits()) as usize,
        f32::from_bits(vertex.position.y.to_bits()) as usize,
    )
}

#[test]
fn generate_rejects_zero_u_steps() {
    assert_eq!(generate(&samples_of(0, 3), 0, 3), Err(MeshError::InvalidParameter));
}

#[test]
fn generate_rejects_zero_v_steps() {
    assert_eq!(generate(&samples_of(3, 0), 3, 0), Err(MeshError::InvalidParameter));
}

#[test]
fn generate_rejects_zero_steps_both_ways() {
    assert_eq!(generate(&samples_of(0, 0), 0, 0), Err(MeshError::InvalidParameter));
    assert_eq!(generate(&Vec::new(), 0, 0), Err(MeshError::InvalidParameter));
}

#[test]
fn generate_rejects_a_table_of_the_wrong_size() {
    let mut samples = samples_of(2, 3);
    assert_eq!(samples.len(), 12);
    samples.pop();
    assert_eq!(generate(&samples, 2, 3), Err(MeshError::InvalidParameter));
    assert_eq!(generate(&samples_of(2, 3), 3, 2).map(|m| m.len()), Ok(36));
    assert_eq!(generate(&samples_of(2, 3), 2, 2), Err(MeshError::InvalidParameter));
    assert_eq!(generate(&Vec::new(), 1, 1), Err(MeshError::InvalidParameter));
}

#[test]
fn generate_rejects_more_quads_than_a_mesh_can_take() {
    assert_eq!(generate(&Vec::new(), usize::MAX, usize::MAX), Err(MeshError::InvalidParameter));
    assert_eq!(generate(&Vec::new(), 715_827_883, 1), Err(MeshError::InvalidParameter));
    assert_eq!(generate(&Vec::new(), 65_536, 65_536), Err(MeshError::InvalidParameter));
}

#[test]
fn generate_emits_one_quad_as_two_triangles() {
    let mesh = generate(&samples_of(1, 1), 1, 1).unwrap();
    let points: Vec<(usize, usize)> = mesh.vertices().iter().map(lattice_point).collect();
    assert_eq!(points, vec![(0, 0), (0, 1), (1, 0), (1, 0), (0, 1), (1, 1)]);
}

#[test]
fn generate_lays_quads_row_by_row() {
    let (u_steps, v_steps) = (2, 3);
    let mesh = generate(&samples_of(u_steps, v_steps), u_steps, v_steps).unwrap();
    assert_eq!(mesh.len(), 36);
    let points: Vec<(usize, usize)> = mesh.vertices().iter().map(lattice_point).collect();
    let mut expected = Vec::new();
    for i in 0..u_steps {
        for j in 0..v_steps {
            expected.extend_from_slice(&[
                (i, j),
                (i, j + 1),
                (i + 1, j),
                (i + 1, j),
                (i, j + 1),
                (i + 1, j + 1),
            ]);
        }
    }
    assert_eq!(points, expected);
    assert_eq!(points[6 * 4..6 * 5].to_vec(), vec![(1, 1), (1, 2), (2, 1), (2, 1), (1, 2), (2, 2)]);
}

#[test]
fn generate_copies_the_samples_whole() {
    let samples = samples_of(3, 2);
    let mesh = generate(&samples, 3, 2).unwrap();
    for vertex in mesh.vertices() {
        let (i, j) = lattice_point(vertex);
        assert_eq!(*vertex, samples[i * 3 + j]);
    }
}

#[test]
fn generate_emits_six_vertices_per_quad() {
    for u_steps in 1..6 {
        for v_steps in 1..6 {
            let mesh = generate(&samples_of(u_steps, v_steps), u_steps, v_steps).unwrap();
            assert_eq!(mesh.len(), 6 * u_steps * v_steps);
            assert_eq!(mesh.len() % 6, 0);
        }
    }
}

#[test]
fn generate_triangles_share_the_diagonal() {
    let mesh = generate(&samples_of(4, 5), 4, 5).unwrap();
    let vertices = mesh.vertices();
    for quad in 0..20 {
        assert_eq!(vertices[6 * quad + 1], vertices[6 * quad + 4]);
        assert_eq!(vertices[6 * quad + 2], vertices[6 * quad + 3]);
    }
}

#[test]
fn generate_is_deterministic() {
    let samples = samples_of(5, 4);
    assert_eq!(generate(&samples, 5, 4), generate(&samples, 5, 4));
}

#[test]
fn lattice_lists_the_points_row_by_row() {
    assert_eq!(
        lattice(2, 1),
        Ok(vec![(0, 0), (0, 1), (1, 0), (1, 1), (2, 0), (2, 1)])
    );
    assert_eq!(lattice(1, 2), Ok(vec![(0, 0), (0, 1), (0, 2), (1, 0), (1, 1), (1, 2)]));
    assert_eq!(lattice(1, 1), Ok(vec![(0, 0), (0, 1), (1, 0), (1, 1)]));
}

#[test]
fn lattice_has_one_point_per_crossing() {
    for u_steps in 1..7 {
        for v_steps in 1..7 {
            let points = lattice(u_steps, v_steps).unwrap();
            assert_eq!(points.len(), (u_steps + 1) * (v_steps + 1));
            for (place, point) in points.iter().enumerate() {
                assert_eq!(*point, (place / (v_steps + 1), place % (v_steps + 1)));
                assert_eq!(place, point.0 * (v_steps + 1) + point.1);
            }
        }
    }
}

#[test]
fn lattice_rejects_what_generate_rejects() {
    assert_eq!(lattice(0, 4), Err(MeshError::InvalidParameter));
    assert_eq!(lattice(4, 0), Err(MeshError::InvalidParameter));
    assert_eq!(lattice(0, 0), Err(MeshError::InvalidParameter));
    assert_eq!(lattice(usize::MAX, 2), Err(MeshError::InvalidParameter));
    assert_eq!(lattice(715_827_883, 1), Err(MeshError::InvalidParameter));
}

#[test]
fn generate_takes_the_samples_in_the_order_of_the_lattice() {
    let (u_steps, v_steps) = (3, 4);
    let samples: Vec<Vertex> = lattice(u_steps, v_steps)
        .unwrap()
        .into_iter()
        .map(|(i, j)| Vertex {
            position: Vector3 { x: scalar(i as f32), y: scalar(j as f32), z: scalar(0.0) },
            normal: Vector3 { x: scalar(0.0), y: scalar(0.0), z: scalar(1.0) },
            uv: Vector2 { x: scalar(0.0), y: scalar(0.0) },
        })
        .collect();
    let mesh = generate(&samples, u_steps, v_steps).unwrap();
    assert_eq!(mesh.len(), 72);
    // quad 7 lies at the lattice point (1, 3)
    let points: Vec<(usize, usize)> =
        mesh.vertices()[42..48].iter().map(lattice_point).collect();
    assert_eq!(points, vec![(1, 3), (1, 4), (2, 3), (2, 3), (1, 4), (2, 4)]);
}
