use rl_graphics::Object;
use rl_graphics::Vertex;

fn vertex(x: f32, y: f32, z: f32, u: f32, v: f32) -> Vertex {
    Vertex {
        pos: [x.to_bits(), y.to_bits(), z.to_bits(), 1.0f32.to_bits()],
        tex_coord: [u.to_bits(), v.to_bits()],
    }
}

fn triangle_vertices() -> Vec<Vertex> {
    vec![
        vertex(0.0, 0.0, 0.0, 0.0, 0.0),
        vertex(1.0, 0.0, 0.0, 1.0, 0.0),
        vertex(0.0, 1.0, 0.0, 0.0, 1.0),
    ]
}

#[test]
fn new_keeps_vertices_and_indices() {
    let vs = triangle_vertices();
    let o = Object::new(vs.clone(), vec![0, 1, 2]);
    assert_eq!(o.vertices, vs);
    assert_eq!(o.indices, vec![0, 1, 2]);
}

#[test]
fn a_triangle_is_well_formed() {
    let o = Object::new(triangle_vertices(), vec![0, 1, 2]);
    assert!(o.is_well_formed());
}

#[test]
fn an_empty_object_is_well_formed() {
    let o = Object::new(vec![], vec![]);
    assert!(o.is_well_formed());
}

#[test]
fn an_out_of_bounds_index_is_rejected() {
    let o = Object::new(triangle_vertices(), vec![0, 1, 3]);
    assert!(!o.is_well_formed());
}

#[test]
fn a_partial_triangle_is_rejected() {
    let o = Object::new(triangle_vertices(), vec![0, 1]);
    assert!(!o.is_well_formed());
}
