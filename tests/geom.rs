use emgl::{AttribBinding, DrawCall, FlushPlan, Mesh, Upload, Vertex, VertexFormat};

#[derive(Clone, Copy, Debug, PartialEq)]
struct Point {
    x: i32,
    y: i32,
}

impl Vertex for Point {
    fn get_format(&self) -> VertexFormat {
        let mut f = VertexFormat::new();
        f.add_attrib("position", 2, false);
        f
    }
}

fn binding(name: &str, size: u32, normalized: bool, offset: u32) -> AttribBinding {
    AttribBinding { name: name.to_string(), size, normalized, offset }
}

#[test]
fn empty_format_has_no_bytes() {
    let f = VertexFormat::new();
    assert_eq!(f.size(), 0);
    assert_eq!(f.checked_size(), Some(0));
    assert_eq!(f.layout(), Some(vec![]));
}

#[test]
fn format_size_is_four_bytes_per_component() {
    let mut f = VertexFormat::new();
    f.add_attrib("position", 3, false);
    f.add_attrib("color", 4, true);
    f.add_attrib("uv", 2, false);
    assert_eq!(f.size(), 36);
    assert_eq!(f.checked_size(), Some(36));
}

#[test]
fn layout_offsets_follow_insertion_order() {
    let mut f = VertexFormat::new();
    f.add_attrib("position", 3, false);
    f.add_attrib("color", 4, true);
    f.add_attrib("uv", 2, false);
    assert_eq!(
        f.layout(),
        Some(vec![
            binding("position", 3, false, 0),
            binding("color", 4, true, 12),
            binding("uv", 2, false, 28),
        ])
    );
}

#[test]
fn re_adding_an_attribute_replaces_it_in_place() {
    let mut f = VertexFormat::new();
    f.add_attrib("position", 3, false);
    f.add_attrib("color", 4, true);
    f.add_attrib("position", 2, true);
    assert_eq!(f.size(), 24);
    assert_eq!(
        f.layout(),
        Some(vec![binding("position", 2, true, 0), binding("color", 4, true, 8)])
    );
}

#[test]
fn oversized_format_is_reported() {
    let mut f = VertexFormat::new();
    f.add_attrib("a", u32::MAX / 8, false);
    f.add_attrib("b", u32::MAX / 8, false);
    assert_eq!(f.checked_size(), Some(4 * 2 * (u32::MAX / 8)));
    f.add_attrib("c", 1 << 30, false);
    assert_eq!(f.checked_size(), None);
    assert_eq!(f.layout(), None);
}

#[test]
fn large_format_size_wraps_to_signed() {
    let mut f = VertexFormat::new();
    f.add_attrib("a", 1 << 29, false);
    assert_eq!(f.size(), i32::MIN);
}

#[test]
fn vertex_trait_gives_format() {
    let p = Point { x: 1, y: 2 };
    assert_eq!(p.get_format().size(), 8);
    assert_eq!(p.x + p.y, 3);
}

#[test]
fn new_mesh_is_empty() {
    let m: Mesh<Point> = Mesh::new(true);
    assert_eq!(m.vertex_count(), 0);
    assert_eq!(m.index_count(), 0);
    assert!(m.indexed());
    let n: Mesh<Point> = Mesh::new(false);
    assert!(!n.indexed());
}

#[test]
fn mesh_collects_vertices_and_indices() {
    let mut m: Mesh<Point> = Mesh::new(true);
    m.add_vertex(Point { x: 0, y: 0 });
    m.add_vertex(Point { x: 1, y: 0 });
    m.add_vertex(Point { x: 0, y: 1 });
    m.add_triangle(0, 1, 2);
    m.add_index(2);
    assert_eq!(m.vertex_count(), 3);
    assert_eq!(m.index_count(), 4);
    m.clear();
    assert_eq!(m.vertex_count(), 0);
    assert_eq!(m.index_count(), 0);
}

#[test]
fn draw_call_follows_indexing() {
    let mut m: Mesh<Point> = Mesh::new(true);
    m.add_vertex(Point { x: 0, y: 0 });
    m.add_triangle(0, 0, 0);
    assert_eq!(m.draw_call(), DrawCall::Elements(3));
    let mut n: Mesh<Point> = Mesh::new(false);
    n.add_vertex(Point { x: 0, y: 0 });
    n.add_vertex(Point { x: 1, y: 1 });
    assert_eq!(n.draw_call(), DrawCall::Arrays(2));
}

#[test]
fn flush_allocates_index_storage_only_when_it_grows() {
    let mut m: Mesh<Point> = Mesh::new(true);
    m.add_vertex(Point { x: 0, y: 0 });
    m.add_triangle(0, 1, 2);
    let first = m.plan_flush();
    assert_eq!(
        first,
        Some(FlushPlan { vertices: Upload::Update(0), indices: Some(Upload::Allocate(6)) })
    );
    let second = m.plan_flush();
    assert_eq!(
        second,
        Some(FlushPlan { vertices: Upload::Update(0), indices: Some(Upload::Update(6)) })
    );
    m.add_index(0);
    assert_eq!(
        m.plan_flush(),
        Some(FlushPlan { vertices: Upload::Update(0), indices: Some(Upload::Allocate(8)) })
    );
    m.clear();
    m.add_index(0);
    assert_eq!(
        m.plan_flush(),
        Some(FlushPlan { vertices: Upload::Update(0), indices: Some(Upload::Update(2)) })
    );
}

#[test]
fn flush_of_unindexed_mesh_has_no_index_upload() {
    let mut m: Mesh<Point> = Mesh::new(false);
    m.add_vertex(Point { x: 0, y: 0 });
    m.add_index(1);
    assert_eq!(m.plan_flush(), Some(FlushPlan { vertices: Upload::Update(0), indices: None }));
}
