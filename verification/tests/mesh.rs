use render::buffer::{Buffer, VertexArray};
use render::derive::vertex_attrib_pointers_derive;
use render::device::Gl;
use render::gl;
use render::layout::{Component, ScalarType, VertexAttrib, VertexLayout};
use render::mesh::Mesh;
use render::record::{Attribute, Data, Field, Fields, Lit, Meta, Path};
use render::recorder::{Recorder, Request};
use render::vector::Vec3;
use render::vertex::Vertex;

fn vec3(x: f32, y: f32, z: f32) -> Vec3 {
    Vec3::new(x.to_bits(), y.to_bits(), z.to_bits())
}

fn quad() -> (Vec<Vertex>, Vec<u16>) {
    let vertices = vec![
        Vertex::new(vec3(-1.0, -1.0, -0.5), vec3(1.0, 0.0, 0.0)),
        Vertex::new(vec3(-1.0, 1.0, -0.5), vec3(1.0, 1.0, 0.0)),
        Vertex::new(vec3(1.0, 1.0, -0.5), vec3(0.0, 1.0, 0.0)),
        Vertex::new(vec3(1.0, -1.0, -0.5), vec3(0.0, 0.0, 1.0)),
    ];
    (vertices, vec![0, 1, 2, 0, 2, 3])
}

fn is_draw(request: &Request) -> bool {
    matches!(request, Request::DrawElements { .. })
}

fn is_release(request: &Request) -> bool {
    matches!(
        request,
        Request::DeleteShader { .. }
            | Request::DeleteProgram { .. }
            | Request::DeleteBuffer { .. }
            | Request::DeleteVertexArray { .. }
    )
}

fn pointer(location: u32, offset: usize) -> Request {
    Request::VertexAttribPointer {
        location,
        count: 3,
        scalar: gl::FLOAT,
        normalized: false,
        stride: 24,
        offset,
    }
}

#[test]
fn quad_reports_six_indices_and_draws_once() {
    let mut gl = Gl::load_with(Recorder::new());
    let (vertices, indices) = quad();
    let mesh: Mesh<Vertex, u16> = Mesh::create(&mut gl, vertices, indices);
    assert_eq!(mesh.index_count(), 6);
    let built = gl.device.requests().len();
    mesh.render(&mut gl);
    let draws: Vec<&Request> = gl.device.requests()[built..].iter().filter(|r| is_draw(r)).collect();
    assert_eq!(
        draws,
        vec![&Request::DrawElements {
            mode: gl::TRIANGLES,
            count: 6,
            index_type: gl::UNSIGNED_SHORT,
            offset: 0
        }]
    );
    assert_eq!(gl.device.requests()[..built].iter().filter(|r| is_draw(r)).count(), 0);
}

#[test]
fn mesh_built_and_destroyed_releases_each_resource_once_and_draws_nothing() {
    let mut gl = Gl::load_with(Recorder::new());
    let (vertices, indices) = quad();
    let mesh: Mesh<Vertex, u16> = Mesh::create(&mut gl, vertices, indices);
    let (vao, vbo, ebo) = (mesh.vertex_array().id(), mesh.vertex_buffer().id(), mesh.index_buffer().id());
    mesh.destroy(&mut gl);
    let requests = gl.device.requests();
    let releases: Vec<&Request> = requests.iter().filter(|r| is_release(r)).collect();
    assert_eq!(
        releases,
        vec![
            &Request::DeleteVertexArray { array: vao },
            &Request::DeleteBuffer { buffer: vbo },
            &Request::DeleteBuffer { buffer: ebo },
        ]
    );
    assert_eq!((vao, vbo, ebo), (1, 2, 3));
    assert_eq!(requests.iter().filter(|r| is_draw(r)).count(), 0);
}

#[test]
fn create_uploads_inside_the_bound_vertex_array() {
    let mut gl = Gl::load_with(Recorder::new());
    let (vertices, indices) = quad();
    let mesh: Mesh<Vertex, u16> = Mesh::create(&mut gl, vertices, indices);
    assert_eq!(mesh.layout().bindings(), Vertex::layout().bindings());
    assert_eq!(
        gl.device.requests(),
        &vec![
            Request::GenVertexArray { array: 1 },
            Request::BindVertexArray { array: 1 },
            Request::GenBuffer { buffer: 2 },
            Request::BindBuffer { target: gl::ARRAY_BUFFER, buffer: 2 },
            Request::BufferData { target: gl::ARRAY_BUFFER, size: 96, usage: gl::STATIC_DRAW },
            pointer(0, 0),
            pointer(1, 12),
            Request::BindBuffer { target: gl::ARRAY_BUFFER, buffer: 0 },
            Request::GenBuffer { buffer: 3 },
            Request::BindBuffer { target: gl::ELEMENT_ARRAY_BUFFER, buffer: 3 },
            Request::BufferData { target: gl::ELEMENT_ARRAY_BUFFER, size: 12, usage: gl::STATIC_DRAW },
            Request::BindBuffer { target: gl::ELEMENT_ARRAY_BUFFER, buffer: 0 },
            Request::BindVertexArray { array: 0 },
        ]
    );
}

#[test]
fn render_brackets_the_draw_and_undoes_every_binding() {
    let mut gl = Gl::load_with(Recorder::new());
    let (vertices, indices) = quad();
    let mesh: Mesh<Vertex, u16> = Mesh::create(&mut gl, vertices, indices);
    let built = gl.device.requests().len();
    mesh.render(&mut gl);
    mesh.render(&mut gl);
    let once = vec![
        Request::BindVertexArray { array: 1 },
        Request::BindBuffer { target: gl::ELEMENT_ARRAY_BUFFER, buffer: 3 },
        Request::EnableVertexAttribArray { location: 0 },
        Request::EnableVertexAttribArray { location: 1 },
        Request::DrawElements { mode: gl::TRIANGLES, count: 6, index_type: gl::UNSIGNED_SHORT, offset: 0 },
        Request::DisableVertexAttribArray { location: 0 },
        Request::DisableVertexAttribArray { location: 1 },
        Request::BindBuffer { target: gl::ELEMENT_ARRAY_BUFFER, buffer: 0 },
        Request::BindVertexArray { array: 0 },
    ];
    assert_eq!(&gl.device.requests()[built..built + 9], &once[..]);
    assert_eq!(&gl.device.requests()[built + 9..], &once[..]);
    assert_eq!(mesh.index_count(), 6);
}

#[test]
fn wide_indices_are_drawn_as_unsigned_int() {
    let mut gl = Gl::load_with(Recorder::new());
    let (vertices, _) = quad();
    let indices: Vec<u32> = vec![0, 1, 2];
    let mesh: Mesh<Vertex, u32> = Mesh::create(&mut gl, vertices, indices);
    assert_eq!(
        gl.device.requests()[10],
        Request::BufferData { target: gl::ELEMENT_ARRAY_BUFFER, size: 12, usage: gl::STATIC_DRAW }
    );
    let built = gl.device.requests().len();
    mesh.render(&mut gl);
    assert_eq!(
        gl.device.requests()[built + 4],
        Request::DrawElements { mode: gl::TRIANGLES, count: 3, index_type: gl::UNSIGNED_INT, offset: 0 }
    );
}

#[test]
fn empty_mesh_uploads_nothing_and_draws_no_index() {
    let mut gl = Gl::load_with(Recorder::new());
    let mesh: Mesh<Vertex, u16> = Mesh::create(&mut gl, Vec::new(), Vec::new());
    assert_eq!(mesh.index_count(), 0);
    assert_eq!(
        gl.device.requests()[4],
        Request::BufferData { target: gl::ARRAY_BUFFER, size: 0, usage: gl::STATIC_DRAW }
    );
    let built = gl.device.requests().len();
    mesh.render(&mut gl);
    assert_eq!(
        gl.device.requests()[built + 4],
        Request::DrawElements { mode: gl::TRIANGLES, count: 0, index_type: gl::UNSIGNED_SHORT, offset: 0 }
    );
}

struct Point {
    _at: [f32; 2],
    _weight: [u8; 4],
}

impl VertexAttrib for Point {
    fn layout() -> VertexLayout {
        let location = |n: &str| Attribute {
            path: Path { leading_colon: false, segments: vec!["location".to_string()] },
            meta: Some(Meta::NameValue(Lit::Int(n.to_string()))),
        };
        let data = Data::Struct(Fields::Named(vec![
            Field {
                ident: Some("at".to_string()),
                attrs: vec![location("2")],
                ty: Component::new(2, ScalarType::Float).unwrap(),
            },
            Field {
                ident: Some("weight".to_string()),
                attrs: vec![location("5")],
                ty: Component::new(4, ScalarType::UnsignedByte).unwrap(),
            },
        ]));
        vertex_attrib_pointers_derive(&data, std::mem::size_of::<Point>()).unwrap()
    }
}

#[test]
fn mesh_takes_the_layout_of_its_vertex_type() {
    let mut gl = Gl::load_with(Recorder::new());
    let points = vec![Point { _at: [0.0, 1.0], _weight: [1, 2, 3, 4] }];
    let mesh: Mesh<Point, u16> = Mesh::create(&mut gl, points, vec![0, 0, 0]);
    assert_eq!(std::mem::size_of::<Point>(), 12);
    assert_eq!(
        &gl.device.requests()[4..8],
        &[
            Request::BufferData { target: gl::ARRAY_BUFFER, size: 12, usage: gl::STATIC_DRAW },
            Request::VertexAttribPointer {
                location: 2,
                count: 2,
                scalar: gl::FLOAT,
                normalized: false,
                stride: 12,
                offset: 0
            },
            Request::VertexAttribPointer {
                location: 5,
                count: 4,
                scalar: gl::UNSIGNED_BYTE,
                normalized: false,
                stride: 12,
                offset: 8
            },
            Request::BindBuffer { target: gl::ARRAY_BUFFER, buffer: 0 },
        ]
    );
    let built = gl.device.requests().len();
    mesh.render(&mut gl);
    assert_eq!(gl.device.requests()[built + 2], Request::EnableVertexAttribArray { location: 2 });
    assert_eq!(gl.device.requests()[built + 3], Request::EnableVertexAttribArray { location: 5 });
}

#[test]
fn buffer_uploads_with_or_without_binding() {
    let mut gl = Gl::load_with(Recorder::new());
    let mut buffer: Buffer<u32> = Buffer::new(&mut gl);
    assert_eq!(buffer.id(), 1);
    buffer.buffer(&mut gl, gl::ARRAY_BUFFER, gl::DYNAMIC_DRAW, vec![1, 2, 3, 4, 5], true);
    buffer.buffer(&mut gl, gl::ELEMENT_ARRAY_BUFFER, gl::STATIC_DRAW, vec![7], false);
    buffer.buffer(&mut gl, gl::ARRAY_BUFFER, 0x88E0, Vec::new(), false);
    assert_eq!(
        gl.device.requests(),
        &vec![
            Request::GenBuffer { buffer: 1 },
            Request::BindBuffer { target: gl::ARRAY_BUFFER, buffer: 1 },
            Request::BufferData { target: gl::ARRAY_BUFFER, size: 20, usage: gl::DYNAMIC_DRAW },
            Request::BindBuffer { target: gl::ARRAY_BUFFER, buffer: 0 },
            Request::BufferData { target: gl::ELEMENT_ARRAY_BUFFER, size: 4, usage: gl::STATIC_DRAW },
            Request::BufferData { target: gl::ARRAY_BUFFER, size: 0, usage: 0x88E0 },
        ]
    );
}

#[test]
fn buffer_and_vertex_array_bind_unbind_and_are_released() {
    let mut gl = Gl::load_with(Recorder::new());
    let array = VertexArray::new(&mut gl);
    let buffer: Buffer<u8> = Buffer::new(&mut gl);
    array.bind(&mut gl);
    buffer.bind(&mut gl, gl::ARRAY_BUFFER);
    buffer.unbind(&mut gl, gl::ARRAY_BUFFER);
    Buffer::<u8>::unbind_all(&mut gl, gl::ELEMENT_ARRAY_BUFFER);
    array.unbind(&mut gl);
    VertexArray::unbind_all(&mut gl);
    buffer.destroy(&mut gl);
    array.destroy(&mut gl);
    assert_eq!(
        gl.device.requests(),
        &vec![
            Request::GenVertexArray { array: 1 },
            Request::GenBuffer { buffer: 2 },
            Request::BindVertexArray { array: 1 },
            Request::BindBuffer { target: gl::ARRAY_BUFFER, buffer: 2 },
            Request::BindBuffer { target: gl::ARRAY_BUFFER, buffer: 0 },
            Request::BindBuffer { target: gl::ELEMENT_ARRAY_BUFFER, buffer: 0 },
            Request::BindVertexArray { array: 0 },
            Request::BindVertexArray { array: 0 },
            Request::DeleteBuffer { buffer: 2 },
            Request::DeleteVertexArray { array: 1 },
        ]
    );
}

#[test]
fn two_devices_keep_their_own_histories() {
    let mut first = Gl::load_with(Recorder::new());
    let mut second = Gl::load_with(Recorder::new());
    let a = VertexArray::new(&mut first);
    let b = VertexArray::new(&mut second);
    let c = VertexArray::new(&mut second);
    assert_eq!((a.id(), b.id(), c.id()), (1, 1, 2));
    assert_eq!(first.device.requests().len(), 1);
    assert_eq!(second.device.requests().len(), 2);
}

#[test]
fn frames_are_counted_until_a_second_has_passed() {
    let mut counter = render::frames::FrameCounter::new();
    assert_eq!(counter.update_frame_counter(1), Some(0));
    for _ in 0..59 {
        assert_eq!(counter.update_frame_counter(0), None);
    }
    assert_eq!(counter.update_frame_counter(1), Some(59));
    assert_eq!(counter.update_frame_counter(0), None);
    assert_eq!(counter.update_frame_counter(7), Some(1));
    assert_eq!(counter.update_frame_counter(u64::MAX), Some(0));
}
