//! Meshes: vertex data and index data on the device, ready to be drawn.

use vstd::prelude::*;
use crate::buffer::{upload_calls, Buffer, VertexArray};
use crate::device::{Call, Device, Gl};
use crate::gl;
use crate::history::{
    bound, draws, lemma_bound_kept, lemma_bound_set, lemma_of_kind_add, lemma_of_kind_all,
    lemma_of_kind_none, releases, Kind, Slot,
};
use crate::layout::{Index, LayoutView, ScalarType, VertexAttrib, VertexLayout};

verus! {

/// A mesh as a value: the handles of its vertex array, vertex buffer and
/// index buffer, the number of its indices, and the layout of its vertices.
pub struct MeshView {
    pub vao: u32,
    pub vbo: u32,
    pub ebo: u32,
    pub indices: usize,
    pub layout: LayoutView,
}

impl MeshView {
    /// The requests that build the mesh from `vertex_bytes` bytes of
    /// vertices and `index_bytes` bytes of indices.
    ///
    /// The vertex array is current from before the vertex buffer is bound
    /// until after the index buffer is unbound, so that it records the
    /// attributes and the index buffer.
    pub open spec fn create_calls(self, vertex_bytes: nat, index_bytes: nat) -> Seq<Call> {
        seq![
            Call::GenVertexArray { array: self.vao },
            Call::BindVertexArray { array: self.vao },
            Call::GenBuffer { buffer: self.vbo },
            Call::BindBuffer { target: gl::ARRAY_BUFFER, buffer: self.vbo },
        ] + upload_calls(self.vbo, gl::ARRAY_BUFFER, gl::STATIC_DRAW, vertex_bytes, false)
            + self.layout.pointer_calls() + seq![
            Call::BindBuffer { target: gl::ARRAY_BUFFER, buffer: 0 },
            Call::GenBuffer { buffer: self.ebo },
        ] + upload_calls(self.ebo, gl::ELEMENT_ARRAY_BUFFER, gl::STATIC_DRAW, index_bytes, true)
            + seq![Call::BindVertexArray { array: 0 }]
    }

    /// The one request that draws the mesh: all of its indices, read as
    /// `index_type`, as triangles.
    pub open spec fn draw_call(self, index_type: ScalarType) -> Call {
        Call::DrawElements {
            mode: gl::TRIANGLES,
            count: self.indices,
            index_type: index_type.spec_code(),
            offset: 0,
        }
    }

    /// The requests that draw the mesh: the draw between binding and
    /// unbinding the vertex array and the index buffer, and between
    /// switching the attributes on and off.
    pub open spec fn render_calls(self, index_type: ScalarType) -> Seq<Call> {
        seq![
            Call::BindVertexArray { array: self.vao },
            Call::BindBuffer { target: gl::ELEMENT_ARRAY_BUFFER, buffer: self.ebo },
        ] + self.layout.enable_calls() + seq![self.draw_call(index_type)]
            + self.layout.disable_calls() + seq![
            Call::BindBuffer { target: gl::ELEMENT_ARRAY_BUFFER, buffer: 0 },
            Call::BindVertexArray { array: 0 },
        ]
    }

    /// The requests that release what the mesh owns.
    pub open spec fn destroy_calls(self) -> Seq<Call> {
        seq![
            Call::DeleteVertexArray { array: self.vao },
            Call::DeleteBuffer { buffer: self.vbo },
            Call::DeleteBuffer { buffer: self.ebo },
        ]
    }
}

/// A drawable mesh. It owns a vertex array, a vertex buffer and an index
/// buffer, and keeps the number of its indices and the layout of its
/// vertices, both fixed when it is made.
pub struct Mesh<VertexType: VertexAttrib, IndexType: Index> {
    vao: VertexArray,
    vbo: Buffer<VertexType>,
    ebo: Buffer<IndexType>,
    indices: usize,
    layout: VertexLayout,
}

impl<VertexType: VertexAttrib, IndexType: Index> View for Mesh<VertexType, IndexType> {
    type V = MeshView;

    closed spec fn view(&self) -> MeshView {
        MeshView {
            vao: self.vao@,
            vbo: self.vbo@,
            ebo: self.ebo@,
            indices: self.indices,
            layout: self.layout@,
        }
    }
}

impl<VertexType: VertexAttrib, IndexType: Index> Mesh<VertexType, IndexType> {
    /// A mesh from its parts.
    fn new(
        vao: VertexArray,
        vbo: Buffer<VertexType>,
        ebo: Buffer<IndexType>,
        indices: usize,
        layout: VertexLayout,
    ) -> (mesh: Self)
        ensures
            mesh@ == (MeshView { vao: vao@, vbo: vbo@, ebo: ebo@, indices, layout: layout@ }),
    {
        Self { vao, vbo, ebo, indices, layout }
    }

    /// Put vertices and indices on the device and make a mesh of them.
    ///
    /// The mesh has as many indices as `index_data` holds and the layout of
    /// its vertex type.
    pub fn create<D: Device>(gl: &mut Gl<D>, vertex_data: Vec<VertexType>, index_data: Vec<IndexType>) -> (mesh:
        Self)
        ensures
            mesh@.indices == index_data@.len(),
            mesh@.layout == VertexType::spec_layout(),
            final(gl).issued() == old(gl).issued() + mesh@.create_calls(
                vertex_data@.len() * vstd::layout::size_of::<VertexType>(),
                index_data@.len() * vstd::layout::size_of::<IndexType>(),
            ),
    {
        let layout = VertexType::layout();

        let vao = VertexArray::new(gl);
        vao.bind(gl);

        let mut vbo = Buffer::new(gl);
        vbo.bind(gl, gl::ARRAY_BUFFER);
        let ghost vertex_bytes = vertex_data@.len() * vstd::layout::size_of::<VertexType>();
        vbo.buffer(gl, gl::ARRAY_BUFFER, gl::STATIC_DRAW, vertex_data, false);

        layout.setup_attrib_pointer(gl);
        vbo.unbind(gl, gl::ARRAY_BUFFER);

        let index_count = index_data.len();
        let ghost index_bytes = index_data@.len() * vstd::layout::size_of::<IndexType>();
        let mut ebo = Buffer::new(gl);
        ebo.buffer(gl, gl::ELEMENT_ARRAY_BUFFER, gl::STATIC_DRAW, index_data, true);

        vao.unbind(gl);

        let mesh = Self::new(vao, vbo, ebo, index_count, layout);
        mesh
    }

    /// The number of indices, which is the number of corners drawn: three
    /// for each triangle.
    pub fn index_count(&self) -> (count: usize)
        ensures
            count == self@.indices,
    {
        self.indices
    }

    /// The layout of the vertices.
    pub fn layout(&self) -> (layout: &VertexLayout)
        ensures
            layout@ == self@.layout,
    {
        &self.layout
    }

    /// The vertex array.
    pub fn vertex_array(&self) -> (array: &VertexArray)
        ensures
            array@ == self@.vao,
    {
        &self.vao
    }

    /// The buffer that holds the vertices.
    pub fn vertex_buffer(&self) -> (buffer: &Buffer<VertexType>)
        ensures
            buffer@ == self@.vbo,
    {
        &self.vbo
    }

    /// The buffer that holds the indices.
    pub fn index_buffer(&self) -> (buffer: &Buffer<IndexType>)
        ensures
            buffer@ == self@.ebo,
    {
        &self.ebo
    }

    /// Draw the mesh: one indexed draw of all its indices as triangles.
    ///
    /// Every binding made for the draw is undone again, on every path.
    pub fn render<D: Device>(&self, gl: &mut Gl<D>)
        ensures
            final(gl).issued() == old(gl).issued() + self@.render_calls(IndexType::spec_type()),
    {
        self.vao.bind(gl);
        self.ebo.bind(gl, gl::ELEMENT_ARRAY_BUFFER);
        self.layout.enable_attribs(gl);
        gl.device.draw_elements(gl::TRIANGLES, self.indices, IndexType::get_type().code(), 0);
        self.layout.disable_attribs(gl);
        self.ebo.unbind(gl, gl::ELEMENT_ARRAY_BUFFER);
        self.vao.unbind(gl);
    }

    /// Release what the mesh owns: the vertex array, the vertex buffer and
    /// the index buffer, each once, in this order.
    pub fn destroy<D: Device>(self, gl: &mut Gl<D>)
        ensures
            final(gl).issued() == old(gl).issued() + self@.destroy_calls(),
    {
        let ghost calls = self@.destroy_calls();
        self.vao.destroy(gl);
        self.vbo.destroy(gl);
        self.ebo.destroy(gl);
    }
}

/// Drawing a mesh makes exactly one indexed draw, of all the indices of the
/// mesh, and releases nothing.
pub proof fn lemma_render_draws_once(mesh: MeshView, index_type: ScalarType)
    ensures
        draws(mesh.render_calls(index_type)) == seq![mesh.draw_call(index_type)],
        mesh.draw_call(index_type) matches Call::DrawElements { count, .. } && count == mesh.indices,
        releases(mesh.render_calls(index_type)) == Seq::<Call>::empty(),
{
    let open = seq![
        Call::BindVertexArray { array: mesh.vao },
        Call::BindBuffer { target: gl::ELEMENT_ARRAY_BUFFER, buffer: mesh.ebo },
    ];
    let draw = seq![mesh.draw_call(index_type)];
    let close = seq![
        Call::BindBuffer { target: gl::ELEMENT_ARRAY_BUFFER, buffer: 0 },
        Call::BindVertexArray { array: 0 },
    ];
    let on = mesh.layout.enable_calls();
    let off = mesh.layout.disable_calls();

    lemma_of_kind_none(open, Kind::Draw);
    lemma_of_kind_none(on, Kind::Draw);
    lemma_of_kind_all(draw, Kind::Draw);
    lemma_of_kind_none(off, Kind::Draw);
    lemma_of_kind_none(close, Kind::Draw);
    lemma_of_kind_add(open, on, Kind::Draw);
    lemma_of_kind_add(open + on, draw, Kind::Draw);
    lemma_of_kind_add(open + on + draw, off, Kind::Draw);
    lemma_of_kind_add(open + on + draw + off, close, Kind::Draw);

    lemma_of_kind_none(mesh.render_calls(index_type), Kind::Release);
}

/// A mesh that is built and then destroyed, with nothing in between, has
/// made no draw, and has released exactly what it owns: its vertex array,
/// its vertex buffer and its index buffer, each once.
pub proof fn lemma_create_then_destroy(mesh: MeshView, vertex_bytes: nat, index_bytes: nat)
    ensures
        draws(mesh.create_calls(vertex_bytes, index_bytes) + mesh.destroy_calls()) == Seq::<
            Call,
        >::empty(),
        releases(mesh.create_calls(vertex_bytes, index_bytes) + mesh.destroy_calls()) == seq![
            Call::DeleteVertexArray { array: mesh.vao },
            Call::DeleteBuffer { buffer: mesh.vbo },
            Call::DeleteBuffer { buffer: mesh.ebo },
        ],
{
    let made = mesh.create_calls(vertex_bytes, index_bytes);
    let gone = mesh.destroy_calls();
    lemma_of_kind_none(made + gone, Kind::Draw);
    lemma_of_kind_none(made, Kind::Release);
    lemma_of_kind_all(gone, Kind::Release);
    lemma_of_kind_add(made, gone, Kind::Release);
}

/// Drawing a mesh leaves bound what was bound before: afterwards no vertex
/// array is current and no buffer is bound to the index target, and the
/// current program and the vertex target hold what they held.
pub proof fn lemma_render_leaves_nothing_bound(before: Seq<Call>, mesh: MeshView, index_type: ScalarType)
    ensures
        bound(before + mesh.render_calls(index_type), Slot::VertexArray) == 0,
        bound(before + mesh.render_calls(index_type), Slot::Buffer(gl::ELEMENT_ARRAY_BUFFER)) == 0,
        bound(before + mesh.render_calls(index_type), Slot::Buffer(gl::ARRAY_BUFFER)) == bound(
            before,
            Slot::Buffer(gl::ARRAY_BUFFER),
        ),
        bound(before + mesh.render_calls(index_type), Slot::Program) == bound(before, Slot::Program),
{
    let calls = mesh.render_calls(index_type);
    let n = calls.len() as int;
    let unbind_buffer = Call::BindBuffer { target: gl::ELEMENT_ARRAY_BUFFER, buffer: 0 };
    let unbind_array = Call::BindVertexArray { array: 0 };

    let front = before + calls.take(n - 1);
    lemma_bound_set(front, unbind_array, Seq::empty(), Slot::VertexArray);

    let further = before + calls.take(n - 2);
    assert(before + calls =~= further + seq![unbind_buffer] + seq![unbind_array]);
    lemma_bound_set(further, unbind_buffer, seq![unbind_array], Slot::Buffer(gl::ELEMENT_ARRAY_BUFFER));

    lemma_bound_kept(before, calls, Slot::Buffer(gl::ARRAY_BUFFER));
    lemma_bound_kept(before, calls, Slot::Program);
}

/// Building a mesh leaves nothing bound: afterwards no vertex array is
/// current and no buffer is bound to the vertex target or to the index
/// target. The current program is what it was.
pub proof fn lemma_create_leaves_nothing_bound(
    before: Seq<Call>,
    mesh: MeshView,
    vertex_bytes: nat,
    index_bytes: nat,
)
    ensures
        bound(before + mesh.create_calls(vertex_bytes, index_bytes), Slot::VertexArray) == 0,
        bound(
            before + mesh.create_calls(vertex_bytes, index_bytes),
            Slot::Buffer(gl::ARRAY_BUFFER),
        ) == 0,
        bound(
            before + mesh.create_calls(vertex_bytes, index_bytes),
            Slot::Buffer(gl::ELEMENT_ARRAY_BUFFER),
        ) == 0,
        bound(before + mesh.create_calls(vertex_bytes, index_bytes), Slot::Program) == bound(
            before,
            Slot::Program,
        ),
{
    let calls = mesh.create_calls(vertex_bytes, index_bytes);
    let n = calls.len() as int;
    let k = mesh.layout.pointer_calls().len() as int;
    let unbind_array = Call::BindVertexArray { array: 0 };
    let unbind_indices = Call::BindBuffer { target: gl::ELEMENT_ARRAY_BUFFER, buffer: 0 };
    let unbind_vertices = Call::BindBuffer { target: gl::ARRAY_BUFFER, buffer: 0 };

    lemma_bound_set(before + calls.take(n - 1), unbind_array, Seq::empty(), Slot::VertexArray);

    assert(before + calls =~= before + calls.take(n - 2) + seq![unbind_indices] + seq![unbind_array]);
    lemma_bound_set(
        before + calls.take(n - 2),
        unbind_indices,
        seq![unbind_array],
        Slot::Buffer(gl::ELEMENT_ARRAY_BUFFER),
    );

    let rest = calls.skip(k + 6);
    assert(before + calls =~= before + calls.take(k + 5) + seq![unbind_vertices] + rest);
    lemma_bound_set(before + calls.take(k + 5), unbind_vertices, rest, Slot::Buffer(gl::ARRAY_BUFFER));

    lemma_bound_kept(before, calls, Slot::Program);
}

} // verus!
