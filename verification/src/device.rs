//! The device: its entry points, the history of requests, and the handle
//! through which every component reaches it.

use vstd::prelude::*;

verus! {

/// One request made of the device, together with the device's answer where
/// the request has one.
///
/// Single-precision values are carried as their IEEE-754 bit patterns.
#[allow(inconsistent_fields)]
pub enum Call {
    CreateShader { kind: u32, shader: u32 },
    ShaderSource { shader: u32, source: Seq<char> },
    CompileShader { shader: u32 },
    ShaderLogLength { shader: u32, length: i32 },
    ShaderInfoLog { shader: u32, capacity: nat, log: Seq<u8> },
    DeleteShader { shader: u32 },
    CreateProgram { program: u32 },
    AttachShader { program: u32, shader: u32 },
    DetachShader { program: u32, shader: u32 },
    LinkProgram { program: u32 },
    ProgramLogLength { program: u32, length: i32 },
    ProgramInfoLog { program: u32, capacity: nat, log: Seq<u8> },
    UniformLocation { program: u32, name: Seq<char>, location: i32 },
    UseProgram { program: u32 },
    DeleteProgram { program: u32 },
    GenBuffer { buffer: u32 },
    BindBuffer { target: u32, buffer: u32 },
    BufferData { target: u32, size: nat, usage: u32 },
    DeleteBuffer { buffer: u32 },
    GenVertexArray { array: u32 },
    BindVertexArray { array: u32 },
    DeleteVertexArray { array: u32 },
    EnableVertexAttribArray { location: u32 },
    DisableVertexAttribArray { location: u32 },
    VertexAttribPointer {
        location: u32,
        count: u8,
        scalar: u32,
        normalized: bool,
        stride: usize,
        offset: usize,
    },
    DrawElements { mode: u32, count: usize, index_type: u32, offset: usize },
    Uniform1f { location: i32, x: u32 },
    Uniform2f { location: i32, x: u32, y: u32 },
    Uniform3f { location: i32, x: u32, y: u32, z: u32 },
    Uniform4f { location: i32, x: u32, y: u32, z: u32, w: u32 },
    UniformMatrix4fv { location: i32, transpose: bool, values: Seq<u32> },
}

/// The entry points of a graphics device.
///
/// `issued` is the history of the requests made through these entry points,
/// oldest first. Each entry point adds its own request to the history, with
/// the answer it returns, and nothing else. Nothing is promised of the
/// answers themselves: which handle is allocated, what a log holds and where
/// a uniform lies is for the device to decide.
///
/// `issued` has a default so that an implementation outside the verifier
/// need not state its history; it is then taken on trust to carry out each
/// request it is handed.
pub trait Device {
    open spec fn issued(&self) -> Seq<Call> {
        arbitrary()
    }

    /// Allocate a shader object of the given kind.
    fn create_shader(&mut self, kind: u32) -> (shader: u32)
        ensures
            final(self).issued() == old(self).issued().push(Call::CreateShader { kind, shader }),
    ;

    /// Replace the source text of a shader object.
    fn shader_source(&mut self, shader: u32, source: &str)
        ensures
            final(self).issued() == old(self).issued().push(
                Call::ShaderSource { shader, source: source@ },
            ),
    ;

    fn compile_shader(&mut self, shader: u32)
        ensures
            final(self).issued() == old(self).issued().push(Call::CompileShader { shader }),
    ;

    /// Length of the shader's compile log, terminator included.
    fn shader_log_length(&mut self, shader: u32) -> (length: i32)
        ensures
            final(self).issued() == old(self).issued().push(
                Call::ShaderLogLength { shader, length },
            ),
    ;

    /// Write the shader's compile log over `log`, whose length on entry is
    /// the room on offer.
    fn shader_info_log(&mut self, shader: u32, log: &mut Vec<u8>)
        ensures
            final(self).issued() == old(self).issued().push(
                Call::ShaderInfoLog {
                    shader,
                    capacity: old(log)@.len(),
                    log: final(log)@,
                },
            ),
    ;

    fn delete_shader(&mut self, shader: u32)
        ensures
            final(self).issued() == old(self).issued().push(Call::DeleteShader { shader }),
    ;

    /// Allocate a program object.
    fn create_program(&mut self) -> (program: u32)
        ensures
            final(self).issued() == old(self).issued().push(Call::CreateProgram { program }),
    ;

    fn attach_shader(&mut self, program: u32, shader: u32)
        ensures
            final(self).issued() == old(self).issued().push(
                Call::AttachShader { program, shader },
            ),
    ;

    fn detach_shader(&mut self, program: u32, shader: u32)
        ensures
            final(self).issued() == old(self).issued().push(
                Call::DetachShader { program, shader },
            ),
    ;

    fn link_program(&mut self, program: u32)
        ensures
            final(self).issued() == old(self).issued().push(Call::LinkProgram { program }),
    ;

    /// Length of the program's link log, terminator included.
    fn program_log_length(&mut self, program: u32) -> (length: i32)
        ensures
            final(self).issued() == old(self).issued().push(
                Call::ProgramLogLength { program, length },
            ),
    ;

    /// Write the program's link log over `log`, whose length on entry is the
    /// room on offer.
    fn program_info_log(&mut self, program: u32, log: &mut Vec<u8>)
        ensures
            final(self).issued() == old(self).issued().push(
                Call::ProgramInfoLog {
                    program,
                    capacity: old(log)@.len(),
                    log: final(log)@,
                },
            ),
    ;

    /// Where the named uniform of a linked program lies; negative where the
    /// program has no such uniform.
    fn uniform_location(&mut self, program: u32, name: &str) -> (location: i32)
        ensures
            final(self).issued() == old(self).issued().push(
                Call::UniformLocation { program, name: name@, location },
            ),
    ;

    /// Make a program current; `0` makes none current.
    fn use_program(&mut self, program: u32)
        ensures
            final(self).issued() == old(self).issued().push(Call::UseProgram { program }),
    ;

    fn delete_program(&mut self, program: u32)
        ensures
            final(self).issued() == old(self).issued().push(Call::DeleteProgram { program }),
    ;

    /// Allocate one buffer object.
    fn gen_buffer(&mut self) -> (buffer: u32)
        ensures
            final(self).issued() == old(self).issued().push(Call::GenBuffer { buffer }),
    ;

    /// Bind a buffer to a target; `0` leaves the target unbound.
    fn bind_buffer(&mut self, target: u32, buffer: u32)
        ensures
            final(self).issued() == old(self).issued().push(Call::BindBuffer { target, buffer }),
    ;

    /// Upload the bytes of `data` to the buffer bound to `target`.
    fn buffer_data<T>(&mut self, target: u32, data: &[T], usage: u32)
        ensures
            final(self).issued() == old(self).issued().push(
                Call::BufferData {
                    target,
                    size: data@.len() * vstd::layout::size_of::<T>(),
                    usage,
                },
            ),
    ;

    fn delete_buffer(&mut self, buffer: u32)
        ensures
            final(self).issued() == old(self).issued().push(Call::DeleteBuffer { buffer }),
    ;

    /// Allocate one vertex array object.
    fn gen_vertex_array(&mut self) -> (array: u32)
        ensures
            final(self).issued() == old(self).issued().push(Call::GenVertexArray { array }),
    ;

    /// Make a vertex array current; `0` makes none current.
    fn bind_vertex_array(&mut self, array: u32)
        ensures
            final(self).issued() == old(self).issued().push(Call::BindVertexArray { array }),
    ;

    fn delete_vertex_array(&mut self, array: u32)
        ensures
            final(self).issued() == old(self).issued().push(Call::DeleteVertexArray { array }),
    ;

    fn enable_vertex_attrib_array(&mut self, location: u32)
        ensures
            final(self).issued() == old(self).issued().push(
                Call::EnableVertexAttribArray { location },
            ),
    ;

    fn disable_vertex_attrib_array(&mut self, location: u32)
        ensures
            final(self).issued() == old(self).issued().push(
                Call::DisableVertexAttribArray { location },
            ),
    ;

    /// Say how the attribute at `location` is read from the bound vertex
    /// buffer: `count` scalars of kind `scalar`, starting `offset` bytes into
    /// each record, records `stride` bytes apart.
    fn vertex_attrib_pointer(
        &mut self,
        location: u32,
        count: u8,
        scalar: u32,
        normalized: bool,
        stride: usize,
        offset: usize,
    )
        ensures
            final(self).issued() == old(self).issued().push(
                Call::VertexAttribPointer { location, count, scalar, normalized, stride, offset },
            ),
    ;

    /// Draw `count` indices of the bound index buffer, read as `index_type`
    /// from `offset` bytes into it, as primitives of kind `mode`.
    fn draw_elements(&mut self, mode: u32, count: usize, index_type: u32, offset: usize)
        ensures
            final(self).issued() == old(self).issued().push(
                Call::DrawElements { mode, count, index_type, offset },
            ),
    ;

    fn uniform_1f(&mut self, location: i32, x: u32)
        ensures
            final(self).issued() == old(self).issued().push(Call::Uniform1f { location, x }),
    ;

    fn uniform_2f(&mut self, location: i32, x: u32, y: u32)
        ensures
            final(self).issued() == old(self).issued().push(Call::Uniform2f { location, x, y }),
    ;

    fn uniform_3f(&mut self, location: i32, x: u32, y: u32, z: u32)
        ensures
            final(self).issued() == old(self).issued().push(Call::Uniform3f { location, x, y, z }),
    ;

    fn uniform_4f(&mut self, location: i32, x: u32, y: u32, z: u32, w: u32)
        ensures
            final(self).issued() == old(self).issued().push(
                Call::Uniform4f { location, x, y, z, w },
            ),
    ;

    /// Write one four-by-four matrix, its sixteen values in column order
    /// unless `transpose` is set.
    fn uniform_matrix_4fv(&mut self, location: i32, transpose: bool, values: &[u32; 16])
        ensures
            final(self).issued() == old(self).issued().push(
                Call::UniformMatrix4fv { location, transpose, values: values@ },
            ),
    ;
}

/// The requests of `after` behind those of `before`.
pub open spec fn added(before: Seq<Call>, after: Seq<Call>) -> Seq<Call> {
    after.skip(before.len() as int)
}

/// A history that begins with `before` is `before` and what was added.
pub proof fn lemma_added(before: Seq<Call>, after: Seq<Call>)
    requires
        before.is_prefix_of(after),
    ensures
        after == before + added(before, after),
{
}

/// A history with requests added begins with the history, and what was
/// added are those requests.
pub proof fn lemma_extended(before: Seq<Call>, calls: Seq<Call>)
    ensures
        before.is_prefix_of(before + calls),
        added(before, before + calls) == calls,
{
}

/// The device handle. Every component borrows it to reach the device.
pub struct Gl<D: Device> {
    pub device: D,
}

impl<D: Device> Gl<D> {
    /// The requests made of the device so far, oldest first.
    pub open spec fn issued(&self) -> Seq<Call> {
        self.device.issued()
    }

    /// Take hold of a device whose entry points are loaded.
    pub fn load_with(device: D) -> (gl: Self)
        ensures
            gl.device == device,
    {
        Gl { device }
    }
}

} // verus!
