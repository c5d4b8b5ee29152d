//! A device in software: it keeps every request it is handed, and answers
//! from a script.
//!
//! Handles count up from one. Every compile leaves the compile log of the
//! script and every link the link log; an empty log is a success. A program
//! has the uniforms of the script and no others.

use vstd::prelude::*;
use vstd::hash_map::StringHashMap;
use vstd::slice::slice_to_vec;
use crate::device::{Call, Device};

verus! {

/// One request as the recorder keeps it, with the recorder's answer where
/// the request has one.
#[derive(Debug, PartialEq, Eq)]
#[allow(inconsistent_fields)]
pub enum Request {
    CreateShader { kind: u32, shader: u32 },
    ShaderSource { shader: u32, source: String },
    CompileShader { shader: u32 },
    ShaderLogLength { shader: u32, length: i32 },
    ShaderInfoLog { shader: u32, capacity: usize, log: Vec<u8> },
    DeleteShader { shader: u32 },
    CreateProgram { program: u32 },
    AttachShader { program: u32, shader: u32 },
    DetachShader { program: u32, shader: u32 },
    LinkProgram { program: u32 },
    ProgramLogLength { program: u32, length: i32 },
    ProgramInfoLog { program: u32, capacity: usize, log: Vec<u8> },
    UniformLocation { program: u32, name: String, location: i32 },
    UseProgram { program: u32 },
    DeleteProgram { program: u32 },
    GenBuffer { buffer: u32 },
    BindBuffer { target: u32, buffer: u32 },
    BufferData { target: u32, size: usize, usage: u32 },
    DeleteBuffer { buffer: u32 },
    GenVertexArray { array: u32 },
    BindVertexArray { array: u32 },
    DeleteVertexArray { array: u32 },
    EnableVertexAttribArray { location: u32 },
    DisableVertexAttribArray { location: u32 },
    VertexAttribPointer {
        location: u32,
        count: u8,
        scalar: u32,
        normalized: bool,
        stride: usize,
        offset: usize,
    },
    DrawElements { mode: u32, count: usize, index_type: u32, offset: usize },
    Uniform1f { location: i32, x: u32 },
    Uniform2f { location: i32, x: u32, y: u32 },
    Uniform3f { location: i32, x: u32, y: u32, z: u32 },
    Uniform4f { location: i32, x: u32, y: u32, z: u32, w: u32 },
    UniformMatrix4fv { location: i32, transpose: bool, values: [u32; 16] },
}

impl View for Request {
    type V = Call;

    open spec fn view(&self) -> Call {
        match *self {
            Request::CreateShader { kind, shader } => Call::CreateShader { kind, shader },
            Request::ShaderSource { shader, source } => Call::ShaderSource { shader, source: source@ },
            Request::CompileShader { shader } => Call::CompileShader { shader },
            Request::ShaderLogLength { shader, length } => Call::ShaderLogLength { shader, length },
            Request::ShaderInfoLog { shader, capacity, log } => Call::ShaderInfoLog {
                shader,
                capacity: capacity as nat,
                log: log@,
            },
            Request::DeleteShader { shader } => Call::DeleteShader { shader },
            Request::CreateProgram { program } => Call::CreateProgram { program },
            Request::AttachShader { program, shader } => Call::AttachShader { program, shader },
            Request::DetachShader { program, shader } => Call::DetachShader { program, shader },
            Request::LinkProgram { program } => Call::LinkProgram { program },
            Request::ProgramLogLength { program, length } => Call::ProgramLogLength {
                program,
                length,
            },
            Request::ProgramInfoLog { program, capacity, log } => Call::ProgramInfoLog {
                program,
                capacity: capacity as nat,
                log: log@,
            },
            Request::UniformLocation { program, name, location } => Call::UniformLocation {
                program,
                name: name@,
                location,
            },
            Request::UseProgram { program } => Call::UseProgram { program },
            Request::DeleteProgram { program } => Call::DeleteProgram { program },
            Request::GenBuffer { buffer } => Call::GenBuffer { buffer },
            Request::BindBuffer { target, buffer } => Call::BindBuffer { target, buffer },
            Request::BufferData { target, size, usage } => Call::BufferData {
                target,
                size: size as nat,
                usage,
            },
            Request::DeleteBuffer { buffer } => Call::DeleteBuffer { buffer },
            Request::GenVertexArray { array } => Call::GenVertexArray { array },
            Request::BindVertexArray { array } => Call::BindVertexArray { array },
            Request::DeleteVertexArray { array } => Call::DeleteVertexArray { array },
            Request::EnableVertexAttribArray { location } => Call::EnableVertexAttribArray {
                location,
            },
            Request::DisableVertexAttribArray { location } => Call::DisableVertexAttribArray {
                location,
            },
            Request::VertexAttribPointer { location, count, scalar, normalized, stride, offset } => {
                Call::VertexAttribPointer { location, count, scalar, normalized, stride, offset }
            },
            Request::DrawElements { mode, count, index_type, offset } => Call::DrawElements {
                mode,
                count,
                index_type,
                offset,
            },
            Request::Uniform1f { location, x } => Call::Uniform1f { location, x },
            Request::Uniform2f { location, x, y } => Call::Uniform2f { location, x, y },
            Request::Uniform3f { location, x, y, z } => Call::Uniform3f { location, x, y, z },
            Request::Uniform4f { location, x, y, z, w } => Call::Uniform4f { location, x, y, z, w },
            Request::UniformMatrix4fv { location, transpose, values } => Call::UniformMatrix4fv {
                location,
                transpose,
                values: values@,
            },
        }
    }
}

/// Requests as values, in order.
pub open spec fn calls_of(requests: Seq<Request>) -> Seq<Call> {
    requests.map_values(|request: Request| request@)
}

/// A buffer after a log was written over it: the log as far as the buffer
/// reaches, behind it the buffer as it was.
pub open spec fn written_over(buffer: Seq<u8>, log: Seq<u8>) -> Seq<u8> {
    Seq::new(
        buffer.len(),
        |i: int|
            if i < log.len() {
                log[i]
            } else {
                buffer[i]
            },
    )
}

/// The length of a log as the device reports it: the number of its bytes, as
/// far as 32 bits with a sign can say.
pub open spec fn reported_length(log: Seq<u8>) -> i32 {
    if log.len() <= i32::MAX {
        log.len() as i32
    } else {
        i32::MAX
    }
}

/// Write a log over a buffer.
fn write_over(buffer: &mut Vec<u8>, log: &Vec<u8>)
    ensures
        final(buffer)@ == written_over(old(buffer)@, log@),
{
    let n = if log.len() < buffer.len() {
        log.len()
    } else {
        buffer.len()
    };
    let mut i: usize = 0;
    while i < n
        invariant
            n <= log@.len(),
            n <= buffer@.len(),
            i <= n,
            buffer@.len() == old(buffer)@.len(),
            forall|j: int| 0 <= j < i ==> buffer@[j] == log@[j],
            forall|j: int| i <= j < buffer@.len() ==> buffer@[j] == old(buffer)@[j],
        decreases n - i,
    {
        buffer[i] = log[i];
        i += 1;
    }
}

/// The length of a log as the device reports it.
fn report_length(log: &Vec<u8>) -> (length: i32)
    ensures
        length == reported_length(log@),
{
    if log.len() <= i32::MAX as usize {
        log.len() as i32
    } else {
        i32::MAX
    }
}

/// A device in software.
pub struct Recorder {
    requests: Vec<Request>,
    last_handle: u32,
    compile_log: Vec<u8>,
    link_log: Vec<u8>,
    uniforms: StringHashMap<i32>,
}

/// What a recorder answers from.
pub struct Script {
    /// The handle handed out last; zero where none was.
    pub last_handle: u32,
    /// The log that every compile leaves, terminator included.
    pub compile_log: Seq<u8>,
    /// The log that every link leaves, terminator included.
    pub link_log: Seq<u8>,
    /// The uniforms that every program has, with their locations.
    pub uniforms: Map<Seq<char>, i32>,
}

impl Script {
    /// The handle that is handed out next: one more than the last, as long
    /// as there is one more.
    pub open spec fn next_handle(self) -> u32 {
        if self.last_handle < u32::MAX {
            (self.last_handle + 1) as u32
        } else {
            u32::MAX
        }
    }

    /// Where the script has a uniform; `-1` where it has none of that name.
    pub open spec fn location(self, name: Seq<char>) -> i32 {
        if self.uniforms.contains_key(name) {
            self.uniforms[name]
        } else {
            -1i32
        }
    }
}

impl Recorder {
    /// The script as it stands.
    pub closed spec fn script(&self) -> Script {
        Script {
            last_handle: self.last_handle,
            compile_log: self.compile_log@,
            link_log: self.link_log@,
            uniforms: self.uniforms@,
        }
    }

    /// A recorder that was asked nothing yet, on which every compile and
    /// every link succeeds, and whose programs have no uniforms.
    pub fn new() -> (recorder: Self)
        ensures
            recorder.issued() == Seq::<Call>::empty(),
            recorder.script() == (Script {
                last_handle: 0,
                compile_log: Seq::empty(),
                link_log: Seq::empty(),
                uniforms: Map::empty(),
            }),
    {
        let recorder = Recorder {
            requests: Vec::new(),
            last_handle: 0,
            compile_log: Vec::new(),
            link_log: Vec::new(),
            uniforms: StringHashMap::new(),
        };
        recorder
    }

    /// The same recorder, on which every compile leaves `log`.
    pub fn with_compile_log(self, log: Vec<u8>) -> (recorder: Self)
        ensures
            recorder.issued() == self.issued(),
            recorder.script() == (Script { compile_log: log@, ..self.script() }),
    {
        Recorder { compile_log: log, ..self }
    }

    /// The same recorder, on which every link leaves `log`.
    pub fn with_link_log(self, log: Vec<u8>) -> (recorder: Self)
        ensures
            recorder.issued() == self.issued(),
            recorder.script() == (Script { link_log: log@, ..self.script() }),
    {
        Recorder { link_log: log, ..self }
    }

    /// The same recorder, whose programs have one more uniform.
    pub fn with_uniform(self, name: String, location: i32) -> (recorder: Self)
        ensures
            recorder.issued() == self.issued(),
            recorder.script() == (Script {
                uniforms: self.script().uniforms.insert(name@, location),
                ..self.script()
            }),
    {
        let mut recorder = self;
        recorder.uniforms.insert(name, location);
        recorder
    }

    /// Every request so far, oldest first.
    pub fn requests(&self) -> (requests: &Vec<Request>)
        ensures
            calls_of(requests@) == self.issued(),
    {
        &self.requests
    }

    /// Hand out the next handle.
    fn allocate(&mut self) -> (handle: u32)
        ensures
            handle == old(self).script().next_handle(),
            final(self).script() == (Script { last_handle: handle, ..old(self).script() }),
            final(self).requests == old(self).requests,
    {
        if self.last_handle < u32::MAX {
            self.last_handle = self.last_handle + 1;
        }
        self.last_handle
    }

    /// Keep a request.
    fn keep(&mut self, request: Request)
        ensures
            final(self).issued() == old(self).issued().push(request@),
            final(self).script() == old(self).script(),
    {
        self.requests.push(request);
    }
}

impl Device for Recorder {
    closed spec fn issued(&self) -> Seq<Call> {
        calls_of(self.requests@)
    }

    fn create_shader(&mut self, kind: u32) -> (shader: u32)
        ensures
            shader == old(self).script().next_handle(),
            final(self).script() == (Script { last_handle: shader, ..old(self).script() }),
    {
        let shader = self.allocate();
        self.keep(Request::CreateShader { kind, shader });
        shader
    }

    fn shader_source(&mut self, shader: u32, source: &str)
        ensures
            final(self).script() == old(self).script(),
    {
        self.keep(Request::ShaderSource { shader, source: source.to_owned() });
    }

    fn compile_shader(&mut self, shader: u32)
        ensures
            final(self).script() == old(self).script(),
    {
        self.keep(Request::CompileShader { shader });
    }

    fn shader_log_length(&mut self, shader: u32) -> (length: i32)
        ensures
            length == reported_length(old(self).script().compile_log),
            final(self).script() == old(self).script(),
    {
        let length = report_length(&self.compile_log);
        self.keep(Request::ShaderLogLength { shader, length });
        length
    }

    fn shader_info_log(&mut self, shader: u32, log: &mut Vec<u8>)
        ensures
            final(log)@ == written_over(old(log)@, old(self).script().compile_log),
            final(self).script() == old(self).script(),
    {
        let capacity = log.len();
        write_over(log, &self.compile_log);
        self.keep(Request::ShaderInfoLog { shader, capacity, log: slice_to_vec(log.as_slice()) });
    }

    fn delete_shader(&mut self, shader: u32)
        ensures
            final(self).script() == old(self).script(),
    {
        self.keep(Request::DeleteShader { shader });
    }

    fn create_program(&mut self) -> (program: u32)
        ensures
            program == old(self).script().next_handle(),
            final(self).script() == (Script { last_handle: program, ..old(self).script() }),
    {
        let program = self.allocate();
        self.keep(Request::CreateProgram { program });
        program
    }

    fn attach_shader(&mut self, program: u32, shader: u32)
        ensures
            final(self).script() == old(self).script(),
    {
        self.keep(Request::AttachShader { program, shader });
    }

    fn detach_shader(&mut self, program: u32, shader: u32)
        ensures
            final(self).script() == old(self).script(),
    {
        self.keep(Request::DetachShader { program, shader });
    }

    fn link_program(&mut self, program: u32)
        ensures
            final(self).script() == old(self).script(),
    {
        self.keep(Request::LinkProgram { program });
    }

    fn program_log_length(&mut self, program: u32) -> (length: i32)
        ensures
            length == reported_length(old(self).script().link_log),
            final(self).script() == old(self).script(),
    {
        let length = report_length(&self.link_log);
        self.keep(Request::ProgramLogLength { program, length });
        length
    }

    fn program_info_log(&mut self, program: u32, log: &mut Vec<u8>)
        ensures
            final(log)@ == written_over(old(log)@, old(self).script().link_log),
            final(self).script() == old(self).script(),
    {
        let capacity = log.len();
        write_over(log, &self.link_log);
        self.keep(Request::ProgramInfoLog { program, capacity, log: slice_to_vec(log.as_slice()) });
    }

    fn uniform_location(&mut self, program: u32, name: &str) -> (location: i32)
        ensures
            location == old(self).script().location(name@),
            final(self).script() == old(self).script(),
    {
        let location = match self.uniforms.get(name) {
            Some(location) => *location,
            None => -1,
        };
        self.keep(Request::UniformLocation { program, name: name.to_owned(), location });
        location
    }

    fn use_program(&mut self, program: u32)
        ensures
            final(self).script() == old(self).script(),
    {
        self.keep(Request::UseProgram { program });
    }

    fn delete_program(&mut self, program: u32)
        ensures
            final(self).script() == old(self).script(),
    {
        self.keep(Request::DeleteProgram { program });
    }

    fn gen_buffer(&mut self) -> (buffer: u32)
        ensures
            buffer == old(self).script().next_handle(),
            final(self).script() == (Script { last_handle: buffer, ..old(self).script() }),
    {
        let buffer = self.allocate();
        self.keep(Request::GenBuffer { buffer });
        buffer
    }

    fn bind_buffer(&mut self, target: u32, buffer: u32)
        ensures
            final(self).script() == old(self).script(),
    {
        self.keep(Request::BindBuffer { target, buffer });
    }

    fn buffer_data<T>(&mut self, target: u32, data: &[T], usage: u32)
        ensures
            final(self).script() == old(self).script(),
    {
        broadcast use vstd::layout::layout_of_slices;

        let size = core::mem::size_of_val(data);
        self.keep(Request::BufferData { target, size, usage });
    }

    fn delete_buffer(&mut self, buffer: u32)
        ensures
            final(self).script() == old(self).script(),
    {
        self.keep(Request::DeleteBuffer { buffer });
    }

    fn gen_vertex_array(&mut self) -> (array: u32)
        ensures
            array == old(self).script().next_handle(),
            final(self).script() == (Script { last_handle: array, ..old(self).script() }),
    {
        let array = self.allocate();
        self.keep(Request::GenVertexArray { array });
        array
    }

    fn bind_vertex_array(&mut self, array: u32)
        ensures
            final(self).script() == old(self).script(),
    {
        self.keep(Request::BindVertexArray { array });
    }

    fn delete_vertex_array(&mut self, array: u32)
        ensures
            final(self).script() == old(self).script(),
    {
        self.keep(Request::DeleteVertexArray { array });
    }

    fn enable_vertex_attrib_array(&mut self, location: u32)
        ensures
            final(self).script() == old(self).script(),
    {
        self.keep(Request::EnableVertexAttribArray { location });
    }

    fn disable_vertex_attrib_array(&mut self, location: u32)
        ensures
            final(self).script() == old(self).script(),
    {
        self.keep(Request::DisableVertexAttribArray { location });
    }

    fn vertex_attrib_pointer(
        &mut self,
        location: u32,
        count: u8,
        scalar: u32,
        normalized: bool,
        stride: usize,
        offset: usize,
    )
        ensures
            final(self).script() == old(self).script(),
    {
        self.keep(
            Request::VertexAttribPointer { location, count, scalar, normalized, stride, offset },
        );
    }

    fn draw_elements(&mut self, mode: u32, count: usize, index_type: u32, offset: usize)
        ensures
            final(self).script() == old(self).script(),
    {
        self.keep(Request::DrawElements { mode, count, index_type, offset });
    }

    fn uniform_1f(&mut self, location: i32, x: u32)
        ensures
            final(self).script() == old(self).script(),
    {
        self.keep(Request::Uniform1f { location, x });
    }

    fn uniform_2f(&mut self, location: i32, x: u32, y: u32)
        ensures
            final(self).script() == old(self).script(),
    {
        self.keep(Request::Uniform2f { location, x, y });
    }

    fn uniform_3f(&mut self, location: i32, x: u32, y: u32, z: u32)
        ensures
            final(self).script() == old(self).script(),
    {
        self.keep(Request::Uniform3f { location, x, y, z });
    }

    fn uniform_4f(&mut self, location: i32, x: u32, y: u32, z: u32, w: u32)
        ensures
            final(self).script() == old(self).script(),
    {
        self.keep(Request::Uniform4f { location, x, y, z, w });
    }

    fn uniform_matrix_4fv(&mut self, location: i32, transpose: bool, values: &[u32; 16])
        ensures
            final(self).script() == old(self).script(),
    {
        self.keep(Request::UniformMatrix4fv { location, transpose, values: *values });
    }
}

} // verus!
