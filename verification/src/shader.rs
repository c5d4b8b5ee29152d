//! Shaders and shader programs.
//!
//! A shader is compiled from source text; a program is linked from shaders
//! and keeps, by name, the locations of the uniforms it was asked to find.
//! A compile or link that leaves a log fails with the text of the log.

use vstd::prelude::*;
use vstd::hash_map::StringHashMap;
use crate::device::{added, lemma_added, lemma_extended, Call, Device, Gl};
use crate::gl;
use crate::log::{create_empty_vec_cstr, create_str_from_raw_cstr, log_text};
use crate::uniform::Uniform;

verus! {

/// Why a shader or a program could not be built. Either carries the whole
/// log of the device, without its terminator.
#[derive(Debug, PartialEq, Eq)]
pub enum ShaderError {
    CompileError(String),
    LinkError(String),
}

/// A `ShaderError` as a value.
pub enum ShaderErrorView {
    CompileError(Seq<char>),
    LinkError(Seq<char>),
}

impl View for ShaderError {
    type V = ShaderErrorView;

    open spec fn view(&self) -> ShaderErrorView {
        match self {
            ShaderError::CompileError(text) => ShaderErrorView::CompileError(text@),
            ShaderError::LinkError(text) => ShaderErrorView::LinkError(text@),
        }
    }
}

/// What came of reading a log, as a value.
pub open spec fn checked(outcome: Result<(), ShaderError>) -> Result<(), ShaderErrorView> {
    match outcome {
        Ok(()) => Ok(()),
        Err(e) => Err(e@),
    }
}

impl ShaderError {
    /// The log that the device left.
    pub fn message(&self) -> (text: &String)
        ensures
            self@ == ShaderErrorView::CompileError(text@) || self@ == ShaderErrorView::LinkError(
                text@,
            ),
    {
        match self {
            ShaderError::CompileError(text) => text,
            ShaderError::LinkError(text) => text,
        }
    }
}

/// The requests by which a shader's compile log is read, and what the log
/// means. The device is asked for the length of the log. A length of zero or
/// less is success. Otherwise the device is offered a buffer of exactly that
/// length, and the text of what it wrote is a compile error.
pub open spec fn compile_check(shader: u32, calls: Seq<Call>, outcome: Result<(), ShaderErrorView>) -> bool {
    calls.len() >= 1 && match calls[0] {
        Call::ShaderLogLength { shader: asked, length } => asked == shader && if length > 0 {
            calls.len() == 2 && match calls[1] {
                Call::ShaderInfoLog { shader: read, capacity, log } => read == shader && capacity
                    == length && outcome == Err::<(), _>(
                    ShaderErrorView::CompileError(log_text(log)),
                ),
                _ => false,
            }
        } else {
            calls.len() == 1 && outcome is Ok
        },
        _ => false,
    }
}

/// The requests by which a shader is built from source, and what comes of
/// it. A shader object of the given kind is allocated, given the source and
/// compiled, and its log is read. Where the log means an error, the shader
/// object is released again.
pub open spec fn compiles(
    kind: u32,
    source: Seq<char>,
    calls: Seq<Call>,
    outcome: Result<u32, ShaderErrorView>,
) -> bool {
    calls.len() >= 4 && match calls[0] {
        Call::CreateShader { kind: asked, shader } => {
            &&& asked == kind
            &&& calls[1] == Call::ShaderSource { shader, source }
            &&& calls[2] == Call::CompileShader { shader }
            &&& match outcome {
                Ok(made) => made == shader && compile_check(shader, calls.skip(3), Ok(())),
                Err(e) => calls.last() == Call::DeleteShader { shader } && compile_check(
                    shader,
                    calls.subrange(3, calls.len() - 1),
                    Err(e),
                ),
            }
        },
        _ => false,
    }
}

/// What came of building a shader, as a value: the handle of the shader, or
/// the error.
pub open spec fn compiled(outcome: Result<Shader, ShaderError>) -> Result<u32, ShaderErrorView> {
    match outcome {
        Ok(shader) => Ok(shader@),
        Err(e) => Err(e@),
    }
}

/// A shader object of the device.
///
/// The wrapper is the one owner of the object: it cannot be copied, and
/// `destroy` takes it.
pub struct Shader {
    id: u32,
}

impl View for Shader {
    type V = u32;

    /// The handle of the shader object.
    closed spec fn view(&self) -> u32 {
        self.id
    }
}

impl Shader {
    /// Allocate a shader object of the given kind.
    fn new<D: Device>(gl: &mut Gl<D>, shader_type: u32) -> (shader: Shader)
        ensures
            final(gl).issued() == old(gl).issued().push(
                Call::CreateShader { kind: shader_type, shader: shader@ },
            ),
    {
        Shader { id: gl.device.create_shader(shader_type) }
    }

    /// Build a shader of the given kind from source text.
    ///
    /// Fails with the compile log exactly where the device reports a log of
    /// positive length; the shader object is then released.
    pub fn new_from_source<D: Device>(gl: &mut Gl<D>, shader_type: u32, source: &str) -> (outcome:
        Result<Shader, ShaderError>)
        ensures
            old(gl).issued().is_prefix_of(final(gl).issued()),
            compiles(
                shader_type,
                source@,
                added(old(gl).issued(), final(gl).issued()),
                compiled(outcome),
            ),
    {
        let shader = Shader::new(gl, shader_type);
        gl.device.shader_source(shader.id, source);
        gl.device.compile_shader(shader.id);
        let ghost begun = seq![
            Call::CreateShader { kind: shader_type, shader: shader@ },
            Call::ShaderSource { shader: shader@, source: source@ },
            Call::CompileShader { shader: shader@ },
        ];
        let ghost mid = gl.issued();
        assert(mid =~= old(gl).issued() + begun);
        let checked = shader.check_compile_error(gl);
        let ghost read = gl.issued();
        let ghost check = added(mid, read);
        proof {
            lemma_added(mid, read);
        }
        match checked {
            Ok(()) => {
                proof {
                    assert(read =~= old(gl).issued() + (begun + check));
                    lemma_extended(old(gl).issued(), begun + check);
                }
                Ok(shader)
            },
            Err(e) => {
                let ghost last = Call::DeleteShader { shader: shader@ };
                shader.destroy(gl);
                proof {
                    let calls = begun + check + seq![last];
                    lemma_extended(old(gl).issued(), calls);
                    assert(calls.subrange(3, calls.len() - 1) =~= check);
                }
                Err(e)
            },
        }
    }

    /// Read the compile log and say what it means.
    fn check_compile_error<D: Device>(&self, gl: &mut Gl<D>) -> (outcome: Result<(), ShaderError>)
        ensures
            old(gl).issued().is_prefix_of(final(gl).issued()),
            compile_check(self@, added(old(gl).issued(), final(gl).issued()), checked(outcome)),
    {
        let info_log_length = gl.device.shader_log_length(self.id);
        if info_log_length > 0 {
            let mut info_log_raw = create_empty_vec_cstr(info_log_length as usize);
            gl.device.shader_info_log(self.id, &mut info_log_raw);
            return Err(ShaderError::CompileError(create_str_from_raw_cstr(info_log_raw)));
        }
        Ok(())
    }

    /// The handle of the shader object.
    pub fn id(&self) -> (id: u32)
        ensures
            id == self@,
    {
        self.id
    }

    /// Release the shader object.
    pub fn destroy<D: Device>(self, gl: &mut Gl<D>)
        ensures
            final(gl).issued() == old(gl).issued().push(Call::DeleteShader { shader: self@ }),
    {
        gl.device.delete_shader(self.id);
    }
}

/// The handles of shaders, in order.
pub open spec fn handles(shaders: Seq<Shader>) -> Seq<u32> {
    shaders.map_values(|shader: Shader| shader@)
}

/// Names as values, in order.
pub open spec fn texts(names: Seq<String>) -> Seq<Seq<char>> {
    names.map_values(|name: String| name@)
}

/// The requests that attach shaders to a program, in order.
pub open spec fn attach_calls(program: u32, shaders: Seq<u32>) -> Seq<Call> {
    Seq::new(shaders.len(), |i: int| Call::AttachShader { program, shader: shaders[i] })
}

/// The requests that detach shaders from a program and release them, each
/// shader released right after it is detached.
pub open spec fn detach_calls(program: u32, shaders: Seq<u32>) -> Seq<Call> {
    Seq::new(
        2 * shaders.len(),
        |i: int|
            if i % 2 == 0 {
                Call::DetachShader { program, shader: shaders[i / 2] }
            } else {
                Call::DeleteShader { shader: shaders[i / 2] }
            },
    )
}

/// The requests that release shaders, in order.
pub open spec fn delete_calls(shaders: Seq<u32>) -> Seq<Call> {
    Seq::new(shaders.len(), |i: int| Call::DeleteShader { shader: shaders[i] })
}

/// The requests by which a program's link log is read, and what the log
/// means: as for a shader's compile log, with a link error.
pub open spec fn link_check(program: u32, calls: Seq<Call>, outcome: Result<(), ShaderErrorView>) -> bool {
    calls.len() >= 1 && match calls[0] {
        Call::ProgramLogLength { program: asked, length } => asked == program && if length > 0 {
            calls.len() == 2 && match calls[1] {
                Call::ProgramInfoLog { program: read, capacity, log } => read == program
                    && capacity == length && outcome == Err::<(), _>(
                    ShaderErrorView::LinkError(log_text(log)),
                ),
                _ => false,
            }
        } else {
            calls.len() == 1 && outcome is Ok
        },
        _ => false,
    }
}

/// The requests ask a program for the locations of the names, one request
/// for each name, in order.
pub open spec fn looks_up(program: u32, names: Seq<Seq<char>>, calls: Seq<Call>) -> bool {
    &&& calls.len() == names.len()
    &&& forall|i: int|
        0 <= i < calls.len() ==> match #[trigger] calls[i] {
            Call::UniformLocation { program: asked, name, location } => asked == program && name
                == names[i],
            _ => false,
        }
}

/// The uniform table that lookups leave: a name is in it, with the location
/// that the device gave, where that location is not negative.
pub open spec fn uniform_table(calls: Seq<Call>) -> Map<Seq<char>, i32>
    decreases calls.len(),
{
    if calls.len() == 0 {
        Map::empty()
    } else {
        let table = uniform_table(calls.drop_last());
        match calls.last() {
            Call::UniformLocation { program, name, location } => if location >= 0 {
                table.insert(name, location)
            } else {
                table
            },
            _ => table,
        }
    }
}

/// The requests by which a program is built from shaders, and what comes of
/// it.
///
/// A program object is allocated, every shader is attached, the program is
/// linked and its log is read. Where the log means an error, the program
/// object is released and then every shader, still attached. Otherwise each
/// shader is detached and released, and the program is asked for the
/// location of every name; the answers make the uniform table.
pub open spec fn links(
    shaders: Seq<u32>,
    names: Seq<Seq<char>>,
    calls: Seq<Call>,
    outcome: Result<ProgramView, ShaderErrorView>,
) -> bool {
    let n = shaders.len() as int;
    calls.len() >= n + 3 && match calls[0] {
        Call::CreateProgram { program } => {
            &&& calls.subrange(1, n + 1) == attach_calls(program, shaders)
            &&& calls[n + 1] == Call::LinkProgram { program }
            &&& match outcome {
                Ok(made) => {
                    &&& made.id == program
                    &&& link_check(program, calls.subrange(n + 2, n + 3), Ok(()))
                    &&& calls.len() == 3 * n + 3 + names.len()
                    &&& calls.subrange(n + 3, 3 * n + 3) == detach_calls(program, shaders)
                    &&& looks_up(program, names, calls.skip(3 * n + 3))
                    &&& made.uniforms == uniform_table(calls.skip(3 * n + 3))
                },
                Err(e) => {
                    &&& calls.len() == 2 * n + 5
                    &&& link_check(program, calls.subrange(n + 2, n + 4), Err(e))
                    &&& calls[n + 4] == Call::DeleteProgram { program }
                    &&& calls.skip(n + 5) == delete_calls(shaders)
                },
            }
        },
        _ => false,
    }
}

/// A shader program as a value: its handle and its uniform table.
pub struct ProgramView {
    pub id: u32,
    pub uniforms: Map<Seq<char>, i32>,
}

/// What came of building a program, as a value: the program, or the
/// error.
pub open spec fn linked(outcome: Result<ShaderProgram, ShaderError>) -> Result<
    ProgramView,
    ShaderErrorView,
> {
    match outcome {
        Ok(program) => Ok(program@),
        Err(e) => Err(e@),
    }
}

/// A program object of the device, with the locations of its uniforms by
/// name.
///
/// The table is filled once, when the program is linked, and never asked of
/// the device again. A name that the device did not find is not in it.
pub struct ShaderProgram {
    id: u32,
    uniforms: StringHashMap<i32>,
}

impl View for ShaderProgram {
    type V = ProgramView;

    closed spec fn view(&self) -> ProgramView {
        ProgramView { id: self.id, uniforms: self.uniforms@ }
    }
}

/// Enter in the table what the device answered for a name: the location,
/// unless it is negative.
fn note_uniform(uniforms: &mut StringHashMap<i32>, name: String, location: i32)
    ensures
        final(uniforms)@ == if location >= 0 {
            old(uniforms)@.insert(name@, location)
        } else {
            old(uniforms)@
        },
{
    if location >= 0 {
        uniforms.insert(name, location);
    }
}

impl ShaderProgram {
    /// Allocate a program object, with a uniform table to fill.
    fn new<D: Device>(gl: &mut Gl<D>, uniforms: StringHashMap<i32>) -> (program: ShaderProgram)
        ensures
            final(gl).issued() == old(gl).issued().push(Call::CreateProgram { program: program@.id }),
            program@.uniforms == uniforms@,
    {
        ShaderProgram { id: gl.device.create_program(), uniforms }
    }

    /// Read the link log and say what it means.
    fn check_link_error<D: Device>(&self, gl: &mut Gl<D>) -> (outcome: Result<(), ShaderError>)
        ensures
            old(gl).issued().is_prefix_of(final(gl).issued()),
            link_check(self@.id, added(old(gl).issued(), final(gl).issued()), checked(outcome)),
    {
        let info_log_length = gl.device.program_log_length(self.id);
        if info_log_length > 0 {
            let mut info_log_raw = create_empty_vec_cstr(info_log_length as usize);
            gl.device.program_info_log(self.id, &mut info_log_raw);
            return Err(ShaderError::LinkError(create_str_from_raw_cstr(info_log_raw)));
        }
        Ok(())
    }

    /// The handle of the program object.
    pub fn id(&self) -> (id: u32)
        ensures
            id == self@.id,
    {
        self.id
    }

    /// Where the named uniform lies, if the device found it when the program
    /// was linked.
    pub fn uniform_location(&self, name: &str) -> (location: Option<i32>)
        ensures
            location == if self@.uniforms.contains_key(name@) {
                Some(self@.uniforms[name@])
            } else {
                None
            },
    {
        match self.uniforms.get(name) {
            Some(location) => Some(*location),
            None => None,
        }
    }

    /// Write a value to the named uniform. A name that is not in the uniform
    /// table is passed over: nothing is asked of the device.
    pub fn set_uniform<D: Device, UniformValue: Uniform>(
        &self,
        gl: &mut Gl<D>,
        name: &str,
        value: UniformValue,
    )
        ensures
            final(gl).issued() == if self@.uniforms.contains_key(name@) {
                old(gl).issued().push(value.request(self@.uniforms[name@]))
            } else {
                old(gl).issued()
            },
    {
        if let Some(location) = self.uniforms.get(name) {
            value.set_uniform(gl, *location);
        }
    }

    /// Make the program the current one.
    pub fn bind<D: Device>(&self, gl: &mut Gl<D>)
        ensures
            final(gl).issued() == old(gl).issued().push(Call::UseProgram { program: self@.id }),
    {
        gl.device.use_program(self.id);
    }

    /// Make no program the current one.
    pub fn unbind_all<D: Device>(gl: &mut Gl<D>)
        ensures
            final(gl).issued() == old(gl).issued().push(Call::UseProgram { program: 0 }),
    {
        gl.device.use_program(0);
    }

    /// Make no program the current one, whichever was.
    pub fn unbind<D: Device>(&self, gl: &mut Gl<D>)
        ensures
            final(gl).issued() == old(gl).issued().push(Call::UseProgram { program: 0 }),
    {
        Self::unbind_all(gl);
    }

    /// Release the program object.
    pub fn destroy<D: Device>(self, gl: &mut Gl<D>)
        ensures
            final(gl).issued() == old(gl).issued().push(Call::DeleteProgram { program: self@.id }),
    {
        gl.device.delete_program(self.id);
    }
}

/// Attach every shader to the program, in order.
fn attach_all<D: Device>(gl: &mut Gl<D>, program: u32, shaders: &Vec<Shader>)
    ensures
        final(gl).issued() == old(gl).issued() + attach_calls(program, handles(shaders@)),
{
    let ghost calls = attach_calls(program, handles(shaders@));
    let n = shaders.len();
    let mut i: usize = 0;
    while i < n
        invariant
            n == shaders@.len(),
            i <= n,
            calls == attach_calls(program, handles(shaders@)),
            gl.issued() == old(gl).issued() + calls.take(i as int),
        decreases n - i,
    {
        gl.device.attach_shader(program, shaders[i].id);
        i += 1;
    }
}

/// Release every shader, in order.
fn release_all<D: Device>(gl: &mut Gl<D>, shaders: Vec<Shader>)
    ensures
        final(gl).issued() == old(gl).issued() + delete_calls(handles(shaders@)),
{
    let ghost all = shaders@;
    let ghost calls = delete_calls(handles(all));
    for shader in it: shaders
        invariant
            it.seq() == all,
            calls == delete_calls(handles(all)),
            gl.issued() == old(gl).issued() + calls.take(it.index() as int),
    {
        shader.destroy(gl);
    }
}

/// Detach every shader from the program and release it, in order.
fn detach_all<D: Device>(gl: &mut Gl<D>, program: u32, shaders: Vec<Shader>)
    ensures
        final(gl).issued() == old(gl).issued() + detach_calls(program, handles(shaders@)),
{
    let ghost all = shaders@;
    let ghost calls = detach_calls(program, handles(all));
    for shader in it: shaders
        invariant
            it.seq() == all,
            calls == detach_calls(program, handles(all)),
            gl.issued() == old(gl).issued() + calls.take(2 * it.index()),
    {
        let ghost k = it.index() as int;
        assert(calls.take(2 * k + 2) =~= calls.take(2 * k).push(calls[2 * k]).push(calls[2 * k + 1]));
        gl.device.detach_shader(program, shader.id);
        shader.destroy(gl);
    }
}

impl ShaderProgram {
    /// Ask the device where each of the names lies, in order, and enter the
    /// answers in the uniform table.
    fn find_uniforms<D: Device>(&mut self, gl: &mut Gl<D>, names: Vec<String>)
        requires
            old(self)@.uniforms == Map::<Seq<char>, i32>::empty(),
        ensures
            final(self)@.id == old(self)@.id,
            old(gl).issued().is_prefix_of(final(gl).issued()),
            looks_up(old(self)@.id, texts(names@), added(old(gl).issued(), final(gl).issued())),
            final(self)@.uniforms == uniform_table(added(old(gl).issued(), final(gl).issued())),
    {
        let ghost all = names@;
        let ghost before = gl.issued();
        let ghost program = self.id;
        for name in it: names
            invariant
                it.seq() == all,
                self.id == program,
                before.is_prefix_of(gl.issued()),
                looks_up(program, texts(all).take(it.index() as int), added(before, gl.issued())),
                self.uniforms@ == uniform_table(added(before, gl.issued())),
        {
            let ghost k = it.index() as int;
            let ghost so_far = gl.issued();
            let location = gl.device.uniform_location(self.id, name.as_str());
            proof {
                let call = Call::UniformLocation { program, name: name@, location };
                lemma_added(before, so_far);
                lemma_extended(before, added(before, so_far).push(call));
                assert(added(before, gl.issued()).drop_last() =~= added(before, so_far));
                assert(texts(all).take(k + 1) =~= texts(all).take(k).push(name@));
            }
            note_uniform(&mut self.uniforms, name, location);
        }
    }

    /// Build a program from compiled shaders, and look up its uniforms.
    ///
    /// Fails with the link log exactly where the device reports a log of
    /// positive length; the program object and the shaders are then
    /// released. On success every shader is detached and released, and the
    /// uniform table holds each name for which the device gave a location
    /// that is not negative.
    pub fn new_from_shaders<D: Device>(gl: &mut Gl<D>, shaders: Vec<Shader>, uniforms: Vec<String>) -> (outcome:
        Result<ShaderProgram, ShaderError>)
        ensures
            old(gl).issued().is_prefix_of(final(gl).issued()),
            links(
                handles(shaders@),
                texts(uniforms@),
                added(old(gl).issued(), final(gl).issued()),
                linked(outcome),
            ),
    {
        let ghost before = gl.issued();
        let ghost ids = handles(shaders@);
        let ghost n = ids.len() as int;
        let mut program = Self::new(gl, StringHashMap::with_capacity(uniforms.len()));
        let ghost made = program@.id;
        attach_all(gl, program.id, &shaders);
        gl.device.link_program(program.id);
        let ghost begun = seq![Call::CreateProgram { program: made }] + attach_calls(made, ids)
            + seq![Call::LinkProgram { program: made }];
        let ghost linked = gl.issued();
        assert(linked =~= before + begun);
        let checked = program.check_link_error(gl);
        let ghost read = gl.issued();
        let ghost check = added(linked, read);
        proof {
            lemma_added(linked, read);
        }
        match checked {
            Err(e) => {
                program.destroy(gl);
                release_all(gl, shaders);
                proof {
                    let calls = begun + check + seq![Call::DeleteProgram { program: made }]
                        + delete_calls(ids);
                    assert(gl.issued() =~= before + calls);
                    lemma_extended(before, calls);
                    assert(calls.subrange(1, n + 1) =~= attach_calls(made, ids));
                    assert(calls.skip(n + 5) =~= delete_calls(ids));
                }
                Err(e)
            },
            Ok(()) => {
                detach_all(gl, program.id, shaders);
                let ghost detached = gl.issued();
                program.find_uniforms(gl, uniforms);
                proof {
                    let lookups = added(detached, gl.issued());
                    lemma_added(detached, gl.issued());
                    let calls = begun + check + detach_calls(made, ids) + lookups;
                    assert(gl.issued() =~= before + calls);
                    lemma_extended(before, calls);
                    assert(calls.subrange(1, n + 1) =~= attach_calls(made, ids));
                    assert(calls.subrange(n + 2, n + 3) =~= check);
                    assert(calls.subrange(n + 3, 3 * n + 3) =~= detach_calls(made, ids));
                    assert(calls.skip(3 * n + 3) =~= lookups);
                }
                Ok(program)
            },
        }
    }
}

/// The location that a lookup was answered with.
pub open spec fn answer(call: Call) -> i32 {
    match call {
        Call::UniformLocation { program, name, location } => location,
        _ => -1i32,
    }
}

/// After the lookups of a link, the uniform table has a name exactly where
/// the device gave a location that is not negative for it, and it then holds
/// the last such location. A name for which the device gave only negative
/// locations, or that was not asked for, is absent.
pub proof fn lemma_uniform_table(program: u32, names: Seq<Seq<char>>, calls: Seq<Call>, name: Seq<char>)
    requires
        looks_up(program, names, calls),
    ensures
        uniform_table(calls).contains_key(name) <==> exists|i: int|
            0 <= i < names.len() && names[i] == name && answer(#[trigger] calls[i]) >= 0,
        forall|i: int|
            0 <= i < names.len() && names[i] == name && answer(#[trigger] calls[i]) >= 0 && (forall|
                j: int,
            |
                i < j < names.len() ==> names[j] != name || answer(#[trigger] calls[j]) < 0)
                ==> uniform_table(calls)[name] == answer(calls[i]),
    decreases calls.len(),
{
    if calls.len() > 0 {
        let last = calls.len() - 1;
        let front = calls.drop_last();
        let front_names = names.drop_last();
        assert forall|i: int| 0 <= i < front.len() implies match #[trigger] front[i] {
            Call::UniformLocation { program: asked, name, location } => asked == program && name
                == front_names[i],
            _ => false,
        } by {
            assert(front[i] == calls[i]);
        }
        lemma_uniform_table(program, front_names, front, name);
        if names[last] == name && answer(calls[last]) >= 0 {
            assert(uniform_table(calls) == uniform_table(front).insert(name, answer(calls[last])));
        }
        if exists|i: int| 0 <= i < names.len() && names[i] == name && answer(#[trigger] calls[i]) >= 0 {
            let i = choose|i: int|
                0 <= i < names.len() && names[i] == name && answer(#[trigger] calls[i]) >= 0;
            if i < last {
                assert(front_names[i] == name && answer(front[i]) >= 0);
            }
        }
        assert forall|i: int|
            0 <= i < names.len() && names[i] == name && answer(#[trigger] calls[i]) >= 0 && (forall|
                j: int,
            |
                i < j < names.len() ==> names[j] != name || answer(#[trigger] calls[j]) < 0) implies uniform_table(
            calls,
        )[name] == answer(calls[i]) by {
            if i < last {
                assert(front_names[i] == name && front[i] == calls[i]);
            }
        }
    }
}

/// The requests by which a program is built from the source of one vertex
/// shader and one fragment shader, and what comes of it.
///
/// The vertex shader is built first. Where that fails, nothing else is asked
/// of the device. Otherwise the fragment shader is built; where that fails,
/// the vertex shader is released. Otherwise the program is linked from the
/// two, vertex shader first.
pub open spec fn builds(
    vertex: Seq<char>,
    fragment: Seq<char>,
    names: Seq<Seq<char>>,
    calls: Seq<Call>,
    outcome: Result<ProgramView, ShaderErrorView>,
) -> bool {
    calls.len() >= 4 && match calls[0] {
        Call::CreateShader { kind, shader: first } => if compiles(
            gl::VERTEX_SHADER,
            vertex,
            calls.take(4),
            Ok(first),
        ) {
            calls.len() >= 8 && match calls[4] {
                Call::CreateShader { kind, shader: second } => if compiles(
                    gl::FRAGMENT_SHADER,
                    fragment,
                    calls.subrange(4, 8),
                    Ok(second),
                ) {
                    links(seq![first, second], names, calls.skip(8), outcome)
                } else {
                    match outcome {
                        Ok(_) => false,
                        Err(e) => calls.last() == Call::DeleteShader { shader: first } && compiles(
                            gl::FRAGMENT_SHADER,
                            fragment,
                            calls.subrange(4, calls.len() - 1),
                            Err(e),
                        ),
                    }
                },
                _ => false,
            }
        } else {
            match outcome {
                Ok(_) => false,
                Err(e) => compiles(gl::VERTEX_SHADER, vertex, calls, Err(e)),
            }
        },
        _ => false,
    }
}

/// Build a program from the source of one vertex shader and one fragment
/// shader, and look up its uniforms.
///
/// Fails with the compile log of the first shader that does not compile,
/// the vertex shader first, or with the link log.
pub fn create_shader_program<D: Device>(
    gl: &mut Gl<D>,
    vertex_shader: &str,
    fragment_shader: &str,
    uniforms: Vec<String>,
) -> (outcome: Result<ShaderProgram, ShaderError>)
    ensures
        old(gl).issued().is_prefix_of(final(gl).issued()),
        builds(
            vertex_shader@,
            fragment_shader@,
            texts(uniforms@),
            added(old(gl).issued(), final(gl).issued()),
            linked(outcome),
        ),
{
    let ghost before = gl.issued();
    let vert_shader = match Shader::new_from_source(gl, gl::VERTEX_SHADER, vertex_shader) {
        Ok(shader) => shader,
        Err(e) => {
            return Err(e);
        },
    };
    let ghost first = added(before, gl.issued());
    let ghost one = gl.issued();
    proof {
        lemma_added(before, one);
    }
    let frag_shader = match Shader::new_from_source(gl, gl::FRAGMENT_SHADER, fragment_shader) {
        Ok(shader) => shader,
        Err(e) => {
            let ghost failed = added(one, gl.issued());
            let ghost last = Call::DeleteShader { shader: vert_shader@ };
            proof {
                lemma_added(one, gl.issued());
            }
            vert_shader.destroy(gl);
            proof {
                let calls = first + failed + seq![last];
                lemma_extended(before, calls);
            }
            return Err(e);
        },
    };
    let ghost second = added(one, gl.issued());
    let ghost two = gl.issued();
    proof {
        lemma_added(one, two);
    }
    let ghost ids = seq![vert_shader@, frag_shader@];
    let shaders = vec![vert_shader, frag_shader];
    assert(handles(shaders@) =~= ids);
    let outcome = ShaderProgram::new_from_shaders(gl, shaders, uniforms);
    proof {
        let third = added(two, gl.issued());
        lemma_added(two, gl.issued());
        let calls = first + second + third;
        assert(gl.issued() =~= before + calls);
        lemma_extended(before, calls);
        assert(calls.skip(8) =~= third);
    }
    outcome
}

} // verus!
