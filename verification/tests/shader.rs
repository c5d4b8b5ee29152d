use render::device::{Device, Gl};
use render::gl;
use render::log::{create_empty_vec_cstr, create_str_from_raw_cstr};
use render::recorder::{Recorder, Request};
use render::shader::{create_shader_program, Shader, ShaderError, ShaderProgram};
use render::uniform::Uniform;
use render::vector::{Float, Mat4, Vec2, Vec3, Vec4};

const VERTEX_SOURCE: &str = "#version 330 core\nuniform mat4 projection_matrix;\nvoid main() {}\n";
const FRAGMENT_SOURCE: &str = "#version 330 core\nuniform float red;\nvoid main() {}\n";

fn names(all: &[&str]) -> Vec<String> {
    all.iter().map(|s| s.to_string()).collect()
}

fn spaces(n: usize) -> Vec<u8> {
    vec![b' '; n]
}

#[test]
fn empty_buffer_is_all_spaces() {
    assert_eq!(create_empty_vec_cstr(0), Vec::<u8>::new());
    assert_eq!(create_empty_vec_cstr(1), vec![b' ']);
    assert_eq!(create_empty_vec_cstr(5), b"     ".to_vec());
    assert_eq!(create_empty_vec_cstr(1000).len(), 1000);
}

#[test]
fn log_text_drops_one_terminator() {
    assert_eq!(create_str_from_raw_cstr(b"error: bad\0".to_vec()), "error: bad");
    assert_eq!(create_str_from_raw_cstr(b"error: bad".to_vec()), "error: bad");
    assert_eq!(create_str_from_raw_cstr(b"ab\0\0".to_vec()), "ab\0");
    assert_eq!(create_str_from_raw_cstr(b"\0".to_vec()), "");
    assert_eq!(create_str_from_raw_cstr(Vec::new()), "");
    assert_eq!(create_str_from_raw_cstr(b"a\0b".to_vec()), "a\0b");
}

#[test]
fn log_text_reads_utf8_and_replaces_what_is_not() {
    assert_eq!(create_str_from_raw_cstr("Fehler: Gr\u{00f6}\u{00df}e\0".as_bytes().to_vec()), "Fehler: Gr\u{00f6}\u{00df}e");
    assert_eq!(create_str_from_raw_cstr(vec![b'a', 0xff, b'b', 0]), "a\u{fffd}b");
    assert_eq!(create_str_from_raw_cstr(vec![0xc3, 0]), "\u{fffd}");
}

#[test]
fn shader_compiles_where_the_device_leaves_no_log() {
    let mut gl = Gl::load_with(Recorder::new());
    let shader = Shader::new_from_source(&mut gl, gl::VERTEX_SHADER, VERTEX_SOURCE).unwrap();
    assert_eq!(shader.id(), 1);
    assert_eq!(
        gl.device.requests(),
        &vec![
            Request::CreateShader { kind: gl::VERTEX_SHADER, shader: 1 },
            Request::ShaderSource { shader: 1, source: VERTEX_SOURCE.to_string() },
            Request::CompileShader { shader: 1 },
            Request::ShaderLogLength { shader: 1, length: 0 },
        ]
    );
    shader.destroy(&mut gl);
    assert_eq!(gl.device.requests().last(), Some(&Request::DeleteShader { shader: 1 }));
    assert_eq!(gl.device.requests().len(), 5);
}

#[test]
fn failing_source_yields_a_compile_error_with_the_log() {
    let log = b"0:1(1): error: syntax error, unexpected IDENTIFIER\0".to_vec();
    let mut gl = Gl::load_with(Recorder::new().with_compile_log(log.clone()));
    let outcome = Shader::new_from_source(&mut gl, gl::FRAGMENT_SHADER, "this is no shader");
    let error = match outcome {
        Ok(_) => panic!("the shader was built"),
        Err(e) => e,
    };
    assert_eq!(
        error,
        ShaderError::CompileError("0:1(1): error: syntax error, unexpected IDENTIFIER".to_string())
    );
    assert!(!error.message().is_empty());
    assert_eq!(error.message(), "0:1(1): error: syntax error, unexpected IDENTIFIER");
    assert_eq!(
        gl.device.requests(),
        &vec![
            Request::CreateShader { kind: gl::FRAGMENT_SHADER, shader: 1 },
            Request::ShaderSource { shader: 1, source: "this is no shader".to_string() },
            Request::CompileShader { shader: 1 },
            Request::ShaderLogLength { shader: 1, length: 51 },
            Request::ShaderInfoLog { shader: 1, capacity: 51, log },
            Request::DeleteShader { shader: 1 },
        ]
    );
}

#[test]
fn any_log_is_an_error_even_an_empty_line() {
    let mut gl = Gl::load_with(Recorder::new().with_compile_log(vec![0]));
    let outcome = Shader::new_from_source(&mut gl, gl::VERTEX_SHADER, VERTEX_SOURCE);
    assert_eq!(outcome.err(), Some(ShaderError::CompileError(String::new())));
}

#[test]
fn program_links_and_finds_its_uniforms() {
    let recorder = Recorder::new()
        .with_uniform("projection_matrix".to_string(), 0)
        .with_uniform("red".to_string(), 3)
        .with_uniform("unused".to_string(), 5);
    let mut gl = Gl::load_with(recorder);
    let vertex = Shader::new_from_source(&mut gl, gl::VERTEX_SHADER, VERTEX_SOURCE).unwrap();
    let fragment = Shader::new_from_source(&mut gl, gl::FRAGMENT_SHADER, FRAGMENT_SOURCE).unwrap();
    let compiled = gl.device.requests().len();
    assert_eq!(compiled, 8);
    let program = ShaderProgram::new_from_shaders(
        &mut gl,
        vec![vertex, fragment],
        names(&["projection_matrix", "missing", "red"]),
    )
    .unwrap();
    assert_eq!(program.id(), 3);
    assert_eq!(program.uniform_location("projection_matrix"), Some(0));
    assert_eq!(program.uniform_location("red"), Some(3));
    assert_eq!(program.uniform_location("missing"), None);
    assert_eq!(program.uniform_location("unused"), None);
    assert_eq!(
        &gl.device.requests()[compiled..],
        &[
            Request::CreateProgram { program: 3 },
            Request::AttachShader { program: 3, shader: 1 },
            Request::AttachShader { program: 3, shader: 2 },
            Request::LinkProgram { program: 3 },
            Request::ProgramLogLength { program: 3, length: 0 },
            Request::DetachShader { program: 3, shader: 1 },
            Request::DeleteShader { shader: 1 },
            Request::DetachShader { program: 3, shader: 2 },
            Request::DeleteShader { shader: 2 },
            Request::UniformLocation { program: 3, name: "projection_matrix".to_string(), location: 0 },
            Request::UniformLocation { program: 3, name: "missing".to_string(), location: -1 },
            Request::UniformLocation { program: 3, name: "red".to_string(), location: 3 },
        ]
    );
}

#[test]
fn link_error_carries_the_log_and_releases_everything() {
    let log = b"error: linking with uncompiled shader\0".to_vec();
    let mut gl = Gl::load_with(Recorder::new().with_link_log(log.clone()));
    let vertex = Shader::new_from_source(&mut gl, gl::VERTEX_SHADER, VERTEX_SOURCE).unwrap();
    let fragment = Shader::new_from_source(&mut gl, gl::FRAGMENT_SHADER, FRAGMENT_SOURCE).unwrap();
    let compiled = gl.device.requests().len();
    let outcome = ShaderProgram::new_from_shaders(&mut gl, vec![vertex, fragment], names(&["red"]));
    assert_eq!(
        outcome.err(),
        Some(ShaderError::LinkError("error: linking with uncompiled shader".to_string()))
    );
    assert_eq!(
        &gl.device.requests()[compiled..],
        &[
            Request::CreateProgram { program: 3 },
            Request::AttachShader { program: 3, shader: 1 },
            Request::AttachShader { program: 3, shader: 2 },
            Request::LinkProgram { program: 3 },
            Request::ProgramLogLength { program: 3, length: 38 },
            Request::ProgramInfoLog { program: 3, capacity: 38, log },
            Request::DeleteProgram { program: 3 },
            Request::DeleteShader { shader: 1 },
            Request::DeleteShader { shader: 2 },
        ]
    );
}

#[test]
fn program_without_shaders_or_uniforms_still_links() {
    let mut gl = Gl::load_with(Recorder::new());
    let program = ShaderProgram::new_from_shaders(&mut gl, Vec::new(), Vec::new()).unwrap();
    assert_eq!(
        gl.device.requests(),
        &vec![
            Request::CreateProgram { program: 1 },
            Request::LinkProgram { program: 1 },
            Request::ProgramLogLength { program: 1, length: 0 },
        ]
    );
    assert_eq!(program.uniform_location("red"), None);
}

#[test]
fn name_asked_twice_is_looked_up_twice() {
    let mut gl = Gl::load_with(Recorder::new().with_uniform("red".to_string(), 7));
    let program =
        ShaderProgram::new_from_shaders(&mut gl, Vec::new(), names(&["red", "red"])).unwrap();
    assert_eq!(program.uniform_location("red"), Some(7));
    assert_eq!(
        &gl.device.requests()[3..],
        &[
            Request::UniformLocation { program: 1, name: "red".to_string(), location: 7 },
            Request::UniformLocation { program: 1, name: "red".to_string(), location: 7 },
        ]
    );
}

#[test]
fn set_uniform_writes_at_the_cached_location() {
    let mut gl = Gl::load_with(Recorder::new().with_uniform("red".to_string(), 3));
    let program = ShaderProgram::new_from_shaders(&mut gl, Vec::new(), names(&["red"])).unwrap();
    let before = gl.device.requests().len();
    program.set_uniform(&mut gl, "red", Float::new(0.25f32.to_bits()));
    assert_eq!(
        &gl.device.requests()[before..],
        &[Request::Uniform1f { location: 3, x: 0.25f32.to_bits() }]
    );
}

#[test]
fn set_uniform_on_an_absent_name_asks_nothing_of_the_device() {
    let mut gl = Gl::load_with(Recorder::new().with_uniform("red".to_string(), 3));
    let program =
        ShaderProgram::new_from_shaders(&mut gl, Vec::new(), names(&["red", "blue"])).unwrap();
    let before = gl.device.requests().len();
    program.set_uniform(&mut gl, "blue", Float::new(1.0f32.to_bits()));
    program.set_uniform(&mut gl, "green", Vec3::new(1, 2, 3));
    program.set_uniform(&mut gl, "", Float::new(0));
    program.set_uniform(&mut gl, "Red", Float::new(0));
    assert_eq!(gl.device.requests().len(), before);
}

#[test]
fn each_value_writes_itself_by_its_own_request() {
    let mut gl = Gl::load_with(Recorder::new());
    let bits = |x: f32| x.to_bits();
    Float::new(bits(0.5)).set_uniform(&mut gl, 1);
    Vec2::new(bits(1.0), bits(2.0)).set_uniform(&mut gl, 2);
    Vec3::new(bits(1.0), bits(2.0), bits(3.0)).set_uniform(&mut gl, 3);
    Vec4::new(bits(1.0), bits(2.0), bits(3.0), bits(4.0)).set_uniform(&mut gl, -4);
    let mut matrix = [0u32; 16];
    for i in 0..16 {
        matrix[i] = bits(i as f32);
    }
    Mat4 { bits: matrix }.set_uniform(&mut gl, 5);
    assert_eq!(
        gl.device.requests(),
        &vec![
            Request::Uniform1f { location: 1, x: 0x3f000000 },
            Request::Uniform2f { location: 2, x: 0x3f800000, y: 0x40000000 },
            Request::Uniform3f { location: 3, x: 0x3f800000, y: 0x40000000, z: 0x40400000 },
            Request::Uniform4f {
                location: -4,
                x: 0x3f800000,
                y: 0x40000000,
                z: 0x40400000,
                w: 0x40800000
            },
            Request::UniformMatrix4fv { location: 5, transpose: false, values: matrix },
        ]
    );
}

#[test]
fn program_binds_unbinds_and_is_released() {
    let mut gl = Gl::load_with(Recorder::new());
    let program = ShaderProgram::new_from_shaders(&mut gl, Vec::new(), Vec::new()).unwrap();
    let before = gl.device.requests().len();
    program.bind(&mut gl);
    program.unbind(&mut gl);
    ShaderProgram::unbind_all(&mut gl);
    program.destroy(&mut gl);
    assert_eq!(
        &gl.device.requests()[before..],
        &[
            Request::UseProgram { program: 1 },
            Request::UseProgram { program: 0 },
            Request::UseProgram { program: 0 },
            Request::DeleteProgram { program: 1 },
        ]
    );
}

#[test]
fn program_from_two_sources_compiles_links_and_looks_up() {
    let recorder = Recorder::new()
        .with_uniform("projection_matrix".to_string(), 0)
        .with_uniform("red".to_string(), 1);
    let mut gl = Gl::load_with(recorder);
    let program = create_shader_program(
        &mut gl,
        VERTEX_SOURCE,
        FRAGMENT_SOURCE,
        names(&["projection_matrix", "red"]),
    )
    .unwrap();
    assert_eq!(program.uniform_location("projection_matrix"), Some(0));
    assert_eq!(program.uniform_location("red"), Some(1));
    let requests = gl.device.requests();
    assert_eq!(requests.len(), 19);
    assert_eq!(requests[0], Request::CreateShader { kind: gl::VERTEX_SHADER, shader: 1 });
    assert_eq!(requests[4], Request::CreateShader { kind: gl::FRAGMENT_SHADER, shader: 2 });
    assert_eq!(requests[5], Request::ShaderSource { shader: 2, source: FRAGMENT_SOURCE.to_string() });
    assert_eq!(requests[8], Request::CreateProgram { program: 3 });
    assert_eq!(requests[9], Request::AttachShader { program: 3, shader: 1 });
    assert_eq!(requests[10], Request::AttachShader { program: 3, shader: 2 });
    assert_eq!(requests[18], Request::UniformLocation { program: 3, name: "red".to_string(), location: 1 });
}

#[test]
fn program_from_two_sources_stops_at_the_first_compile_error() {
    let log = b"error\0".to_vec();
    let mut gl = Gl::load_with(Recorder::new().with_compile_log(log.clone()));
    let outcome = create_shader_program(&mut gl, VERTEX_SOURCE, FRAGMENT_SOURCE, names(&["red"]));
    assert_eq!(outcome.err(), Some(ShaderError::CompileError("error".to_string())));
    assert_eq!(
        gl.device.requests(),
        &vec![
            Request::CreateShader { kind: gl::VERTEX_SHADER, shader: 1 },
            Request::ShaderSource { shader: 1, source: VERTEX_SOURCE.to_string() },
            Request::CompileShader { shader: 1 },
            Request::ShaderLogLength { shader: 1, length: 6 },
            Request::ShaderInfoLog { shader: 1, capacity: 6, log },
            Request::DeleteShader { shader: 1 },
        ]
    );
}

#[test]
fn program_from_two_sources_fails_with_the_link_log() {
    let mut gl = Gl::load_with(Recorder::new().with_link_log(b"no main\0".to_vec()));
    let outcome = create_shader_program(&mut gl, VERTEX_SOURCE, FRAGMENT_SOURCE, names(&["red"]));
    assert_eq!(outcome.err(), Some(ShaderError::LinkError("no main".to_string())));
    let requests = gl.device.requests();
    assert_eq!(requests.len(), 17);
    assert_eq!(requests[14], Request::DeleteProgram { program: 3 });
    assert_eq!(requests[15], Request::DeleteShader { shader: 1 });
    assert_eq!(requests[16], Request::DeleteShader { shader: 2 });
}

#[test]
fn recorder_writes_its_log_over_the_buffer_on_offer() {
    let mut recorder = Recorder::new().with_compile_log(b"abc".to_vec()).with_link_log(b"0123456789".to_vec());
    let mut room = spaces(5);
    recorder.shader_info_log(4, &mut room);
    assert_eq!(room, b"abc  ".to_vec());
    let mut tight = spaces(4);
    recorder.program_info_log(9, &mut tight);
    assert_eq!(tight, b"0123".to_vec());
    assert_eq!(recorder.shader_log_length(4), 3);
    assert_eq!(recorder.program_log_length(9), 10);
    assert_eq!(recorder.uniform_location(9, "red"), -1);
}
