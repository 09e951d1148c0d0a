use gldemo::info_log::{log_message, BuildStatus};
use gldemo::shader::{Program, Shader, ShaderError};

fn failed(log: &[u8]) -> BuildStatus {
    BuildStatus { status: 0, log: log.to_vec() }
}

fn succeeded() -> BuildStatus {
    BuildStatus { status: 1, log: Vec::new() }
}

#[test]
fn log_message_stops_at_first_nul() {
    assert_eq!(log_message(b"0:3(1): error: syntax error\0  "), "0:3(1): error: syntax error");
}

#[test]
fn log_message_without_nul_takes_everything() {
    assert_eq!(log_message(b"unterminated"), "unterminated");
}

#[test]
fn log_message_of_empty_log_is_empty() {
    assert_eq!(log_message(b""), "");
    assert_eq!(log_message(b"\0abc"), "");
}

#[test]
fn log_message_replaces_invalid_utf8() {
    assert_eq!(log_message(b"bad \xff byte\0"), "bad \u{FFFD} byte");
}

#[test]
fn compiled_stage_keeps_its_id() {
    let shader = Shader::new("cube.vert", 7, &succeeded()).unwrap();
    assert_eq!(shader.id(), 7);
}

#[test]
fn syntax_error_gives_compile_error_with_message() {
    let result = Shader::new("cube.frag", 8, &failed(b"0:1(1): error: syntax error, unexpected IDENTIFIER\0"));
    match result {
        Err(ShaderError::CompileError { name, message }) => {
            assert_eq!(name, "cube.frag");
            assert!(!message.is_empty());
            assert_eq!(message, "0:1(1): error: syntax error, unexpected IDENTIFIER");
        }
        other => panic!("unexpected result: {:?}", other.map(|s| s.id())),
    }
}

#[test]
fn failed_compile_never_yields_a_program() {
    let compiled = Shader::new("cube.vert", 3, &failed(b"error\0"));
    let result = Program::new(1).vertex_shader(compiled);
    assert!(matches!(result, Err(ShaderError::CompileError { .. })));

    let program = Program::new(2).vertex_shader(Shader::new("a.vert", 4, &succeeded())).unwrap();
    let compiled = Shader::new("a.frag", 5, &failed(b"error\0"));
    let result = program.fragment_shader(compiled);
    assert!(matches!(result, Err(ShaderError::CompileError { .. })));
}

#[test]
fn program_builds_and_links() {
    let program = Program::new(11)
        .vertex_shader(Shader::new("light.vert", 12, &succeeded()))
        .unwrap()
        .fragment_shader(Shader::new("light.frag", 13, &succeeded()))
        .unwrap();
    assert_eq!(program.id(), 11);
    assert!(!program.is_linked());
    let program = program.link(&succeeded()).unwrap();
    assert!(program.is_linked());
    assert_eq!(program.id(), 11);
}

#[test]
fn link_failure_carries_log() {
    let program = Program::new(11);
    match program.link(&failed(b"error: no vertex shader\0\0\0")) {
        Err(ShaderError::LinkError(message)) => assert_eq!(message, "error: no vertex shader"),
        _ => panic!("expected a link error"),
    }
}

#[test]
fn absent_uniform_is_not_found() {
    let program = Program::new(1).link(&succeeded()).unwrap();
    match program.get_uniform_location("material.missing", -1) {
        Err(ShaderError::UniformLocationNotFound { name }) => assert_eq!(name, "material.missing"),
        _ => panic!("expected UniformLocationNotFound"),
    }
}

#[test]
fn present_uniform_has_its_location() {
    let program = Program::new(1).link(&succeeded()).unwrap();
    assert_eq!(program.get_uniform_location("proj", 0).unwrap(), 0);
    assert_eq!(program.get_uniform_location("view", 4).unwrap(), 4);
}

#[test]
fn source_becomes_nul_terminated_bytes() {
    let bytes = Shader::c_source("a.vert", "void main() {}").unwrap();
    assert_eq!(bytes, b"void main() {}\0".to_vec());
}

#[test]
fn source_with_nul_is_a_compile_error() {
    match Shader::c_source("a.vert", "void main() {}\0junk") {
        Err(ShaderError::CompileError { name, message }) => {
            assert_eq!(name, "a.vert");
            assert_eq!(message, "shader source holds a NUL byte");
        }
        _ => panic!("expected a compile error"),
    }
}

#[test]
fn uniform_name_becomes_nul_terminated_bytes() {
    let program = Program::new(1);
    assert_eq!(program.uniform_c_name("light.position").unwrap(), b"light.position\0".to_vec());
}

#[test]
fn uniform_name_with_nul_is_not_found() {
    let program = Program::new(1);
    match program.uniform_c_name("light\0position") {
        Err(ShaderError::UniformLocationNotFound { name }) => assert_eq!(name, "light\0position"),
        _ => panic!("expected UniformLocationNotFound"),
    }
}

#[test]
fn empty_link_log_gives_empty_message() {
    match Program::new(1).link(&failed(b"\0")) {
        Err(ShaderError::LinkError(message)) => assert!(message.is_empty()),
        _ => panic!("expected a link error"),
    }
}
