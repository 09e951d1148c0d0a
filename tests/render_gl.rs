use gldemo::info_log::BuildStatus;
use gldemo::render_gl::{Error, Program, Shader, ShaderKind};

#[test]
fn kind_follows_extension() {
    assert_eq!(Shader::kind_for_resource("shaders/triangle.vert").unwrap(), ShaderKind::Vertex);
    assert_eq!(Shader::kind_for_resource("shaders/triangle.frag").unwrap(), ShaderKind::Fragment);
    assert_eq!(Shader::kind_for_resource(".vert").unwrap(), ShaderKind::Vertex);
}

#[test]
fn unknown_extension_is_refused() {
    for name in ["shaders/triangle.glsl", "vert", "triangle.vert.bak", "", "x.fra"] {
        match Shader::kind_for_resource(name) {
            Err(Error::CannotDetermineShaderTypeForResource { name: n }) => assert_eq!(n, name),
            other => panic!("unexpected result for {:?}: {:?}", name, other),
        }
    }
}

#[test]
fn resource_names_are_vertex_then_fragment() {
    let names = Program::resource_names("shaders/triangle");
    assert_eq!(names, vec!["shaders/triangle.vert".to_string(), "shaders/triangle.frag".to_string()]);
}

#[test]
fn stage_from_source_reports_log() {
    let ok = Shader::from_source(5, &BuildStatus { status: 1, log: Vec::new() }).unwrap();
    assert_eq!(ok.id(), 5);
    let err = Shader::from_source(6, &BuildStatus { status: 0, log: b"bad token\0".to_vec() });
    assert_eq!(err.err(), Some("bad token".to_string()));
}

#[test]
fn compile_failure_is_named_after_resource() {
    match Shader::from_res("shaders/triangle.frag", Err("bad token".to_string())) {
        Err(Error::CompileError { name, message }) => {
            assert_eq!(name, "shaders/triangle.frag");
            assert_eq!(message, "bad token");
        }
        _ => panic!("expected a compile error"),
    }
    let stage = Shader::from_source(9, &BuildStatus { status: 1, log: Vec::new() });
    assert_eq!(Shader::from_res("a.vert", stage).unwrap().id(), 9);
}

#[test]
fn program_from_shaders_reports_log() {
    let ok = Program::from_shaders(3, &BuildStatus { status: 1, log: Vec::new() }).unwrap();
    assert_eq!(ok.id(), 3);
    let err = Program::from_shaders(3, &BuildStatus { status: 0, log: b"link failed\0".to_vec() });
    assert_eq!(err.err(), Some("link failed".to_string()));
}

#[test]
fn link_failure_is_named_after_program() {
    match Program::from_res("shaders/triangle", Err("link failed".to_string())) {
        Err(Error::LinkError { name, message }) => {
            assert_eq!(name, "shaders/triangle");
            assert_eq!(message, "link failed");
        }
        _ => panic!("expected a link error"),
    }
    let linked = Program::from_shaders(4, &BuildStatus { status: 1, log: Vec::new() });
    assert_eq!(Program::from_res("shaders/triangle", linked).unwrap().id(), 4);
}

#[test]
fn from_res_refuses_unknown_extension_before_compiling() {
    let stage = Shader::from_source(9, &BuildStatus { status: 1, log: Vec::new() });
    match Shader::from_res("shaders/triangle.glsl", stage) {
        Err(Error::CannotDetermineShaderTypeForResource { name }) => {
            assert_eq!(name, "shaders/triangle.glsl")
        }
        _ => panic!("expected CannotDetermineShaderTypeForResource"),
    }
    match Shader::from_res("triangle", Err("bad token".to_string())) {
        Err(Error::CannotDetermineShaderTypeForResource { name }) => assert_eq!(name, "triangle"),
        _ => panic!("expected CannotDetermineShaderTypeForResource"),
    }
}
