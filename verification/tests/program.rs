use rust_cad::{
    DeviceCall, DeviceReply, Hashable, ProgramBuild, ProgramPhase, Shader, ShaderProgram,
    ShaderType,
};

const VERT: &str = "#version 330 core\nvoid main() { gl_Position = vec4(0.0); }\n";
const FRAG: &str = "#version 330 core\nout vec4 c;\nvoid main() { c = vec4(1.0); }\n";

fn shader_of(ty: ShaderType, handle: u32, text: &str) -> Shader {
    let mut shader = Shader::new(ty, handle).unwrap();
    shader.set_source(text);
    shader
}

fn replay(build: ProgramBuild, replies: Vec<DeviceReply>) -> (ProgramBuild, Vec<DeviceCall>) {
    let mut build = build;
    let mut issued = Vec::new();
    for reply in replies {
        let (next, calls) = build.step(&reply);
        build = next;
        issued.extend(calls);
    }
    (build, issued)
}

#[test]
fn program_needs_a_name() {
    assert!(ShaderProgram::new(0).is_none());
    let program = ShaderProgram::new(11).unwrap();
    assert_eq!(program.0, 11);
    assert_eq!(program.handle(), 11);
    assert_eq!(program.get_shader(VERT), None);
    assert_eq!(program.get_shader(""), None);
}

#[test]
fn program_calls_name_the_program() {
    let program = ShaderProgram::new(11).unwrap();
    assert_eq!(program.link_program(), DeviceCall::LinkProgram { program: 11 });
    assert_eq!(
        program.status_query(),
        DeviceCall::GetProgramiv { program: 11, name: ogl33::GL_LINK_STATUS }
    );
    assert_eq!(
        program.log_length_query(),
        DeviceCall::GetProgramiv { program: 11, name: ogl33::GL_INFO_LOG_LENGTH }
    );
    assert_eq!(program.log_query(30), DeviceCall::GetProgramInfoLog { program: 11, capacity: 30 });
    assert_eq!(program.log_query(-30), DeviceCall::GetProgramInfoLog { program: 11, capacity: 0 });
    assert_eq!(program.use_program(), DeviceCall::UseProgram { program: 11 });
    assert_eq!(program.delete(), DeviceCall::DeleteProgram { program: 11 });
}

#[test]
fn link_success_is_the_true_of_the_device() {
    assert!(ShaderProgram::link_success(i32::from(ogl33::GL_TRUE)));
    assert!(!ShaderProgram::link_success(0));
    assert!(!ShaderProgram::link_success(-1));
}

#[test]
fn program_log_reads_what_was_written() {
    assert_eq!(ShaderProgram::info_log(5, b"error: x"), "error");
    assert_eq!(ShaderProgram::info_log(0, b"error: x"), "");
    assert_eq!(ShaderProgram::info_log(99, b"error: x"), "error: x");
    assert_eq!(ShaderProgram::info_log(2, &[0xC0, b'x']), "\u{FFFD}x");
}

#[test]
fn lookup_round_trip() {
    let mut program = ShaderProgram::new(1).unwrap();
    let shader = shader_of(ShaderType::Vertex, 2, VERT);
    let call = program.attach_shader(&shader);
    assert_eq!(call, DeviceCall::AttachShader { program: 1, shader: 2 });
    assert_eq!(program.get_shader(VERT), Some(2));
    assert_eq!(program.get_shader(FRAG), None);
    assert_eq!(program.get_shader(""), None);
    assert_eq!(program.handle(), 1);
}

#[test]
fn lookup_finds_each_attached_shader() {
    let mut program = ShaderProgram::new(1).unwrap();
    program.attach_shader(&shader_of(ShaderType::Vertex, 2, VERT));
    program.attach_shader(&shader_of(ShaderType::Fragment, 3, FRAG));
    assert_eq!(program.get_shader(VERT), Some(2));
    assert_eq!(program.get_shader(FRAG), Some(3));
    assert_eq!(program.get_shader("void main() {}"), None);
}

#[test]
fn lookup_returns_the_first_entry_of_a_fingerprint() {
    let mut program = ShaderProgram::new(1).unwrap();
    program.attach_shader(&shader_of(ShaderType::Vertex, 5, VERT));
    program.attach_shader(&shader_of(ShaderType::Vertex, 7, VERT));
    assert_eq!(program.get_shader(VERT), Some(5));
}

#[test]
fn lookup_goes_by_the_fingerprint_of_the_whole_text() {
    let mut program = ShaderProgram::new(1).unwrap();
    program.attach_shader(&shader_of(ShaderType::Vertex, 5, "abc#xyz"));
    assert_eq!(program.get_shader("abc#xyz"), Some(5));
    assert_eq!(program.get_shader("abc#qqq"), None);
    assert_eq!(program.get_shader("abc"), None);
    assert_ne!("abc#xyz".hash(), "abc".hash());
}

#[test]
fn a_shader_without_source_is_entered_under_zero() {
    let mut program = ShaderProgram::new(1).unwrap();
    program.attach_shader(&Shader::new(ShaderType::Vertex, 4).unwrap());
    assert_eq!(program.get_shader(""), Some(4));
    assert_eq!("".hash(), 0);
}

#[test]
fn build_starts_with_the_program_object() {
    let (build, calls) = ShaderProgram::from_vert_frag(VERT, FRAG);
    assert_eq!(calls, vec![DeviceCall::CreateProgram]);
    assert_eq!(build.phase(), ProgramPhase::Allocating);
    assert_eq!(build.message(), "");
    assert!(build.finish().is_none());
}

#[test]
fn build_links_a_program() {
    let (build, first) = ShaderProgram::from_vert_frag(VERT, FRAG);
    let (build, rest) = replay(
        build,
        vec![
            DeviceReply::Handle(1),
            DeviceReply::Handle(2),
            DeviceReply::Status(1),
            DeviceReply::Handle(3),
            DeviceReply::Status(1),
            DeviceReply::Status(1),
        ],
    );
    let mut issued = first;
    issued.extend(rest);
    assert_eq!(
        issued,
        vec![
            DeviceCall::CreateProgram,
            DeviceCall::CreateShader { stage: 0x8B31 },
            DeviceCall::ShaderSource { shader: 2, text: VERT.to_string(), length: 59 },
            DeviceCall::CompileShader { shader: 2 },
            DeviceCall::GetShaderiv { shader: 2, name: 0x8B81 },
            DeviceCall::AttachShader { program: 1, shader: 2 },
            DeviceCall::CreateShader { stage: 0x8B30 },
            DeviceCall::ShaderSource { shader: 3, text: FRAG.to_string(), length: 61 },
            DeviceCall::CompileShader { shader: 3 },
            DeviceCall::GetShaderiv { shader: 3, name: 0x8B81 },
            DeviceCall::AttachShader { program: 1, shader: 3 },
            DeviceCall::LinkProgram { program: 1 },
            DeviceCall::DeleteShader { shader: 2 },
            DeviceCall::DeleteShader { shader: 3 },
            DeviceCall::GetProgramiv { program: 1, name: 0x8B82 },
        ]
    );
    assert_eq!(build.phase(), ProgramPhase::Linked);
    let program = build.finish().unwrap().unwrap();
    assert_eq!(program.handle(), 1);
    assert_eq!(program.get_shader(VERT), Some(2));
    assert_eq!(program.get_shader(FRAG), Some(3));
    assert_eq!(program.get_shader("other"), None);
    assert_eq!(program.use_program(), DeviceCall::UseProgram { program: 1 });
}

#[test]
fn build_has_no_result_before_its_end() {
    let (mut build, _) = ShaderProgram::from_vert_frag(VERT, FRAG);
    let replies = vec![
        DeviceReply::Handle(1),
        DeviceReply::Handle(2),
        DeviceReply::Status(1),
        DeviceReply::Handle(3),
        DeviceReply::Status(1),
    ];
    let phases = vec![
        ProgramPhase::Vertex,
        ProgramPhase::Vertex,
        ProgramPhase::Fragment,
        ProgramPhase::Fragment,
        ProgramPhase::Linking,
    ];
    for (reply, phase) in replies.into_iter().zip(phases) {
        build = build.step(&reply).0;
        assert_eq!(build.phase(), phase);
        assert!(build.clone().finish().is_none());
    }
}

#[test]
fn build_fails_where_the_device_makes_no_program() {
    let (build, _) = ShaderProgram::from_vert_frag(VERT, FRAG);
    let (build, calls) = build.step(&DeviceReply::Handle(0));
    assert_eq!(calls, vec![]);
    assert_eq!(build.phase(), ProgramPhase::Failed);
    assert_eq!(build.finish(), Some(Err("Could not allocate a program".to_string())));
}

#[test]
fn vertex_failure_short_circuits() {
    let (build, first) = ShaderProgram::from_vert_frag("not a shader", FRAG);
    let (build, rest) = replay(
        build,
        vec![
            DeviceReply::Handle(1),
            DeviceReply::Handle(2),
            DeviceReply::Status(0),
            DeviceReply::Status(16),
            DeviceReply::Log("0:1: syntax error".to_string()),
        ],
    );
    let mut issued = first;
    issued.extend(rest);
    assert_eq!(
        issued,
        vec![
            DeviceCall::CreateProgram,
            DeviceCall::CreateShader { stage: 0x8B31 },
            DeviceCall::ShaderSource { shader: 2, text: "not a shader".to_string(), length: 12 },
            DeviceCall::CompileShader { shader: 2 },
            DeviceCall::GetShaderiv { shader: 2, name: 0x8B81 },
            DeviceCall::GetShaderiv { shader: 2, name: 0x8B84 },
            DeviceCall::GetShaderInfoLog { shader: 2, capacity: 16 },
            DeviceCall::DeleteShader { shader: 2 },
            DeviceCall::DeleteProgram { program: 1 },
        ]
    );
    for call in &issued {
        assert_ne!(*call, DeviceCall::CreateShader { stage: ogl33::GL_FRAGMENT_SHADER });
        assert!(!matches!(call, DeviceCall::ShaderSource { text, .. } if text == FRAG));
    }
    assert_eq!(build.phase(), ProgramPhase::Failed);
    assert!(build.message().starts_with("Vertex Compile Error:"));
    let (build, later) = replay(build, vec![DeviceReply::Handle(3), DeviceReply::Status(1)]);
    assert_eq!(later, vec![]);
    assert_eq!(
        build.finish(),
        Some(Err("Vertex Compile Error: 0:1: syntax error".to_string()))
    );
}

#[test]
fn vertex_allocation_failure_is_tagged_and_ends_the_build() {
    let (build, _) = ShaderProgram::from_vert_frag(VERT, FRAG);
    let (build, issued) = replay(build, vec![DeviceReply::Handle(1), DeviceReply::Handle(0)]);
    assert_eq!(
        issued,
        vec![
            DeviceCall::CreateShader { stage: 0x8B31 },
            DeviceCall::DeleteProgram { program: 1 },
        ]
    );
    assert_eq!(
        build.finish(),
        Some(Err("Vertex Compile Error: Could not allocate new shader".to_string()))
    );
}

#[test]
fn fragment_failure_is_tagged_and_ends_the_build() {
    let (build, _) = ShaderProgram::from_vert_frag(VERT, "broken");
    let (build, issued) = replay(
        build,
        vec![
            DeviceReply::Handle(1),
            DeviceReply::Handle(2),
            DeviceReply::Status(1),
            DeviceReply::Handle(3),
            DeviceReply::Status(0),
            DeviceReply::Status(8),
            DeviceReply::Log("no main".to_string()),
        ],
    );
    assert_eq!(
        issued[issued.len() - 5..].to_vec(),
        vec![
            DeviceCall::GetShaderiv { shader: 3, name: 0x8B84 },
            DeviceCall::GetShaderInfoLog { shader: 3, capacity: 8 },
            DeviceCall::DeleteShader { shader: 3 },
            DeviceCall::DeleteShader { shader: 2 },
            DeviceCall::DeleteProgram { program: 1 },
        ]
    );
    for call in &issued {
        assert_ne!(*call, DeviceCall::LinkProgram { program: 1 });
    }
    assert_eq!(build.phase(), ProgramPhase::Failed);
    assert_eq!(build.finish(), Some(Err("Fragment Compile Error: no main".to_string())));
}

#[test]
fn fragment_allocation_failure_is_tagged_and_ends_the_build() {
    let (build, _) = ShaderProgram::from_vert_frag(VERT, FRAG);
    let (build, issued) = replay(
        build,
        vec![
            DeviceReply::Handle(1),
            DeviceReply::Handle(2),
            DeviceReply::Status(1),
            DeviceReply::Handle(0),
        ],
    );
    assert_eq!(
        issued[issued.len() - 2..].to_vec(),
        vec![DeviceCall::DeleteShader { shader: 2 }, DeviceCall::DeleteProgram { program: 1 }]
    );
    assert_eq!(
        build.finish(),
        Some(Err("Fragment Compile Error: Could not allocate new shader".to_string()))
    );
}

#[test]
fn link_failure_is_tagged_and_deletes_the_program() {
    let (build, _) = ShaderProgram::from_vert_frag(VERT, FRAG);
    let (build, _) = replay(
        build,
        vec![
            DeviceReply::Handle(1),
            DeviceReply::Handle(2),
            DeviceReply::Status(1),
            DeviceReply::Handle(3),
            DeviceReply::Status(1),
        ],
    );
    let (build, calls) = build.step(&DeviceReply::Status(0));
    assert_eq!(calls, vec![DeviceCall::GetProgramiv { program: 1, name: 0x8B84 }]);
    assert_eq!(build.phase(), ProgramPhase::Sizing);
    let (build, calls) = build.step(&DeviceReply::Status(12));
    assert_eq!(calls, vec![DeviceCall::GetProgramInfoLog { program: 1, capacity: 12 }]);
    assert_eq!(build.phase(), ProgramPhase::Reading);
    let (build, calls) = build.step(&DeviceReply::Log("unresolved".to_string()));
    assert_eq!(calls, vec![DeviceCall::DeleteProgram { program: 1 }]);
    assert_eq!(build.phase(), ProgramPhase::Failed);
    assert_eq!(build.message(), "Program Link Error: unresolved");
    assert_eq!(build.finish(), Some(Err("Program Link Error: unresolved".to_string())));
}

#[test]
fn a_finished_program_build_stays_as_it_is() {
    let (build, _) = ShaderProgram::from_vert_frag(VERT, FRAG);
    let (build, _) = replay(
        build,
        vec![
            DeviceReply::Handle(1),
            DeviceReply::Handle(2),
            DeviceReply::Status(1),
            DeviceReply::Handle(3),
            DeviceReply::Status(1),
            DeviceReply::Status(1),
        ],
    );
    let (again, calls) = build.clone().step(&DeviceReply::Status(0));
    assert_eq!(calls, vec![]);
    assert_eq!(again, build);
}
