use compositor_canvas::setup::{FRAGMENT_SHADER_SOURCE, VERTEX_SHADER_SOURCE};
use compositor_canvas::{
    compile_shader, link_program, Command, Error, Reply, Session, ShaderStage,
};

/// Feeds `replies` to the session; returns the calls made and the outcome,
/// if the session got to one.
fn replay<'a>(
    session: Session<'a>,
    replies: Vec<Reply>,
) -> (Vec<Command<'a>>, Option<Result<(), Error>>) {
    let record = compositor_canvas::replay(session, replies);
    (record.issued, record.outcome)
}

#[test]
fn shader_that_compiles_takes_four_calls() {
    let stage = ShaderStage::Vertex;
    let (issued, outcome) = replay(
        compile_shader(stage, "void main(void) {}"),
        vec![Reply::Obtained, Reply::Done, Reply::Done, Reply::Flag(Some(true))],
    );
    assert_eq!(outcome, Some(Ok(())));
    assert_eq!(
        issued,
        vec![
            Command::CreateShader { stage, shader_type: 35633 },
            Command::ShaderSource { stage, source: "void main(void) {}" },
            Command::CompileShader { stage },
            Command::GetShaderParameter { stage, parameter: 35713 },
        ]
    );
}

#[test]
fn fragment_shader_is_created_as_a_fragment_shader() {
    let stage = ShaderStage::Fragment;
    assert_eq!(
        compile_shader(stage, "x").command(),
        Command::CreateShader { stage, shader_type: 35632 }
    );
}

#[test]
fn shader_session_waits_for_its_answers() {
    let stage = ShaderStage::Fragment;
    let (issued, outcome) =
        replay(compile_shader(stage, "x"), vec![Reply::Obtained, Reply::Done]);
    assert_eq!(outcome, None);
    assert_eq!(issued.len(), 3);
    assert_eq!(issued[2], Command::CompileShader { stage });
}

#[test]
fn invalid_shader_source_is_reported_with_the_log() {
    let stage = ShaderStage::Vertex;
    let log = "ERROR: 0:1: 'attribut' : syntax error";
    let (issued, outcome) = replay(
        compile_shader(stage, "attribut vec4 position;"),
        vec![
            Reply::Obtained,
            Reply::Done,
            Reply::Done,
            Reply::Flag(Some(false)),
            Reply::Text(Some(log.to_string())),
        ],
    );
    assert_eq!(outcome, Some(Err(Error::ShaderCompileFailed(log.to_string()))));
    assert_eq!(issued.len(), 5);
    assert_eq!(issued[4], Command::GetShaderInfoLog { stage });
    match outcome {
        Some(Err(Error::ShaderCompileFailed(text))) => assert!(!text.is_empty()),
        _ => panic!("another outcome"),
    }
}

#[test]
fn shader_failure_without_log_has_the_fixed_text() {
    let (_, outcome) = replay(
        compile_shader(ShaderStage::Fragment, "?"),
        vec![
            Reply::Obtained,
            Reply::Done,
            Reply::Done,
            Reply::Flag(Some(false)),
            Reply::Text(None),
        ],
    );
    assert_eq!(
        outcome,
        Some(Err(Error::ShaderCompileFailed("Unknown error creating shader".to_string())))
    );
}

#[test]
fn shader_log_is_kept_as_the_host_gave_it() {
    let (_, outcome) = replay(
        compile_shader(ShaderStage::Fragment, "?"),
        vec![
            Reply::Obtained,
            Reply::Done,
            Reply::Done,
            Reply::Flag(Some(false)),
            Reply::Text(Some(String::new())),
        ],
    );
    assert_eq!(outcome, Some(Err(Error::ShaderCompileFailed(String::new()))));
}

#[test]
fn status_that_is_no_boolean_counts_as_failure() {
    let (issued, outcome) = replay(
        compile_shader(ShaderStage::Vertex, "?"),
        vec![
            Reply::Obtained,
            Reply::Done,
            Reply::Done,
            Reply::Flag(None),
            Reply::Text(Some("lost".to_string())),
        ],
    );
    assert_eq!(issued.len(), 5);
    assert_eq!(outcome, Some(Err(Error::ShaderCompileFailed("lost".to_string()))));
}

#[test]
fn shader_without_object_fails_at_once() {
    let stage = ShaderStage::Vertex;
    let (issued, outcome) = replay(compile_shader(stage, "x"), vec![Reply::Missing]);
    assert_eq!(issued, vec![Command::CreateShader { stage, shader_type: 35633 }]);
    assert_eq!(
        outcome,
        Some(Err(Error::ShaderCompileFailed("Unable to create shader object".to_string())))
    );
}

#[test]
fn answers_after_the_end_are_not_looked_at() {
    let (issued, outcome) = replay(
        compile_shader(ShaderStage::Vertex, "x"),
        vec![Reply::Missing, Reply::Obtained, Reply::Flag(Some(true))],
    );
    assert_eq!(issued.len(), 1);
    assert_eq!(
        outcome,
        Some(Err(Error::ShaderCompileFailed("Unable to create shader object".to_string())))
    );
}

#[test]
fn session_without_answers_has_asked_for_its_first_call() {
    let (issued, outcome) = replay(link_program(), Vec::new());
    assert_eq!(issued, vec![Command::CreateProgram]);
    assert_eq!(outcome, None);
}

#[test]
fn program_that_links_takes_five_calls() {
    let (issued, outcome) = replay(
        link_program(),
        vec![Reply::Obtained, Reply::Done, Reply::Done, Reply::Done, Reply::Flag(Some(true))],
    );
    assert_eq!(outcome, Some(Ok(())));
    assert_eq!(
        issued,
        vec![
            Command::CreateProgram,
            Command::AttachShader { stage: ShaderStage::Vertex },
            Command::AttachShader { stage: ShaderStage::Fragment },
            Command::LinkProgram,
            Command::GetProgramParameter { parameter: 35714 },
        ]
    );
}

#[test]
fn incompatible_shaders_are_reported_with_the_log() {
    let log = "Varyings with the same name but different type";
    let (issued, outcome) = replay(
        link_program(),
        vec![
            Reply::Obtained,
            Reply::Done,
            Reply::Done,
            Reply::Done,
            Reply::Flag(Some(false)),
            Reply::Text(Some(log.to_string())),
        ],
    );
    assert_eq!(issued.len(), 6);
    assert_eq!(issued[5], Command::GetProgramInfoLog);
    match outcome {
        Some(Err(Error::ProgramLinkFailed(text))) => {
            assert_eq!(text, log);
            assert!(!text.is_empty());
        }
        _ => panic!("another outcome"),
    }
}

#[test]
fn link_failure_without_log_has_the_fixed_text() {
    let (_, outcome) = replay(
        link_program(),
        vec![
            Reply::Obtained,
            Reply::Done,
            Reply::Done,
            Reply::Done,
            Reply::Flag(Some(false)),
            Reply::Text(None),
        ],
    );
    assert_eq!(
        outcome,
        Some(Err(Error::ProgramLinkFailed("Unknown error creating program object".to_string())))
    );
}

#[test]
fn program_without_object_fails_at_once() {
    let (issued, outcome) = replay(link_program(), vec![Reply::Missing]);
    assert_eq!(issued, vec![Command::CreateProgram]);
    assert_eq!(
        outcome,
        Some(Err(Error::ProgramLinkFailed("Unable to create shader object".to_string())))
    );
}

#[test]
fn vertex_shader_source_is_the_fixed_text() {
    let expected = "\n        attribute vec4 position;\n        attribute vec2 textureCoord;\n\n        varying highp vec2 vTextureCoord;\n\n        void main(void) {\n            gl_Position = position;\n            vTextureCoord = textureCoord;\n        }\n    ";
    assert_eq!(VERTEX_SHADER_SOURCE, expected);
}

#[test]
fn fragment_shader_source_is_the_fixed_text() {
    let expected = "\n        varying highp vec2 vTextureCoord;\n\n        uniform sampler2D image;\n\n        void main(void) {\n            if(vTextureCoord.x > 0.5) {\n            gl_FragColor = texture2D(image, vTextureCoord);\n            } else {\n            gl_FragColor = vec4(vTextureCoord.x, vTextureCoord.y, 0.0, 1.0);\n            }\n        }\n    ";
    assert_eq!(FRAGMENT_SHADER_SOURCE, expected);
}
