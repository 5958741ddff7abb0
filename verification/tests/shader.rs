use tetra_gl::device::GLDevice;
use tetra_gl::gl::{Attribute, GlCommand, ShaderKind, Uniform};
use tetra_gl::shader::{GlQuery, GlReply, ShaderBuilder, ShaderStep};
use tetra_gl::types::TetraError;

fn ask(step: ShaderStep) -> (Vec<GlCommand>, GlQuery) {
    match step {
        ShaderStep::Ask { commands, query } => (commands, query),
        ShaderStep::Finish { .. } => panic!("the build finished early"),
    }
}

fn finish(step: ShaderStep) -> (Vec<GlCommand>, Result<u32, TetraError>) {
    match step {
        ShaderStep::Finish { commands, result } => (commands, result.map(|p| p.id())),
        ShaderStep::Ask { .. } => panic!("the build did not finish"),
    }
}

#[test]
fn successful_build_links_and_sets_the_sampler() {
    let (mut device, _) = GLDevice::new(1);
    let (mut builder, first) = ShaderBuilder::new();
    assert_eq!(ask(first), (vec![], GlQuery::CreateProgram));

    let (cmds, query) = ask(builder.advance(&mut device, GlReply::Created(Ok(10))));
    assert_eq!(
        cmds,
        vec![
            GlCommand::BindAttribLocation { program: 10, index: 0, attribute: Attribute::Position },
            GlCommand::BindAttribLocation { program: 10, index: 1, attribute: Attribute::Uv },
            GlCommand::BindAttribLocation { program: 10, index: 2, attribute: Attribute::Color },
        ]
    );
    assert_eq!(query, GlQuery::CreateShader(glow::VERTEX_SHADER));

    let (cmds, query) = ask(builder.advance(&mut device, GlReply::Created(Ok(11))));
    assert_eq!(
        cmds,
        vec![
            GlCommand::ShaderSource { shader: 11, kind: ShaderKind::Vertex },
            GlCommand::CompileShader(11),
            GlCommand::AttachShader { program: 10, shader: 11 },
        ]
    );
    assert_eq!(query, GlQuery::ShaderCompileStatus(11));

    let (cmds, query) = ask(builder.advance(&mut device, GlReply::Status(true)));
    assert_eq!(cmds, vec![]);
    assert_eq!(query, GlQuery::CreateShader(glow::FRAGMENT_SHADER));

    let (cmds, query) = ask(builder.advance(&mut device, GlReply::Created(Ok(12))));
    assert_eq!(
        cmds,
        vec![
            GlCommand::ShaderSource { shader: 12, kind: ShaderKind::Fragment },
            GlCommand::CompileShader(12),
            GlCommand::AttachShader { program: 10, shader: 12 },
        ]
    );
    assert_eq!(query, GlQuery::ShaderCompileStatus(12));

    let (cmds, query) = ask(builder.advance(&mut device, GlReply::Status(true)));
    assert_eq!(cmds, vec![GlCommand::LinkProgram(10)]);
    assert_eq!(query, GlQuery::ProgramLinkStatus(10));

    let (cmds, query) = ask(builder.advance(&mut device, GlReply::Status(true)));
    assert_eq!(
        cmds,
        vec![
            GlCommand::DeleteShader(11),
            GlCommand::DeleteShader(12),
            GlCommand::UseProgram(Some(10)),
        ]
    );
    assert_eq!(query, GlQuery::UniformLocation { program: 10, uniform: Uniform::Texture });

    let (cmds, result) = finish(builder.advance(&mut device, GlReply::Location(Some(3))));
    assert_eq!(cmds, vec![GlCommand::Uniform1I32 { location: Some(3), value: 0 }]);
    assert_eq!(result, Ok(10));
    assert!(builder.is_finished());
}

#[test]
fn refused_program_is_a_platform_error() {
    let (mut device, _) = GLDevice::new(1);
    let (mut builder, _) = ShaderBuilder::new();
    let (cmds, result) =
        finish(builder.advance(&mut device, GlReply::Created(Err("no context".to_string()))));
    assert_eq!(cmds, vec![]);
    assert_eq!(result, Err(TetraError::PlatformError("no context".to_string())));
    assert!(builder.is_finished());
}

#[test]
fn refused_fragment_shader_is_a_platform_error() {
    let (mut device, _) = GLDevice::new(1);
    let (mut builder, _) = ShaderBuilder::new();
    ask(builder.advance(&mut device, GlReply::Created(Ok(10))));
    ask(builder.advance(&mut device, GlReply::Created(Ok(11))));
    ask(builder.advance(&mut device, GlReply::Status(true)));
    let (_, result) =
        finish(builder.advance(&mut device, GlReply::Created(Err("out of names".to_string()))));
    assert_eq!(result, Err(TetraError::PlatformError("out of names".to_string())));
}

#[test]
fn vertex_compile_failure_reports_the_shader_log() {
    let (mut device, _) = GLDevice::new(1);
    let (mut builder, _) = ShaderBuilder::new();
    ask(builder.advance(&mut device, GlReply::Created(Ok(10))));
    ask(builder.advance(&mut device, GlReply::Created(Ok(11))));
    let (cmds, query) = ask(builder.advance(&mut device, GlReply::Status(false)));
    assert_eq!(cmds, vec![]);
    assert_eq!(query, GlQuery::ShaderInfoLog(11));
    let (_, result) = finish(builder.advance(&mut device, GlReply::Log("syntax error".to_string())));
    assert_eq!(result, Err(TetraError::InvalidShader("syntax error".to_string())));
    assert!(builder.is_finished());
}

#[test]
fn fragment_compile_failure_reports_the_shader_log() {
    let (mut device, _) = GLDevice::new(1);
    let (mut builder, _) = ShaderBuilder::new();
    ask(builder.advance(&mut device, GlReply::Created(Ok(10))));
    ask(builder.advance(&mut device, GlReply::Created(Ok(11))));
    ask(builder.advance(&mut device, GlReply::Status(true)));
    ask(builder.advance(&mut device, GlReply::Created(Ok(12))));
    let (_, query) = ask(builder.advance(&mut device, GlReply::Status(false)));
    assert_eq!(query, GlQuery::ShaderInfoLog(12));
    let (_, result) = finish(builder.advance(&mut device, GlReply::Log("bad".to_string())));
    assert_eq!(result, Err(TetraError::InvalidShader("bad".to_string())));
}

#[test]
fn link_failure_reports_the_program_log_and_binds_nothing() {
    let (mut device, _) = GLDevice::new(1);
    let (mut builder, _) = ShaderBuilder::new();
    ask(builder.advance(&mut device, GlReply::Created(Ok(10))));
    ask(builder.advance(&mut device, GlReply::Created(Ok(11))));
    ask(builder.advance(&mut device, GlReply::Status(true)));
    ask(builder.advance(&mut device, GlReply::Created(Ok(12))));
    ask(builder.advance(&mut device, GlReply::Status(true)));
    let (cmds, query) = ask(builder.advance(&mut device, GlReply::Status(false)));
    assert_eq!(cmds, vec![]);
    assert_eq!(query, GlQuery::ProgramInfoLog(10));
    let (_, result) = finish(builder.advance(&mut device, GlReply::Log("link".to_string())));
    assert_eq!(result, Err(TetraError::InvalidShader("link".to_string())));
}

#[test]
fn missing_sampler_uniform_still_sets_location_none() {
    let (mut device, _) = GLDevice::new(1);
    let (mut builder, _) = ShaderBuilder::new();
    ask(builder.advance(&mut device, GlReply::Created(Ok(10))));
    ask(builder.advance(&mut device, GlReply::Created(Ok(11))));
    ask(builder.advance(&mut device, GlReply::Status(true)));
    ask(builder.advance(&mut device, GlReply::Created(Ok(12))));
    ask(builder.advance(&mut device, GlReply::Status(true)));
    ask(builder.advance(&mut device, GlReply::Status(true)));
    let (cmds, result) = finish(builder.advance(&mut device, GlReply::Location(None)));
    assert_eq!(cmds, vec![GlCommand::Uniform1I32 { location: None, value: 0 }]);
    assert_eq!(result, Ok(10));
}
