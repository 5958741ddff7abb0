//! Building a shader program: a sequence of GL calls in which each step
//! depends on what the context answered to the one before (an object name, a
//! compile or link status, an info log, a uniform location).
//!
//! The builder is a state machine. Each step takes the answer to the last
//! question and returns the calls to make next with the next question, or the
//! calls that finish the build with its result. The first failure ends the
//! build: a refused creation with the platform's message, a failed compile or
//! link with the info log.
use vstd::prelude::*;
use crate::device::{bind_plan, GLDevice};
use crate::gl::{
    keeps_track, lemma_keeps_track_compose, lemma_keeps_track_neutral, lemma_run_append,
    lemma_run_single, lemma_run_two, lemma_sets_filters_compose, lemma_sets_filters_neutral, run,
    sets_filters, Attribute, GlCommand, GlModel, ShaderKind, Uniform, FRAGMENT_SHADER, TEXTURE0,
    VERTEX_SHADER,
};
use crate::handles::GLProgram;
use crate::types::TetraError;

verus! {

/// A question for the GL context, whose answer the next step needs.
#[derive(Clone, Copy, Debug, PartialEq, Eq, Structural)]
pub enum GlQuery {
    /// Create a program object.
    CreateProgram,
    /// Create a shader object of the given type.
    CreateShader(u32),
    /// Did the shader compile?
    ShaderCompileStatus(u32),
    /// The shader's info log.
    ShaderInfoLog(u32),
    /// Did the program link?
    ProgramLinkStatus(u32),
    /// The program's info log.
    ProgramInfoLog(u32),
    /// Where the uniform is in the program.
    UniformLocation { program: u32, uniform: Uniform },
}

/// The context's answer to a `GlQuery`.
#[derive(Debug, PartialEq, Eq)]
pub enum GlReply {
    /// The name of the object created, or the platform's message.
    Created(Result<u32, String>),
    /// A compile or link status.
    Status(bool),
    /// An info log.
    Log(String),
    /// A uniform's location, if the program has the uniform.
    Location(Option<u32>),
}

/// Where a build stands: what has been created, and what answer it awaits.
#[derive(Clone, Copy, Debug, PartialEq, Eq, Structural)]
pub enum ShaderStage {
    CreatingProgram,
    CreatingVertexShader { program: u32 },
    CompilingVertexShader { program: u32, vertex: u32 },
    CreatingFragmentShader { program: u32, vertex: u32 },
    CompilingFragmentShader { program: u32, vertex: u32, fragment: u32 },
    Linking { program: u32, vertex: u32, fragment: u32 },
    ReadingLog,
    LocatingSampler { program: u32 },
    Finished,
}

/// What a step hands back.
pub enum ShaderStep {
    /// Make these calls, then answer this question.
    Ask { commands: Vec<GlCommand>, query: GlQuery },
    /// Make these calls; the build is over.
    Finish { commands: Vec<GlCommand>, result: Result<GLProgram, TetraError> },
}

/// A step as a value: the program of a finished build by its GL name.
pub enum StepView {
    Ask(Seq<GlCommand>, GlQuery),
    Finish(Seq<GlCommand>, Result<u32, TetraError>),
}

impl StepView {
    pub open spec fn commands(self) -> Seq<GlCommand> {
        match self {
            StepView::Ask(c, _) => c,
            StepView::Finish(c, _) => c,
        }
    }
}

impl View for ShaderStep {
    type V = StepView;

    open spec fn view(&self) -> StepView {
        match self {
            ShaderStep::Ask { commands, query } => StepView::Ask(commands@, *query),
            ShaderStep::Finish { commands, result } => StepView::Finish(
                commands@,
                match result {
                    Ok(p) => Ok(p.spec_id()),
                    Err(e) => Err(*e),
                },
            ),
        }
    }
}

/// The kind of answer that a stage awaits; a finished build awaits none.
pub open spec fn expects(stage: ShaderStage, reply: GlReply) -> bool {
    match stage {
        ShaderStage::CreatingProgram => reply is Created,
        ShaderStage::CreatingVertexShader { .. } => reply is Created,
        ShaderStage::CreatingFragmentShader { .. } => reply is Created,
        ShaderStage::CompilingVertexShader { .. } => reply is Status,
        ShaderStage::CompilingFragmentShader { .. } => reply is Status,
        ShaderStage::Linking { .. } => reply is Status,
        ShaderStage::ReadingLog => reply is Log,
        ShaderStage::LocatingSampler { .. } => reply is Location,
        ShaderStage::Finished => false,
    }
}

/// The stage that a build moves to on an answer. A refused creation ends
/// it; a failed compile or link goes on to read the log, which ends it.
pub open spec fn next_stage(stage: ShaderStage, reply: GlReply) -> ShaderStage {
    match (stage, reply) {
        (ShaderStage::CreatingProgram, GlReply::Created(Ok(p))) => ShaderStage::CreatingVertexShader {
            program: p,
        },
        (ShaderStage::CreatingVertexShader { program }, GlReply::Created(Ok(v))) => ShaderStage::CompilingVertexShader { program, vertex: v },
        (ShaderStage::CompilingVertexShader { program, vertex }, GlReply::Status(ok)) => if ok {
            ShaderStage::CreatingFragmentShader { program, vertex }
        } else {
            ShaderStage::ReadingLog
        },
        (ShaderStage::CreatingFragmentShader { program, vertex }, GlReply::Created(Ok(f))) => ShaderStage::CompilingFragmentShader { program, vertex, fragment: f },
        (
            ShaderStage::CompilingFragmentShader { program, vertex, fragment },
            GlReply::Status(ok),
        ) => if ok {
            ShaderStage::Linking { program, vertex, fragment }
        } else {
            ShaderStage::ReadingLog
        },
        (ShaderStage::Linking { program, .. }, GlReply::Status(ok)) => if ok {
            ShaderStage::LocatingSampler { program }
        } else {
            ShaderStage::ReadingLog
        },
        _ => ShaderStage::Finished,
    }
}

/// The calls that point the fixed attributes of `program` at their
/// locations: position at 0, texture coordinates at 1, colour at 2.
pub open spec fn attribute_calls(program: u32) -> Seq<GlCommand> {
    seq![
        GlCommand::BindAttribLocation { program, index: 0, attribute: Attribute::Position },
        GlCommand::BindAttribLocation { program, index: 1, attribute: Attribute::Uv },
        GlCommand::BindAttribLocation { program, index: 2, attribute: Attribute::Color },
    ]
}

/// The calls that give shader `shader` its source, compile it, and attach it
/// to `program`.
pub open spec fn compile_calls(program: u32, shader: u32, kind: ShaderKind) -> Seq<GlCommand> {
    seq![
        GlCommand::ShaderSource { shader, kind },
        GlCommand::CompileShader(shader),
        GlCommand::AttachShader { program, shader },
    ]
}

/// The step that a stage takes on an answer, when the device has
/// `bound_program` current.
pub open spec fn step_view(stage: ShaderStage, reply: GlReply, bound_program: Option<u32>) -> StepView {
    match (stage, reply) {
        (ShaderStage::CreatingProgram, GlReply::Created(Ok(p))) => StepView::Ask(
            attribute_calls(p),
            GlQuery::CreateShader(VERTEX_SHADER),
        ),
        (ShaderStage::CreatingVertexShader { program }, GlReply::Created(Ok(v))) => StepView::Ask(
            compile_calls(program, v, ShaderKind::Vertex),
            GlQuery::ShaderCompileStatus(v),
        ),
        (ShaderStage::CompilingVertexShader { vertex, .. }, GlReply::Status(ok)) => if ok {
            StepView::Ask(Seq::empty(), GlQuery::CreateShader(FRAGMENT_SHADER))
        } else {
            StepView::Ask(Seq::empty(), GlQuery::ShaderInfoLog(vertex))
        },
        (ShaderStage::CreatingFragmentShader { program, .. }, GlReply::Created(Ok(f))) => StepView::Ask(
            compile_calls(program, f, ShaderKind::Fragment),
            GlQuery::ShaderCompileStatus(f),
        ),
        (ShaderStage::CompilingFragmentShader { program, fragment, .. }, GlReply::Status(ok)) => if ok {
            StepView::Ask(seq![GlCommand::LinkProgram(program)], GlQuery::ProgramLinkStatus(program))
        } else {
            StepView::Ask(Seq::empty(), GlQuery::ShaderInfoLog(fragment))
        },
        (ShaderStage::Linking { program, vertex, fragment }, GlReply::Status(ok)) => if ok {
            StepView::Ask(
                seq![GlCommand::DeleteShader(vertex), GlCommand::DeleteShader(fragment)]
                    + bind_plan(
                    bound_program,
                    Some(program),
                    seq![GlCommand::UseProgram(Some(program))],
                ),
                GlQuery::UniformLocation { program, uniform: Uniform::Texture },
            )
        } else {
            StepView::Ask(Seq::empty(), GlQuery::ProgramInfoLog(program))
        },
        (ShaderStage::LocatingSampler { program }, GlReply::Location(location)) => StepView::Finish(
            seq![GlCommand::Uniform1I32 { location, value: 0 }],
            Ok(program),
        ),
        (ShaderStage::ReadingLog, GlReply::Log(log)) => StepView::Finish(
            Seq::empty(),
            Err(TetraError::InvalidShader(log)),
        ),
        (_, GlReply::Created(Err(message))) => StepView::Finish(
            Seq::empty(),
            Err(TetraError::PlatformError(message)),
        ),
        _ => StepView::Finish(Seq::empty(), Err(TetraError::PlatformError(arbitrary()))),
    }
}

/// Whether a step makes the program current: only the one that follows a
/// successful link.
pub open spec fn step_uses_program(stage: ShaderStage, reply: GlReply) -> Option<u32> {
    match (stage, reply) {
        (ShaderStage::Linking { program, .. }, GlReply::Status(true)) => Some(program),
        _ => None,
    }
}

/// Law: the step that finishes a successful build points the sampler
/// uniform at texture unit 0, wherever the context put the uniform, with
/// exactly one call, and yields the program that was built; unit 0 is the
/// unit that binding a texture activates.
pub proof fn lemma_sampler_reads_unit_zero(
    program: u32,
    location: Option<u32>,
    bound_program: Option<u32>,
    texture: Option<u32>,
)
    ensures
        step_view(
            ShaderStage::LocatingSampler { program },
            GlReply::Location(location),
            bound_program,
        ) == StepView::Finish(seq![GlCommand::Uniform1I32 { location, value: 0 }], Ok(program)),
        crate::device::texture_bind_calls(texture)[0] == GlCommand::ActiveTexture(TEXTURE0),
        TEXTURE0 + 0 == TEXTURE0,
{
}

/// Law: a refused creation ends the build at once with the platform's
/// message and no call, at whichever of the three creations it comes; a
/// failed compile asks for the log of the shader that failed, a failed link
/// for the log of the program; and a log ends the build with that log as
/// the error.
pub proof fn lemma_failures_carry_their_text(
    program: u32,
    vertex: u32,
    fragment: u32,
    message: String,
    bound_program: Option<u32>,
)
    ensures
        step_view(ShaderStage::CreatingProgram, GlReply::Created(Err(message)), bound_program)
            == StepView::Finish(Seq::empty(), Err(TetraError::PlatformError(message))),
        step_view(
            ShaderStage::CreatingVertexShader { program },
            GlReply::Created(Err(message)),
            bound_program,
        ) == StepView::Finish(Seq::empty(), Err(TetraError::PlatformError(message))),
        step_view(
            ShaderStage::CreatingFragmentShader { program, vertex },
            GlReply::Created(Err(message)),
            bound_program,
        ) == StepView::Finish(Seq::empty(), Err(TetraError::PlatformError(message))),
        step_view(
            ShaderStage::CompilingVertexShader { program, vertex },
            GlReply::Status(false),
            bound_program,
        ) == StepView::Ask(Seq::empty(), GlQuery::ShaderInfoLog(vertex)),
        step_view(
            ShaderStage::CompilingFragmentShader { program, vertex, fragment },
            GlReply::Status(false),
            bound_program,
        ) == StepView::Ask(Seq::empty(), GlQuery::ShaderInfoLog(fragment)),
        step_view(
            ShaderStage::Linking { program, vertex, fragment },
            GlReply::Status(false),
            bound_program,
        ) == StepView::Ask(Seq::empty(), GlQuery::ProgramInfoLog(program)),
        step_view(ShaderStage::ReadingLog, GlReply::Log(message), bound_program) == StepView::Finish(
            Seq::empty(),
            Err(TetraError::InvalidShader(message)),
        ),
        next_stage(ShaderStage::CompilingVertexShader { program, vertex }, GlReply::Status(false))
            == ShaderStage::ReadingLog,
        next_stage(
            ShaderStage::CompilingFragmentShader { program, vertex, fragment },
            GlReply::Status(false),
        ) == ShaderStage::ReadingLog,
        next_stage(ShaderStage::Linking { program, vertex, fragment }, GlReply::Status(false))
            == ShaderStage::ReadingLog,
{
}

/// Law: once the program exists, the step binds the position attribute to
/// location 0, the texture coordinates to 1 and the colour to 2, all on that
/// program, and asks for a vertex shader.
pub proof fn lemma_attributes_at_fixed_locations(program: u32, bound_program: Option<u32>)
    ensures
        ({
            let step = step_view(
                ShaderStage::CreatingProgram,
                GlReply::Created(Ok(program)),
                bound_program,
            );
            &&& step matches StepView::Ask(cmds, query) && query == GlQuery::CreateShader(
                VERTEX_SHADER,
            ) && cmds.len() == 3 && cmds.contains(
                GlCommand::BindAttribLocation { program, index: 0, attribute: Attribute::Position },
            ) && cmds.contains(
                GlCommand::BindAttribLocation { program, index: 1, attribute: Attribute::Uv },
            ) && cmds.contains(
                GlCommand::BindAttribLocation { program, index: 2, attribute: Attribute::Color },
            )
        }),
{
    let cmds = attribute_calls(program);
    assert(cmds[0] == GlCommand::BindAttribLocation {
        program,
        index: 0,
        attribute: Attribute::Position,
    });
    assert(cmds[1] == GlCommand::BindAttribLocation { program, index: 1, attribute: Attribute::Uv });
    assert(cmds[2] == GlCommand::BindAttribLocation {
        program,
        index: 2,
        attribute: Attribute::Color,
    });
}

/// Law: each new shader is given the source of its own kind, compiled, and
/// attached to the program being built, and then its compile status is asked
/// for; the vertex shader is created first, the fragment shader second.
pub proof fn lemma_shaders_compiled_and_attached(
    program: u32,
    vertex: u32,
    fragment: u32,
    bound_program: Option<u32>,
)
    ensures
        step_view(
            ShaderStage::CreatingVertexShader { program },
            GlReply::Created(Ok(vertex)),
            bound_program,
        ) == StepView::Ask(
            seq![
                GlCommand::ShaderSource { shader: vertex, kind: ShaderKind::Vertex },
                GlCommand::CompileShader(vertex),
                GlCommand::AttachShader { program, shader: vertex },
            ],
            GlQuery::ShaderCompileStatus(vertex),
        ),
        step_view(
            ShaderStage::CreatingFragmentShader { program, vertex },
            GlReply::Created(Ok(fragment)),
            bound_program,
        ) == StepView::Ask(
            seq![
                GlCommand::ShaderSource { shader: fragment, kind: ShaderKind::Fragment },
                GlCommand::CompileShader(fragment),
                GlCommand::AttachShader { program, shader: fragment },
            ],
            GlQuery::ShaderCompileStatus(fragment),
        ),
        step_view(
            ShaderStage::CompilingVertexShader { program, vertex },
            GlReply::Status(true),
            bound_program,
        ) == StepView::Ask(Seq::empty(), GlQuery::CreateShader(FRAGMENT_SHADER)),
        step_view(
            ShaderStage::CompilingFragmentShader { program, vertex, fragment },
            GlReply::Status(true),
            bound_program,
        ) == StepView::Ask(seq![GlCommand::LinkProgram(program)], GlQuery::ProgramLinkStatus(program)),
{
}

/// Law: after a successful link both shaders are deleted, the program is
/// current on any context whose program the device's cache holds, and the
/// location of the sampler uniform in that program is asked for.
pub proof fn lemma_link_cleans_up_and_uses_program(
    program: u32,
    vertex: u32,
    fragment: u32,
    bound_program: Option<u32>,
    m: GlModel,
)
    requires
        m.bindings.program == bound_program,
    ensures
        step_view(
            ShaderStage::Linking { program, vertex, fragment },
            GlReply::Status(true),
            bound_program,
        ) matches StepView::Ask(cmds, query) && query == (GlQuery::UniformLocation {
            program,
            uniform: Uniform::Texture,
        }) && cmds.take(2) == seq![GlCommand::DeleteShader(vertex), GlCommand::DeleteShader(fragment)]
            && run(m, cmds).bindings.program == Some(program),
{
    let cmds = step_view(
        ShaderStage::Linking { program, vertex, fragment },
        GlReply::Status(true),
        bound_program,
    ).commands();
    let head = seq![GlCommand::DeleteShader(vertex), GlCommand::DeleteShader(fragment)];
    let tail = bind_plan(bound_program, Some(program), seq![GlCommand::UseProgram(Some(program))]);
    assert(cmds.take(2) =~= head);
    lemma_run_append(m, head, tail);
    lemma_run_two(m, head[0], head[1]);
    assert(head =~= seq![head[0], head[1]]);
    if bound_program != Some(program) {
        lemma_run_single(run(m, head), GlCommand::UseProgram(Some(program)));
    }
}

/// How many answers a build can still take at most.
pub open spec fn stage_rank(stage: ShaderStage) -> nat {
    match stage {
        ShaderStage::CreatingProgram => 7,
        ShaderStage::CreatingVertexShader { .. } => 6,
        ShaderStage::CompilingVertexShader { .. } => 5,
        ShaderStage::CreatingFragmentShader { .. } => 4,
        ShaderStage::CompilingFragmentShader { .. } => 3,
        ShaderStage::Linking { .. } => 2,
        ShaderStage::ReadingLog => 1,
        ShaderStage::LocatingSampler { .. } => 1,
        ShaderStage::Finished => 0,
    }
}

/// Law: every answer moves a build forward, so a build ends after at most
/// seven answers; and a step finishes the build exactly when the build
/// moves to its end.
pub proof fn lemma_build_progresses(stage: ShaderStage, reply: GlReply, bound_program: Option<u32>)
    requires
        expects(stage, reply),
    ensures
        stage_rank(next_stage(stage, reply)) < stage_rank(stage),
        (step_view(stage, reply, bound_program) is Finish) == (next_stage(stage, reply) is Finished),
{
}

/// The stage that a build reaches from its start on the answers `replies`.
pub open spec fn stage_after(replies: Seq<GlReply>) -> ShaderStage
    decreases replies.len(),
{
    if replies.len() == 0 {
        ShaderStage::CreatingProgram
    } else {
        next_stage(stage_after(replies.drop_last()), replies.last())
    }
}

/// The answers of a build that goes well: the program, the vertex shader
/// and the fragment shader are created, both shaders compile, and the
/// program links.
pub open spec fn succeeding_replies(program: u32, vertex: u32, fragment: u32) -> Seq<GlReply> {
    seq![
        GlReply::Created(Ok(program)),
        GlReply::Created(Ok(vertex)),
        GlReply::Status(true),
        GlReply::Created(Ok(fragment)),
        GlReply::Status(true),
        GlReply::Status(true),
    ]
}

/// The answers are those of a build of `program` that goes well.
pub open spec fn succeeds_with(replies: Seq<GlReply>, program: u32) -> bool {
    exists|vertex: u32, fragment: u32| replies == succeeding_replies(program, vertex, fragment)
}

/// Each stage of a build that has not failed is reached by exactly the
/// answers that lead to it.
proof fn lemma_stage_after_shape(rs: Seq<GlReply>)
    ensures
        stage_after(rs) is CreatingProgram ==> rs.len() == 0,
        stage_after(rs) matches ShaderStage::CreatingVertexShader { program } ==> rs
            =~= succeeding_replies(program, 0, 0).take(1),
        stage_after(rs) matches ShaderStage::CompilingVertexShader { program, vertex } ==> rs
            =~= succeeding_replies(program, vertex, 0).take(2),
        stage_after(rs) matches ShaderStage::CreatingFragmentShader { program, vertex } ==> rs
            =~= succeeding_replies(program, vertex, 0).take(3),
        stage_after(rs) matches ShaderStage::CompilingFragmentShader { program, vertex, fragment }
            ==> rs =~= succeeding_replies(program, vertex, fragment).take(4),
        stage_after(rs) matches ShaderStage::Linking { program, vertex, fragment } ==> rs
            =~= succeeding_replies(program, vertex, fragment).take(5),
        stage_after(rs) matches ShaderStage::LocatingSampler { program } ==> succeeds_with(
            rs,
            program,
        ),
    decreases rs.len(),
{
    if rs.len() > 0 {
        let init = rs.drop_last();
        lemma_stage_after_shape(init);
        assert(rs =~= init.push(rs.last()));
        match stage_after(init) {
            ShaderStage::Linking { program, vertex, fragment } => {
                if stage_after(rs) is LocatingSampler {
                    let all = succeeding_replies(program, vertex, fragment);
                    assert(init =~= all.take(5));
                    assert(rs.last() == GlReply::Status(true));
                    assert(rs =~= all);
                    assert(stage_after(rs) == ShaderStage::LocatingSampler { program });
                    assert(succeeds_with(rs, program));
                }
            },
            _ => {
                assert(!(stage_after(rs) is LocatingSampler));
            },
        }
    } else {
        assert(stage_after(rs) is CreatingProgram);
    }
}

/// Law: a build locates the sampler of program `program` (the step whose
/// answer finishes it with that program) exactly when its answers were:
/// `program` created, a vertex shader created and compiled, a fragment
/// shader created and compiled, and the program linked.
pub proof fn lemma_build_succeeds_only_after_link(replies: Seq<GlReply>, program: u32)
    ensures
        (stage_after(replies) == ShaderStage::LocatingSampler { program }) <==> succeeds_with(
            replies,
            program,
        ),
{
    lemma_stage_after_shape(replies);
    if succeeds_with(replies, program) {
        let (vertex, fragment) = choose|vertex: u32, fragment: u32|
            replies == succeeding_replies(program, vertex, fragment);
        let all = succeeding_replies(program, vertex, fragment);
        assert(all.take(0).len() == 0);
        assert(stage_after(all.take(0)) == ShaderStage::CreatingProgram);
        assert(all.take(1).drop_last() =~= all.take(0));
        assert(stage_after(all.take(1)) == ShaderStage::CreatingVertexShader { program });
        assert(all.take(2).drop_last() =~= all.take(1));
        assert(stage_after(all.take(2)) == ShaderStage::CompilingVertexShader { program, vertex });
        assert(all.take(3).drop_last() =~= all.take(2));
        assert(stage_after(all.take(3)) == ShaderStage::CreatingFragmentShader { program, vertex });
        assert(all.take(4).drop_last() =~= all.take(3));
        assert(stage_after(all.take(4)) == ShaderStage::CompilingFragmentShader {
            program,
            vertex,
            fragment,
        });
        assert(all.take(5).drop_last() =~= all.take(4));
        assert(stage_after(all.take(5)) == ShaderStage::Linking { program, vertex, fragment });
        assert(all.drop_last() =~= all.take(5));
        assert(stage_after(all) == ShaderStage::LocatingSampler { program });
        assert(replies == all);
    }
}

/// A build in progress, for two shader sources that the caller holds.
pub struct ShaderBuilder {
    stage: ShaderStage,
}

impl ShaderBuilder {
    pub closed spec fn stage(&self) -> ShaderStage {
        self.stage
    }

    /// Starts a build: the first question asks for a program object.
    pub fn new() -> (r: (ShaderBuilder, ShaderStep))
        ensures
            r.0.stage() == ShaderStage::CreatingProgram,
            r.1@ == StepView::Ask(Seq::empty(), GlQuery::CreateProgram),
    {
        let commands: Vec<GlCommand> = Vec::new();
        (
            ShaderBuilder { stage: ShaderStage::CreatingProgram },
            ShaderStep::Ask { commands, query: GlQuery::CreateProgram },
        )
    }

    /// Whether the build is over.
    pub fn is_finished(&self) -> (r: bool)
        ensures
            r == (self.stage() is Finished),
    {
        match self.stage {
            ShaderStage::Finished => true,
            _ => false,
        }
    }

    /// Takes the answer to the last question and returns the next step.
    /// The device makes the program current after a successful link, as
    /// setting the sampler uniform needs.
    pub fn advance(&mut self, device: &mut GLDevice, reply: GlReply) -> (step: ShaderStep)
        requires
            expects(old(self).stage(), reply),
        ensures
            final(self).stage() == next_stage(old(self).stage(), reply),
            step@ == step_view(old(self).stage(), reply, old(device)@.bindings.program),
            final(device)@ == match step_uses_program(old(self).stage(), reply) {
                Some(p) => old(device)@.with_bindings(old(device)@.bindings.with_program(Some(p))),
                None => old(device)@,
            },
            keeps_track(old(device)@.bindings, step@.commands(), final(device)@.bindings),
            sets_filters(old(device)@.bindings, step@.commands(), None),
    {
        let stage = self.stage;
        let ghost b = device@.bindings;
        let mut commands: Vec<GlCommand> = Vec::new();
        proof {
            lemma_sets_filters_neutral(b, commands@);
        }
        match stage {
            ShaderStage::CreatingProgram => match reply {
                GlReply::Created(Ok(p)) => {
                    self.stage = ShaderStage::CreatingVertexShader { program: p };
                    commands.push(
                        GlCommand::BindAttribLocation {
                            program: p,
                            index: 0,
                            attribute: Attribute::Position,
                        },
                    );
                    commands.push(
                        GlCommand::BindAttribLocation { program: p, index: 1, attribute: Attribute::Uv },
                    );
                    commands.push(
                        GlCommand::BindAttribLocation {
                            program: p,
                            index: 2,
                            attribute: Attribute::Color,
                        },
                    );
                    proof {
                        assert(commands@ =~= attribute_calls(p));
                        lemma_keeps_track_neutral(b, commands@);
                        lemma_sets_filters_neutral(b, commands@);
                    }
                    ShaderStep::Ask { commands, query: GlQuery::CreateShader(VERTEX_SHADER) }
                },
                GlReply::Created(Err(message)) => {
                    self.stage = ShaderStage::Finished;
                    ShaderStep::Finish { commands, result: Err(TetraError::PlatformError(message)) }
                },
                _ => {
                    proof {
                        assert(false);
                    }
                    ShaderStep::Finish { commands, result: Err(TetraError::PlatformError(String::new())) }
                },
            },
            ShaderStage::CreatingVertexShader { program } => match reply {
                GlReply::Created(Ok(v)) => {
                    self.stage = ShaderStage::CompilingVertexShader { program, vertex: v };
                    commands.push(GlCommand::ShaderSource { shader: v, kind: ShaderKind::Vertex });
                    commands.push(GlCommand::CompileShader(v));
                    commands.push(GlCommand::AttachShader { program, shader: v });
                    proof {
                        assert(commands@ =~= compile_calls(program, v, ShaderKind::Vertex));
                        lemma_keeps_track_neutral(b, commands@);
                        lemma_sets_filters_neutral(b, commands@);
                    }
                    ShaderStep::Ask { commands, query: GlQuery::ShaderCompileStatus(v) }
                },
                GlReply::Created(Err(message)) => {
                    self.stage = ShaderStage::Finished;
                    ShaderStep::Finish { commands, result: Err(TetraError::PlatformError(message)) }
                },
                _ => {
                    proof {
                        assert(false);
                    }
                    ShaderStep::Finish { commands, result: Err(TetraError::PlatformError(String::new())) }
                },
            },
            ShaderStage::CompilingVertexShader { program, vertex } => match reply {
                GlReply::Status(ok) => {
                    if ok {
                        self.stage = ShaderStage::CreatingFragmentShader { program, vertex };
                        ShaderStep::Ask { commands, query: GlQuery::CreateShader(FRAGMENT_SHADER) }
                    } else {
                        self.stage = ShaderStage::ReadingLog;
                        ShaderStep::Ask { commands, query: GlQuery::ShaderInfoLog(vertex) }
                    }
                },
                _ => {
                    proof {
                        assert(false);
                    }
                    ShaderStep::Finish { commands, result: Err(TetraError::PlatformError(String::new())) }
                },
            },
            ShaderStage::CreatingFragmentShader { program, vertex } => match reply {
                GlReply::Created(Ok(f)) => {
                    self.stage = ShaderStage::CompilingFragmentShader { program, vertex, fragment: f };
                    commands.push(GlCommand::ShaderSource { shader: f, kind: ShaderKind::Fragment });
                    commands.push(GlCommand::CompileShader(f));
                    commands.push(GlCommand::AttachShader { program, shader: f });
                    proof {
                        assert(commands@ =~= compile_calls(program, f, ShaderKind::Fragment));
                        lemma_keeps_track_neutral(b, commands@);
                        lemma_sets_filters_neutral(b, commands@);
                    }
                    ShaderStep::Ask { commands, query: GlQuery::ShaderCompileStatus(f) }
                },
                GlReply::Created(Err(message)) => {
                    self.stage = ShaderStage::Finished;
                    ShaderStep::Finish { commands, result: Err(TetraError::PlatformError(message)) }
                },
                _ => {
                    proof {
                        assert(false);
                    }
                    ShaderStep::Finish { commands, result: Err(TetraError::PlatformError(String::new())) }
                },
            },
            ShaderStage::CompilingFragmentShader { program, vertex, fragment } => match reply {
                GlReply::Status(ok) => {
                    if ok {
                        self.stage = ShaderStage::Linking { program, vertex, fragment };
                        commands.push(GlCommand::LinkProgram(program));
                        proof {
                            lemma_keeps_track_neutral(b, commands@);
                        lemma_sets_filters_neutral(b, commands@);
                        }
                        ShaderStep::Ask { commands, query: GlQuery::ProgramLinkStatus(program) }
                    } else {
                        self.stage = ShaderStage::ReadingLog;
                        ShaderStep::Ask { commands, query: GlQuery::ShaderInfoLog(fragment) }
                    }
                },
                _ => {
                    proof {
                        assert(false);
                    }
                    ShaderStep::Finish { commands, result: Err(TetraError::PlatformError(String::new())) }
                },
            },
            ShaderStage::Linking { program, vertex, fragment } => match reply {
                GlReply::Status(ok) => {
                    if ok {
                        self.stage = ShaderStage::LocatingSampler { program };
                        commands.push(GlCommand::DeleteShader(vertex));
                        commands.push(GlCommand::DeleteShader(fragment));
                        let ghost head = commands@;
                        let handle = GLProgram::new(program);
                        let mut bind = device.use_shader(&handle);
                        let ghost tail = bind@;
                        commands.append(&mut bind);
                        proof {
                            lemma_keeps_track_neutral(b, head);
                            lemma_keeps_track_compose(b, head, b, tail, device@.bindings);
                            lemma_sets_filters_neutral(b, head);
                            lemma_sets_filters_compose(b, head, b, tail, None, None);
                            assert(head =~= seq![
                                GlCommand::DeleteShader(vertex),
                                GlCommand::DeleteShader(fragment),
                            ]);
                            assert(commands@ =~= head + tail);
                        }
                        ShaderStep::Ask {
                            commands,
                            query: GlQuery::UniformLocation { program, uniform: Uniform::Texture },
                        }
                    } else {
                        self.stage = ShaderStage::ReadingLog;
                        ShaderStep::Ask { commands, query: GlQuery::ProgramInfoLog(program) }
                    }
                },
                _ => {
                    proof {
                        assert(false);
                    }
                    ShaderStep::Finish { commands, result: Err(TetraError::PlatformError(String::new())) }
                },
            },
            ShaderStage::LocatingSampler { program } => match reply {
                GlReply::Location(location) => {
                    self.stage = ShaderStage::Finished;
                    commands.push(GlCommand::Uniform1I32 { location, value: 0 });
                    proof {
                        lemma_keeps_track_neutral(b, commands@);
                        lemma_sets_filters_neutral(b, commands@);
                    }
                    ShaderStep::Finish { commands, result: Ok(GLProgram::new(program)) }
                },
                _ => {
                    proof {
                        assert(false);
                    }
                    ShaderStep::Finish { commands, result: Err(TetraError::PlatformError(String::new())) }
                },
            },
            ShaderStage::ReadingLog => match reply {
                GlReply::Log(log) => {
                    self.stage = ShaderStage::Finished;
                    ShaderStep::Finish { commands, result: Err(TetraError::InvalidShader(log)) }
                },
                _ => {
                    proof {
                        assert(false);
                    }
                    ShaderStep::Finish { commands, result: Err(TetraError::PlatformError(String::new())) }
                },
            },
            ShaderStage::Finished => {
                proof {
                    assert(false);
                }
                ShaderStep::Finish { commands, result: Err(TetraError::PlatformError(String::new())) }
            },
        }
    }
}

} // verus!
