//! Shader programs: compiling the two stages, linking them, and feeding the
//! linked program its uniforms.

use vstd::prelude::*;
use vstd::string::*;
use crate::command::{
    lemma_views_concat, views, Command, CommandView, Handle, ObjectKind, Reply, StageKind, UniformKind,
};
use crate::context::{
    lemma_release_commands, lemma_releases_concat, lemma_run_concat, lemma_run_inert,
    lemma_run_keeps_live, lemma_run_push, Batch, ContextState, GraphicsContext,
};
use crate::progress::{lemma_followed_by, Progress, Turn, Verdict};
use crate::text::{contains_terminator, has_terminator, wrap_string, wrapped};

verus! {

/// Why a stage could not be compiled. Whatever the reason, a line that says
/// so was printed.
#[derive(Clone, Copy, PartialEq, Eq, Structural, Debug)]
pub enum StageError {
    /// The source holds a zero byte, which would end it early for the
    /// driver. Nothing was sent to the driver.
    Terminator,
    /// The driver issued no name for the stage, or one that is in use.
    NoObject,
    /// The driver rejected the source. Its log was printed and the stage
    /// released.
    Rejected,
}

/// The handle of the object of kind `Stage` named `stage`.
pub open spec fn stage_handle(stage: u32) -> Handle {
    Handle { kind: ObjectKind::Stage, id: stage }
}

/// The handle of the object of kind `Program` named `program`.
pub open spec fn program_handle(program: u32) -> Handle {
    Handle { kind: ObjectKind::Program, id: program }
}

/// The line printed when the driver rejects a stage: the driver's log as it
/// stands, after a fixed prefix.
pub open spec fn failure_line(log: Seq<u8>) -> Seq<char> {
    "FAILED TO COMPILE. "@ + match wrapped(log) {
        Some(text) => text,
        None => "<log is not UTF-8>"@,
    }
}

/// The line printed when a source cannot be sent to the driver.
pub open spec fn terminator_line() -> Seq<char> {
    "FAILED TO COMPILE. <source holds a zero byte>"@
}

/// The line printed when the driver issues no usable name for a stage.
pub open spec fn no_stage_line() -> Seq<char> {
    "FAILED TO COMPILE. <no stage object>"@
}

/// The line printed when the driver issues no usable name for a program.
pub open spec fn no_program_line() -> Seq<char> {
    "FAILED TO LINK. <no program object>"@
}

/// The room asked for when the driver says its log is `length` bytes long.
pub open spec fn log_capacity(length: i32) -> i32 {
    if length < 0 {
        0
    } else {
        length
    }
}

/// The compilation of one stage, between two turns.
pub enum StageBuild {
    /// Nothing was sent yet.
    Start { kind: StageKind, source: String },
    /// The stage object was asked for; its name is awaited.
    Created { source: String },
    /// The source was sent and compiled; the compile status is awaited.
    Compiled { stage: u32 },
    /// The compilation failed; the length of the log is awaited.
    Measured { stage: u32 },
    /// The log was asked for and is awaited.
    Logged { stage: u32 },
}

impl StageBuild {
    /// What the next turn amounts to, given the state of the context and
    /// the reply to the turn before.
    pub open spec fn step(self, context: ContextState, reply: Reply) -> Turn<
        StageBuild,
        Result<u32, StageError>,
    > {
        match self {
            StageBuild::Start { kind, source } => if has_terminator(source@) {
                Turn {
                    adopted: None,
                    commands: seq![CommandView::Print { line: terminator_line() }],
                    context,
                    verdict: Verdict::Finish(Err(StageError::Terminator)),
                }
            } else {
                Turn {
                    adopted: None,
                    commands: seq![CommandView::CreateShader { kind }],
                    context,
                    verdict: Verdict::Continue(StageBuild::Created { source }),
                }
            },
            StageBuild::Created { source } => {
                let stage = reply.spec_handle();
                if context.adoptable(stage_handle(stage)) {
                    Turn {
                        adopted: Some(stage_handle(stage)),
                        commands: seq![
                            CommandView::ShaderSource { stage, source: source@ },
                            CommandView::CompileShader { stage },
                            CommandView::GetCompileStatus { stage },
                        ],
                        context: context.adopt(stage_handle(stage)),
                        verdict: Verdict::Continue(StageBuild::Compiled { stage }),
                    }
                } else {
                    Turn {
                        adopted: None,
                        commands: seq![CommandView::Print { line: no_stage_line() }],
                        context,
                        verdict: Verdict::Finish(Err(StageError::NoObject)),
                    }
                }
            },
            StageBuild::Compiled { stage } => if reply.spec_status() {
                Turn {
                    adopted: None,
                    commands: Seq::empty(),
                    context,
                    verdict: Verdict::Finish(Ok(stage)),
                }
            } else {
                Turn {
                    adopted: None,
                    commands: seq![CommandView::GetInfoLogLength { stage }],
                    context,
                    verdict: Verdict::Continue(StageBuild::Measured { stage }),
                }
            },
            StageBuild::Measured { stage } => Turn {
                adopted: None,
                commands: seq![
                    CommandView::GetInfoLog { stage, capacity: log_capacity(reply.spec_length()) },
                ],
                context,
                verdict: Verdict::Continue(StageBuild::Logged { stage }),
            },
            StageBuild::Logged { stage } => Turn {
                adopted: None,
                commands: seq![CommandView::Print { line: failure_line(reply.spec_bytes()) }]
                    + context.release_commands(stage_handle(stage)),
                context: context.release(stage_handle(stage)),
                verdict: Verdict::Finish(Err(StageError::Rejected)),
            },
        }
    }

    /// Takes the next turn of the compilation.
    ///
    /// The first turn takes any reply; each later one takes the answer to
    /// the last command of the turn before.
    pub fn advance(self, context: &mut GraphicsContext, reply: &Reply) -> (progress: Progress<
        StageBuild,
        Result<u32, StageError>,
    >)
        requires
            old(context)@.loaded,
        ensures
            progress.carries_out(self.step(old(context)@, *reply)),
            final(context)@ == self.step(old(context)@, *reply).context,
            old(context)@.accounts_for(self.step(old(context)@, *reply)),
            final(context)@.loaded,
    {
        let ghost turn = self.step(context@, *reply);
        match self {
            StageBuild::Start { kind, source } => {
                let mut batch = Batch::begin(context);
                if contains_terminator(source.as_str()) {
                    batch.issue(
                        context,
                        Command::Print {
                            line: String::from_str("FAILED TO COMPILE. <source holds a zero byte>"),
                        },
                    );
                    proof {
                        assert(batch.issued() =~= turn.commands);
                    }
                    Progress::Finish {
                        commands: batch.commands,
                        outcome: Err(StageError::Terminator),
                    }
                } else {
                    batch.issue(context, Command::CreateShader { kind });
                    proof {
                        assert(batch.issued() =~= turn.commands);
                    }
                    Progress::Continue {
                        machine: StageBuild::Created { source },
                        commands: batch.commands,
                    }
                }
            },
            StageBuild::Created { source } => {
                let stage = reply.handle();
                if context.adopt(Handle { kind: ObjectKind::Stage, id: stage }) {
                    let mut batch = Batch::begin(context);
                    batch.issue(context, Command::ShaderSource { stage, source });
                    batch.issue(context, Command::CompileShader { stage });
                    batch.issue(context, Command::GetCompileStatus { stage });
                    proof {
                        assert(batch.issued() =~= turn.commands);
                    }
                    Progress::Continue {
                        machine: StageBuild::Compiled { stage },
                        commands: batch.commands,
                    }
                } else {
                    let mut batch = Batch::begin(context);
                    batch.issue(
                        context,
                        Command::Print { line: String::from_str("FAILED TO COMPILE. <no stage object>") },
                    );
                    proof {
                        assert(batch.issued() =~= turn.commands);
                    }
                    Progress::Finish { commands: batch.commands, outcome: Err(StageError::NoObject) }
                }
            },
            StageBuild::Compiled { stage } => {
                let mut batch = Batch::begin(context);
                if reply.status() {
                    Progress::Finish { commands: batch.commands, outcome: Ok(stage) }
                } else {
                    batch.issue(context, Command::GetInfoLogLength { stage });
                    proof {
                        assert(batch.issued() =~= turn.commands);
                    }
                    Progress::Continue {
                        machine: StageBuild::Measured { stage },
                        commands: batch.commands,
                    }
                }
            },
            StageBuild::Measured { stage } => {
                let mut batch = Batch::begin(context);
                let length = reply.length();
                let capacity = if length < 0 {
                    0
                } else {
                    length
                };
                batch.issue(context, Command::GetInfoLog { stage, capacity });
                proof {
                    assert(batch.issued() =~= turn.commands);
                }
                Progress::Continue {
                    machine: StageBuild::Logged { stage },
                    commands: batch.commands,
                }
            },
            StageBuild::Logged { stage } => {
                let mut batch = Batch::begin(context);
                let mut line = String::from_str("FAILED TO COMPILE. ");
                match wrap_string(reply.bytes()) {
                    Some(text) => {
                        line.append(text.as_str());
                    },
                    None => {
                        line.append("<log is not UTF-8>");
                    },
                }
                batch.issue(context, Command::Print { line });
                batch.release(context, Handle { kind: ObjectKind::Stage, id: stage });
                proof {
                    assert(batch.issued() =~= turn.commands);
                }
                Progress::Finish { commands: batch.commands, outcome: Err(StageError::Rejected) }
            },
        }
    }
}

/// An owned shader program. Its handle is zero if the program could not be
/// built; such a program owns nothing.
pub struct Shader {
    program: u32,
}

/// The stage that a compilation ended with; zero, the name of no stage, if
/// it failed.
pub open spec fn compiled(outcome: Result<u32, StageError>) -> u32 {
    match outcome {
        Ok(stage) => stage,
        Err(_) => 0,
    }
}

/// The commands that release the two stages of a program, each if it is
/// live when its turn comes.
pub open spec fn release_stages(context: ContextState, vertex: u32, fragment: u32) -> Seq<
    CommandView,
> {
    context.release_commands(stage_handle(vertex)) + context.release(
        stage_handle(vertex),
    ).release_commands(stage_handle(fragment))
}

/// The building of a program from two sources, between two turns.
pub enum ProgramBuild {
    /// The vertex stage is being compiled; the fragment source waits.
    Vertex { build: StageBuild, fragment_source: String },
    /// The vertex stage ended as `vertex` (zero if it failed); the fragment
    /// stage is being compiled.
    Fragment { vertex: u32, build: StageBuild },
    /// Both stages are compiled and the program object was asked for; its
    /// name is awaited.
    Linking { vertex: u32, fragment: u32 },
}

impl ProgramBuild {
    /// What is done once both compilations have ended: with two stages, the
    /// program object is asked for; otherwise the build is abandoned and
    /// the stage that did compile is released.
    pub open spec fn settle(context: ContextState, vertex: u32, fragment: u32) -> Turn<
        ProgramBuild,
        u32,
    > {
        if vertex != 0 && fragment != 0 {
            Turn {
                adopted: None,
                commands: seq![CommandView::CreateProgram],
                context,
                verdict: Verdict::Continue(ProgramBuild::Linking { vertex, fragment }),
            }
        } else {
            Turn {
                adopted: None,
                commands: release_stages(context, vertex, fragment),
                context: context.release(stage_handle(vertex)).release(stage_handle(fragment)),
                verdict: Verdict::Finish(0),
            }
        }
    }

    /// What is done once the vertex stage has ended as `vertex`: the
    /// compilation of the fragment stage begins, and if it ends at once,
    /// the build is settled.
    pub open spec fn begin_fragment(context: ContextState, vertex: u32, source: String) -> Turn<
        ProgramBuild,
        u32,
    > {
        let begun = StageBuild::Start { kind: StageKind::Fragment, source }.step(
            context,
            Reply::Nothing,
        );
        match begun.verdict {
            Verdict::Continue(build) => Turn {
                adopted: None,
                commands: begun.commands,
                context: begun.context,
                verdict: Verdict::Continue(ProgramBuild::Fragment { vertex, build }),
            },
            Verdict::Finish(outcome) => begun.followed_by(
                Self::settle(begun.context, vertex, compiled(outcome)),
            ),
        }
    }

    /// What is done once the name of the program object has arrived: if it
    /// can be adopted, both stages are attached, the program is linked and
    /// validated, and the stages are released; if not, a line that says so
    /// is printed, the stages are released and the build fails.
    pub open spec fn link(context: ContextState, program: u32, vertex: u32, fragment: u32) -> Turn<
        ProgramBuild,
        u32,
    > {
        if context.adoptable(program_handle(program)) {
            Turn {
                adopted: Some(program_handle(program)),
                commands: seq![
                    CommandView::AttachShader { program, stage: vertex },
                    CommandView::AttachShader { program, stage: fragment },
                    CommandView::LinkProgram { program },
                    CommandView::ValidateProgram { program },
                ] + release_stages(context.adopt(program_handle(program)), vertex, fragment),
                context: context.adopt(program_handle(program)).release(
                    stage_handle(vertex),
                ).release(stage_handle(fragment)),
                verdict: Verdict::Finish(program),
            }
        } else {
            Turn {
                adopted: None,
                commands: seq![CommandView::Print { line: no_program_line() }] + release_stages(
                    context,
                    vertex,
                    fragment,
                ),
                context: context.release(stage_handle(vertex)).release(stage_handle(fragment)),
                verdict: Verdict::Finish(0),
            }
        }
    }

    /// What the next turn amounts to, given the state of the context and
    /// the reply to the turn before. The outcome is the handle of the
    /// program: zero if the build failed.
    pub open spec fn step(self, context: ContextState, reply: Reply) -> Turn<ProgramBuild, u32> {
        match self {
            ProgramBuild::Vertex { build, fragment_source } => {
                let turn = build.step(context, reply);
                match turn.verdict {
                    Verdict::Continue(next) => Turn {
                        adopted: turn.adopted,
                        commands: turn.commands,
                        context: turn.context,
                        verdict: Verdict::Continue(ProgramBuild::Vertex { build: next, fragment_source }),
                    },
                    Verdict::Finish(outcome) => turn.followed_by(
                        Self::begin_fragment(turn.context, compiled(outcome), fragment_source),
                    ),
                }
            },
            ProgramBuild::Fragment { vertex, build } => {
                let turn = build.step(context, reply);
                match turn.verdict {
                    Verdict::Continue(next) => Turn {
                        adopted: turn.adopted,
                        commands: turn.commands,
                        context: turn.context,
                        verdict: Verdict::Continue(ProgramBuild::Fragment { vertex, build: next }),
                    },
                    Verdict::Finish(outcome) => turn.followed_by(
                        Self::settle(turn.context, vertex, compiled(outcome)),
                    ),
                }
            },
            ProgramBuild::Linking { vertex, fragment } => Self::link(
                context,
                reply.spec_handle(),
                vertex,
                fragment,
            ),
        }
    }

    /// Whether `progress` is what `turn` hands to the shell: the same
    /// commands, and the same end, with the program wrapped in its owner.
    pub open spec fn yields(
        progress: Progress<ProgramBuild, Shader>,
        turn: Turn<ProgramBuild, u32>,
    ) -> bool {
        &&& views(progress.commands()) == turn.commands
        &&& match progress {
            Progress::Continue { machine, commands } => turn.verdict == Verdict::Continue::<
                ProgramBuild,
                u32,
            >(machine),
            Progress::Finish { commands, outcome } => turn.verdict == Verdict::Finish::<
                ProgramBuild,
                u32,
            >(outcome.spec_handle()),
        }
    }

    /// Settles the build once both compilations have ended.
    fn do_settle(context: &mut GraphicsContext, vertex: u32, fragment: u32) -> (progress: Progress<
        ProgramBuild,
        Shader,
    >)
        requires
            old(context)@.loaded,
        ensures
            Self::yields(progress, Self::settle(old(context)@, vertex, fragment)),
            final(context)@ == Self::settle(old(context)@, vertex, fragment).context,
            old(context)@.accounts_for(Self::settle(old(context)@, vertex, fragment)),
            final(context)@.loaded,
    {
        let ghost turn = Self::settle(context@, vertex, fragment);
        let mut batch = Batch::begin(context);
        if vertex != 0 && fragment != 0 {
            batch.issue(context, Command::CreateProgram);
            proof {
                assert(batch.issued() =~= turn.commands);
            }
            Progress::Continue {
                machine: ProgramBuild::Linking { vertex, fragment },
                commands: batch.commands,
            }
        } else {
            batch.release(context, Handle { kind: ObjectKind::Stage, id: vertex });
            batch.release(context, Handle { kind: ObjectKind::Stage, id: fragment });
            proof {
                lemma_release_commands(batch.start@, stage_handle(vertex));
                assert(batch.issued() =~= turn.commands);
            }
            Progress::Finish { commands: batch.commands, outcome: Shader { program: 0 } }
        }
    }

    /// Puts `prefix` before the commands of `progress`.
    fn prepend(prefix: Vec<Command>, progress: Progress<ProgramBuild, Shader>) -> (joined: Progress<
        ProgramBuild,
        Shader,
    >)
        ensures
            views(joined.commands()) == views(prefix@) + views(progress.commands()),
            joined.verdict() == progress.verdict(),
    {
        let mut joined = prefix;
        match progress {
            Progress::Continue { machine, commands } => {
                let mut rest = commands;
                proof {
                    lemma_views_concat(joined@, rest@);
                }
                joined.append(&mut rest);
                Progress::Continue { machine, commands: joined }
            },
            Progress::Finish { commands, outcome } => {
                let mut rest = commands;
                proof {
                    lemma_views_concat(joined@, rest@);
                }
                joined.append(&mut rest);
                Progress::Finish { commands: joined, outcome }
            },
        }
    }

    /// Begins the compilation of the fragment stage, and settles the build
    /// if that compilation ends at once.
    fn do_begin_fragment(context: &mut GraphicsContext, vertex: u32, source: String) -> (progress:
        Progress<ProgramBuild, Shader>)
        requires
            old(context)@.loaded,
        ensures
            Self::yields(progress, Self::begin_fragment(old(context)@, vertex, source)),
            final(context)@ == Self::begin_fragment(old(context)@, vertex, source).context,
            old(context)@.accounts_for(Self::begin_fragment(old(context)@, vertex, source)),
            final(context)@.loaded,
    {
        let ghost before = context@;
        let start = StageBuild::Start { kind: StageKind::Fragment, source };
        let ghost begun = start.step(before, Reply::Nothing);
        match start.advance(context, &Reply::Nothing) {
            Progress::Continue { machine, commands } => Progress::Continue {
                machine: ProgramBuild::Fragment { vertex, build: machine },
                commands,
            },
            Progress::Finish { commands, outcome } => {
                let fragment = match outcome {
                    Ok(stage) => stage,
                    Err(_) => 0,
                };
                let ghost middle = context@;
                let rest = Self::do_settle(context, vertex, fragment);
                proof {
                    lemma_followed_by(before, begun, Self::settle(middle, vertex, fragment));
                }
                Self::prepend(commands, rest)
            },
        }
    }

    /// Links the program under the name that has arrived, or gives the
    /// build up if the name cannot be adopted.
    fn do_link(context: &mut GraphicsContext, program: u32, vertex: u32, fragment: u32) -> (progress:
        Progress<ProgramBuild, Shader>)
        requires
            old(context)@.loaded,
        ensures
            Self::yields(progress, Self::link(old(context)@, program, vertex, fragment)),
            final(context)@ == Self::link(old(context)@, program, vertex, fragment).context,
            old(context)@.accounts_for(Self::link(old(context)@, program, vertex, fragment)),
            final(context)@.loaded,
    {
        let ghost turn = Self::link(context@, program, vertex, fragment);
        if context.adopt(Handle { kind: ObjectKind::Program, id: program }) {
            let mut batch = Batch::begin(context);
            batch.issue(context, Command::AttachShader { program, stage: vertex });
            batch.issue(context, Command::AttachShader { program, stage: fragment });
            batch.issue(context, Command::LinkProgram { program });
            batch.issue(context, Command::ValidateProgram { program });
            proof {
                assert(context@ == batch.start@);
            }
            batch.release(context, Handle { kind: ObjectKind::Stage, id: vertex });
            batch.release(context, Handle { kind: ObjectKind::Stage, id: fragment });
            proof {
                lemma_release_commands(batch.start@, stage_handle(vertex));
                assert(batch.issued() =~= turn.commands);
            }
            Progress::Finish { commands: batch.commands, outcome: Shader { program } }
        } else {
            let mut batch = Batch::begin(context);
            batch.issue(
                context,
                Command::Print { line: String::from_str("FAILED TO LINK. <no program object>") },
            );
            batch.release(context, Handle { kind: ObjectKind::Stage, id: vertex });
            batch.release(context, Handle { kind: ObjectKind::Stage, id: fragment });
            proof {
                lemma_release_commands(batch.start@, stage_handle(vertex));
                assert(batch.issued() =~= turn.commands);
            }
            Progress::Finish { commands: batch.commands, outcome: Shader { program: 0 } }
        }
    }

    /// Takes the next turn of the build.
    ///
    /// The first turn takes any reply; each later one takes the answer to
    /// the last command of the turn before. The build ends with the owner
    /// of the program, whose handle is zero if a stage did not compile or
    /// the driver issued no usable name for the program; by then every
    /// stage that was created has been released.
    pub fn advance(self, context: &mut GraphicsContext, reply: &Reply) -> (progress: Progress<
        ProgramBuild,
        Shader,
    >)
        requires
            old(context)@.loaded,
        ensures
            Self::yields(progress, self.step(old(context)@, *reply)),
            final(context)@ == self.step(old(context)@, *reply).context,
            old(context)@.accounts_for(self.step(old(context)@, *reply)),
            final(context)@.loaded,
    {
        let ghost before = context@;
        match self {
            ProgramBuild::Vertex { build, fragment_source } => {
                let ghost turn = build.step(before, *reply);
                match build.advance(context, reply) {
                    Progress::Continue { machine, commands } => Progress::Continue {
                        machine: ProgramBuild::Vertex { build: machine, fragment_source },
                        commands,
                    },
                    Progress::Finish { commands, outcome } => {
                        let vertex = match outcome {
                            Ok(stage) => stage,
                            Err(_) => 0,
                        };
                        let ghost middle = context@;
                        let rest = Self::do_begin_fragment(context, vertex, fragment_source);
                        proof {
                            lemma_followed_by(
                                before,
                                turn,
                                Self::begin_fragment(middle, vertex, fragment_source),
                            );
                        }
                        Self::prepend(commands, rest)
                    },
                }
            },
            ProgramBuild::Fragment { vertex, build } => {
                let ghost turn = build.step(before, *reply);
                match build.advance(context, reply) {
                    Progress::Continue { machine, commands } => Progress::Continue {
                        machine: ProgramBuild::Fragment { vertex, build: machine },
                        commands,
                    },
                    Progress::Finish { commands, outcome } => {
                        let fragment = match outcome {
                            Ok(stage) => stage,
                            Err(_) => 0,
                        };
                        let ghost middle = context@;
                        let rest = Self::do_settle(context, vertex, fragment);
                        proof {
                            lemma_followed_by(
                                before,
                                turn,
                                Self::settle(middle, vertex, fragment),
                            );
                        }
                        Self::prepend(commands, rest)
                    },
                }
            },
            ProgramBuild::Linking { vertex, fragment } => Self::do_link(
                context,
                reply.handle(),
                vertex,
                fragment,
            ),
        }
    }
}

impl Shader {
    /// The handle of the program; zero if the program could not be built.
    pub closed spec fn spec_handle(&self) -> u32 {
        self.program
    }

    /// Whether the program was built.
    pub open spec fn is_ready(&self) -> bool {
        self.spec_handle() != 0
    }

    /// The handle of the program; zero if the program could not be built.
    #[verifier::when_used_as_spec(spec_handle)]
    pub fn handle(&self) -> (program: u32)
        ensures
            program == self.spec_handle(),
    {
        self.program
    }

    /// The commands that make `program` the program in use.
    pub open spec fn select_commands(program: u32) -> Seq<CommandView> {
        seq![CommandView::UseProgram { program }]
    }

    /// Begins the compilation of one stage from `source`.
    pub fn compile(kind: StageKind, source: &str) -> (build: StageBuild)
        ensures
            build matches StageBuild::Start { kind: begun, source: held } && begun == kind
                && held@ == source@,
    {
        StageBuild::Start { kind, source: String::from_str(source) }
    }

    /// Begins the building of a program that has a vertex stage compiled
    /// from `vert` and a fragment stage compiled from `frag`.
    pub fn simple(vert: &str, frag: &str) -> (build: ProgramBuild)
        ensures
            build matches ProgramBuild::Vertex {
                build: StageBuild::Start { kind, source },
                fragment_source,
            } && kind == StageKind::Vertex && source@ == vert@ && fragment_source@ == frag@,
    {
        ProgramBuild::Vertex {
            build: Self::compile(StageKind::Vertex, vert),
            fragment_source: String::from_str(frag),
        }
    }

    /// Makes this program the one in use.
    pub fn select(&self, context: &mut GraphicsContext) -> (commands: Vec<Command>)
        requires
            old(context)@.loaded,
        ensures
            views(commands@) == Self::select_commands(self.spec_handle()),
            final(context)@ == old(context)@.run(views(commands@)),
            final(context)@ == (ContextState { program: self.spec_handle(), ..old(context)@ }),
    {
        let mut batch = Batch::begin(context);
        batch.issue(context, Command::UseProgram { program: self.program });
        proof {
            assert(batch.issued() =~= Self::select_commands(self.spec_handle()));
        }
        batch.commands
    }

    /// Begins the lookup of the uniform called `name`, to be fed values of
    /// the given kind. The kind is the caller's word: it is not held
    /// against what the program declares.
    pub fn uniform(&self, kind: UniformKind, name: &str) -> (lookup: UniformLookup)
        ensures
            lookup matches UniformLookup::Start { program, kind: asked, name: held } && program
                == self.spec_handle() && asked == kind && held@ == name@,
    {
        UniformLookup::Start { program: self.program, kind, name: String::from_str(name) }
    }

    /// Gives the program up: releases its handle if it is live, and only
    /// then. A program that could not be built gives up nothing.
    pub fn destroy(self, context: &mut GraphicsContext) -> (commands: Vec<Command>)
        ensures
            views(commands@) == old(context)@.release_commands(
                program_handle(self.spec_handle()),
            ),
            old(context)@.releases_only_live(views(commands@)),
            final(context)@ == old(context)@.run(views(commands@)),
            final(context)@ == old(context)@.release(program_handle(self.spec_handle())),
            !self.is_ready() ==> commands@.len() == 0 && final(context)@ == old(context)@,
    {
        proof {
            context.lemma_live_named();
        }
        let mut batch = Batch::begin(context);
        batch.release(context, Handle { kind: ObjectKind::Program, id: self.program });
        proof {
            assert(batch.issued() =~= batch.start@.release_commands(
                program_handle(self.spec_handle()),
            ));
        }
        batch.commands
    }
}

/// What a [`Uniform`] stands for in specifications.
pub struct Slot {
    /// The program the slot belongs to.
    pub program: u32,
    /// Where the uniform lives in that program.
    pub location: i32,
    /// The kind of value the slot was declared with.
    pub kind: UniformKind,
}

/// A uniform of a program, found once and good for the program's lifetime.
pub struct Uniform {
    location: i32,
    program: u32,
    kind: UniformKind,
}

impl View for Uniform {
    type V = Slot;

    closed spec fn view(&self) -> Slot {
        Slot { program: self.program, location: self.location, kind: self.kind }
    }
}

/// The lookup of a uniform, between two turns.
pub enum UniformLookup {
    /// Nothing was sent yet.
    Start { program: u32, kind: UniformKind, name: String },
    /// The location was asked for and is awaited.
    Asked { program: u32, kind: UniformKind },
}

impl UniformLookup {
    /// What the next turn amounts to, given the state of the context and
    /// the reply to the turn before. The lookup ends with a slot if the
    /// driver names a location, and with none if the name holds a zero
    /// character or the driver knows no such uniform. The context is left
    /// as it is.
    pub open spec fn step(self, context: ContextState, reply: Reply) -> Turn<
        UniformLookup,
        Option<Slot>,
    > {
        match self {
            UniformLookup::Start { program, kind, name } => if has_terminator(name@) {
                Turn {
                    adopted: None,
                    commands: Seq::empty(),
                    context,
                    verdict: Verdict::Finish(None),
                }
            } else {
                Turn {
                    adopted: None,
                    commands: seq![CommandView::GetUniformLocation { program, name: name@ }],
                    context,
                    verdict: Verdict::Continue(UniformLookup::Asked { program, kind }),
                }
            },
            UniformLookup::Asked { program, kind } => Turn {
                adopted: None,
                commands: Seq::empty(),
                context,
                verdict: Verdict::Finish(
                    if reply.spec_location() < 0 {
                        None
                    } else {
                        Some(Slot { program, location: reply.spec_location(), kind })
                    },
                ),
            },
        }
    }

    /// Whether `progress` is what `turn` hands to the shell: the same
    /// commands, and the same end, with the slot wrapped in its owner.
    pub open spec fn yields(
        progress: Progress<UniformLookup, Option<Uniform>>,
        turn: Turn<UniformLookup, Option<Slot>>,
    ) -> bool {
        &&& views(progress.commands()) == turn.commands
        &&& match progress {
            Progress::Continue { machine, commands } => turn.verdict == Verdict::Continue::<
                UniformLookup,
                Option<Slot>,
            >(machine),
            Progress::Finish { commands, outcome } => turn.verdict == Verdict::Finish::<
                UniformLookup,
                Option<Slot>,
            >(
                match outcome {
                    Some(uniform) => Some(uniform@),
                    None => None,
                },
            ),
        }
    }

    /// Takes the next turn of the lookup. The context is left as it is.
    pub fn advance(self, context: &mut GraphicsContext, reply: &Reply) -> (progress: Progress<
        UniformLookup,
        Option<Uniform>,
    >)
        requires
            old(context)@.loaded,
        ensures
            Self::yields(progress, self.step(old(context)@, *reply)),
            final(context)@ == old(context)@,
            old(context)@.accounts_for(self.step(old(context)@, *reply)),
    {
        let ghost turn = self.step(context@, *reply);
        let mut batch = Batch::begin(context);
        match self {
            UniformLookup::Start { program, kind, name } => {
                if contains_terminator(name.as_str()) {
                    Progress::Finish { commands: batch.commands, outcome: None }
                } else {
                    batch.issue(context, Command::GetUniformLocation { program, name });
                    proof {
                        assert(batch.issued() =~= turn.commands);
                    }
                    Progress::Continue {
                        machine: UniformLookup::Asked { program, kind },
                        commands: batch.commands,
                    }
                }
            },
            UniformLookup::Asked { program, kind } => {
                let location = reply.location();
                if location < 0 {
                    Progress::Finish { commands: batch.commands, outcome: None }
                } else {
                    Progress::Finish {
                        commands: batch.commands,
                        outcome: Some(Uniform { location, program, kind }),
                    }
                }
            },
        }
    }
}

impl Uniform {
    #[verifier::type_invariant]
    spec fn located(&self) -> bool {
        self.location >= 0
    }

    /// The commands that feed `bits` to `slot`.
    pub open spec fn set_commands(slot: Slot, bits: u32) -> Seq<CommandView> {
        seq![
            CommandView::UseProgram { program: slot.program },
            CommandView::SetUniform { location: slot.location, kind: slot.kind, bits },
        ]
    }

    /// The program the slot belongs to.
    pub fn program(&self) -> (program: u32)
        ensures
            program == self@.program,
    {
        self.program
    }

    /// Where the uniform lives in its program: never the location of no
    /// uniform.
    pub fn location(&self) -> (location: i32)
        ensures
            location == self@.location,
            location >= 0,
    {
        proof {
            use_type_invariant(self);
        }
        self.location
    }

    /// The kind of value the slot was declared with.
    pub fn kind(&self) -> (kind: UniformKind)
        ensures
            kind == self@.kind,
    {
        self.kind
    }

    /// Feeds a value to the uniform: puts the slot's program in use, then
    /// uploads. `bits` is the value itself for an unsigned slot and the bit
    /// pattern for a float slot.
    pub fn set(&self, context: &mut GraphicsContext, bits: u32) -> (commands: Vec<Command>)
        requires
            old(context)@.loaded,
        ensures
            views(commands@) == Self::set_commands(self@, bits),
            final(context)@ == old(context)@.run(views(commands@)),
            final(context)@ == (ContextState { program: self@.program, ..old(context)@ }),
    {
        let mut batch = Batch::begin(context);
        batch.issue(context, Command::UseProgram { program: self.program });
        batch.issue(
            context,
            Command::SetUniform { location: self.location, kind: self.kind, bits },
        );
        proof {
            assert(batch.issued() =~= Self::set_commands(self@, bits));
        }
        batch.commands
    }
}

/// Every turn of a compilation is sound: whatever the state and the reply,
/// the turn adopts only a name that is new, releases only what is live, and
/// leaves the state that its adoption and its commands lead to.
pub proof fn lemma_stage_turn(build: StageBuild, context: ContextState, reply: Reply)
    ensures
        context.accounts_for(build.step(context, reply)),
{
    let turn = build.step(context, reply);
    match build {
        StageBuild::Logged { stage } => {
            let none = Seq::<CommandView>::empty();
            let line = CommandView::Print { line: failure_line(reply.spec_bytes()) };
            lemma_run_push(context, none, line);
            lemma_release_commands(context, stage_handle(stage));
            lemma_run_concat(context, none.push(line), context.release_commands(stage_handle(stage)));
            lemma_run_keeps_live(context, none.push(line));
            lemma_releases_concat(
                context,
                none.push(line),
                context.release_commands(stage_handle(stage)),
            );
            assert(turn.commands =~= none.push(line) + context.release_commands(
                stage_handle(stage),
            ));
        },
        _ => {
            let start = match turn.adopted {
                Some(handle) => context.adopt(handle),
                None => context,
            };
            lemma_run_inert(start, turn.commands);
            lemma_run_keeps_live(start, turn.commands);
        },
    }
}

/// Every turn of the building of a program is sound: whatever the state
/// and the reply, the turn adopts only a name that is new, releases only
/// what is live, and leaves the state that its adoption and its commands
/// lead to.
pub proof fn lemma_program_turn(build: ProgramBuild, context: ContextState, reply: Reply)
    ensures
        context.accounts_for(build.step(context, reply)),
{
    match build {
        ProgramBuild::Vertex { build, fragment_source } => {
            let turn = build.step(context, reply);
            lemma_stage_turn(build, context, reply);
            if let Verdict::Finish(outcome) = turn.verdict {
                lemma_begin_fragment(turn.context, compiled(outcome), fragment_source);
                lemma_followed_by(
                    context,
                    turn,
                    ProgramBuild::begin_fragment(turn.context, compiled(outcome), fragment_source),
                );
            }
        },
        ProgramBuild::Fragment { vertex, build } => {
            let turn = build.step(context, reply);
            lemma_stage_turn(build, context, reply);
            if let Verdict::Finish(outcome) = turn.verdict {
                lemma_settle(turn.context, vertex, compiled(outcome));
                lemma_followed_by(
                    context,
                    turn,
                    ProgramBuild::settle(turn.context, vertex, compiled(outcome)),
                );
            }
        },
        ProgramBuild::Linking { vertex, fragment } => {
            let program = reply.spec_handle();
            if context.adoptable(program_handle(program)) {
                let adopted = context.adopt(program_handle(program));
                let attach = seq![
                    CommandView::AttachShader { program, stage: vertex },
                    CommandView::AttachShader { program, stage: fragment },
                    CommandView::LinkProgram { program },
                    CommandView::ValidateProgram { program },
                ];
                lemma_run_inert(adopted, attach);
                lemma_run_keeps_live(adopted, attach);
                lemma_release_stages(adopted, vertex, fragment);
                lemma_run_concat(adopted, attach, release_stages(adopted, vertex, fragment));
                lemma_releases_concat(adopted, attach, release_stages(adopted, vertex, fragment));
            } else {
                let line = seq![CommandView::Print { line: no_program_line() }];
                lemma_run_inert(context, line);
                lemma_run_keeps_live(context, line);
                lemma_release_stages(context, vertex, fragment);
                lemma_run_concat(context, line, release_stages(context, vertex, fragment));
                lemma_releases_concat(context, line, release_stages(context, vertex, fragment));
            }
        },
    }
}

/// Settling a build is sound.
proof fn lemma_settle(context: ContextState, vertex: u32, fragment: u32)
    ensures
        context.accounts_for(ProgramBuild::settle(context, vertex, fragment)),
{
    if vertex != 0 && fragment != 0 {
        let turn = ProgramBuild::settle(context, vertex, fragment);
        lemma_run_inert(context, turn.commands);
        lemma_run_keeps_live(context, turn.commands);
    } else {
        lemma_release_stages(context, vertex, fragment);
    }
}

/// Beginning the fragment stage is sound.
proof fn lemma_begin_fragment(context: ContextState, vertex: u32, source: String)
    ensures
        context.accounts_for(ProgramBuild::begin_fragment(context, vertex, source)),
        ProgramBuild::begin_fragment(context, vertex, source).adopted is None,
{
    let start = StageBuild::Start { kind: StageKind::Fragment, source };
    let begun = start.step(context, Reply::Nothing);
    lemma_stage_turn(start, context, Reply::Nothing);
    if let Verdict::Finish(outcome) = begun.verdict {
        lemma_settle(begun.context, vertex, compiled(outcome));
        lemma_followed_by(
            context,
            begun,
            ProgramBuild::settle(begun.context, vertex, compiled(outcome)),
        );
    }
}

/// Linking and then selecting leaves the linked program in use: whatever
/// the state before, whichever stages are linked and whatever name the
/// driver issues, once the build has ended with a program and that program
/// is selected, the program in use is the one the build ended with. Where
/// the name could be adopted, that program is the one the driver named, and
/// it is live; where it could not, the build ends with no program. Either
/// way neither stage is live any more.
pub proof fn lemma_select_after_link(
    context: ContextState,
    vertex: u32,
    fragment: u32,
    reply: Reply,
)
    ensures
        ({
            let turn = (ProgramBuild::Linking { vertex, fragment }).step(context, reply);
            let program = turn.verdict->Finish_0;
            &&& turn.verdict is Finish
            &&& turn.context.run(Shader::select_commands(program)) == (ContextState {
                program,
                ..turn.context
            })
            &&& context.adoptable(program_handle(reply.spec_handle())) ==> {
                &&& program == reply.spec_handle()
                &&& turn.context.live.contains(program_handle(program))
            }
            &&& !context.adoptable(program_handle(reply.spec_handle())) ==> program == 0
            &&& !turn.context.live.contains(stage_handle(vertex))
            &&& !turn.context.live.contains(stage_handle(fragment))
        }),
{
    let turn = (ProgramBuild::Linking { vertex, fragment }).step(context, reply);
    let program = turn.verdict->Finish_0;
    let none = Seq::<CommandView>::empty();
    lemma_run_push(turn.context, none, CommandView::UseProgram { program });
    assert(Shader::select_commands(program) =~= none.push(CommandView::UseProgram { program }));
}

/// The commands of a build whose two stages compile, in the order they are
/// issued over its six turns.
pub open spec fn build_commands(
    vert: Seq<char>,
    frag: Seq<char>,
    vertex: u32,
    fragment: u32,
    program: u32,
) -> Seq<CommandView> {
    seq![
        CommandView::CreateShader { kind: StageKind::Vertex },
        CommandView::ShaderSource { stage: vertex, source: vert },
        CommandView::CompileShader { stage: vertex },
        CommandView::GetCompileStatus { stage: vertex },
        CommandView::CreateShader { kind: StageKind::Fragment },
        CommandView::ShaderSource { stage: fragment, source: frag },
        CommandView::CompileShader { stage: fragment },
        CommandView::GetCompileStatus { stage: fragment },
        CommandView::CreateProgram,
        CommandView::AttachShader { program, stage: vertex },
        CommandView::AttachShader { program, stage: fragment },
        CommandView::LinkProgram { program },
        CommandView::ValidateProgram { program },
        CommandView::DeleteShader { stage: vertex },
        CommandView::DeleteShader { stage: fragment },
    ]
}

/// A program whose two stages compile is built, owned and ready to be put
/// in use: for every state, every pair of sources that the driver can be
/// sent and every three names that the driver may issue for new objects,
/// when the driver accepts both sources the build takes six turns, issues
/// the commands of [`build_commands`], and ends with the program the driver
/// named; by then the program is the one object that is live and was not
/// before, nothing else has changed, and selecting the program leaves it in
/// use.
pub proof fn lemma_build_then_select(
    context: ContextState,
    vert: String,
    frag: String,
    vertex: u32,
    fragment: u32,
    program: u32,
)
    requires
        !has_terminator(vert@),
        !has_terminator(frag@),
        context.adoptable(stage_handle(vertex)),
        context.adoptable(stage_handle(fragment)),
        vertex != fragment,
        context.adoptable(program_handle(program)),
    ensures
        ({
            let begun = ProgramBuild::Vertex {
                build: StageBuild::Start { kind: StageKind::Vertex, source: vert },
                fragment_source: frag,
            };
            let first = begun.step(context, Reply::Nothing);
            let second = first.verdict->Continue_0.step(first.context, Reply::Handle(vertex));
            let third = second.verdict->Continue_0.step(second.context, Reply::Status(true));
            let fourth = third.verdict->Continue_0.step(third.context, Reply::Handle(fragment));
            let fifth = fourth.verdict->Continue_0.step(fourth.context, Reply::Status(true));
            let sixth = fifth.verdict->Continue_0.step(fifth.context, Reply::Handle(program));
            &&& first.verdict is Continue
            &&& second.verdict is Continue
            &&& third.verdict is Continue
            &&& fourth.verdict is Continue
            &&& fifth.verdict is Continue
            &&& sixth.verdict == Verdict::<ProgramBuild, u32>::Finish(program)
            &&& first.commands + second.commands + third.commands + fourth.commands
                + fifth.commands + sixth.commands == build_commands(
                vert@,
                frag@,
                vertex,
                fragment,
                program,
            )
            &&& sixth.context == (ContextState {
                live: context.live.insert(program_handle(program)),
                ..context
            })
            &&& sixth.context.run(Shader::select_commands(program)) == (ContextState {
                program,
                ..sixth.context
            })
        }),
{
    let begun = ProgramBuild::Vertex {
        build: StageBuild::Start { kind: StageKind::Vertex, source: vert },
        fragment_source: frag,
    };
    let first = begun.step(context, Reply::Nothing);
    let second = first.verdict->Continue_0.step(first.context, Reply::Handle(vertex));
    let third = second.verdict->Continue_0.step(second.context, Reply::Status(true));
    let fourth = third.verdict->Continue_0.step(third.context, Reply::Handle(fragment));
    let fifth = fourth.verdict->Continue_0.step(fourth.context, Reply::Status(true));
    let sixth = fifth.verdict->Continue_0.step(fifth.context, Reply::Handle(program));
    let adopted = fifth.context.adopt(program_handle(program));
    assert(release_stages(adopted, vertex, fragment) =~= seq![
        CommandView::DeleteShader { stage: vertex },
        CommandView::DeleteShader { stage: fragment },
    ]) by {
        lemma_release_commands(adopted, stage_handle(vertex));
    }
    assert(sixth.context.live =~= context.live.insert(program_handle(program)));
    assert(first.commands + second.commands + third.commands + fourth.commands + fifth.commands
        + sixth.commands =~= build_commands(vert@, frag@, vertex, fragment, program));
    lemma_select_after_link(fifth.context, vertex, fragment, Reply::Handle(program));
}

/// Releasing the two stages of a program strikes both from the live
/// objects, changes nothing else, and releases only what is live.
pub proof fn lemma_release_stages(context: ContextState, vertex: u32, fragment: u32)
    ensures
        context.run(release_stages(context, vertex, fragment)) == context.release(
            stage_handle(vertex),
        ).release(stage_handle(fragment)),
        context.releases_only_live(release_stages(context, vertex, fragment)),
{
    let first = context.release_commands(stage_handle(vertex));
    lemma_release_commands(context, stage_handle(vertex));
    lemma_release_commands(context.run(first), stage_handle(fragment));
    lemma_run_concat(context, first, context.run(first).release_commands(stage_handle(fragment)));
    lemma_releases_concat(
        context,
        first,
        context.run(first).release_commands(stage_handle(fragment)),
    );
}

/// Every turn of a lookup is sound: whatever the state and the reply, the
/// turn adopts and releases nothing and leaves the state as it is.
pub proof fn lemma_lookup_turn(lookup: UniformLookup, context: ContextState, reply: Reply)
    ensures
        context.accounts_for(lookup.step(context, reply)),
        lookup.step(context, reply).context == context,
{
    let turn = lookup.step(context, reply);
    lemma_run_inert(context, turn.commands);
    lemma_run_keeps_live(context, turn.commands);
}

/// A uniform that the program does not have is absent: the lookup ends with
/// no slot exactly if the driver names no location, and a slot that it does
/// end with lies at the location the driver named, which is a location of
/// the program.
pub proof fn lemma_absent_uniform(
    context: ContextState,
    program: u32,
    kind: UniformKind,
    reply: Reply,
)
    ensures
        ({
            let turn = (UniformLookup::Asked { program, kind }).step(context, reply);
            &&& turn.context == context
            &&& turn.commands.len() == 0
            &&& turn.verdict is Finish
            &&& turn.verdict->Finish_0 is None <==> reply.spec_location() < 0
            &&& turn.verdict->Finish_0 matches Some(slot) ==> {
                &&& slot.location >= 0
                &&& slot.location == reply.spec_location()
                &&& slot.program == program
                &&& slot.kind == kind
            }
        }),
{
}

} // verus!
