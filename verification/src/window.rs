//! Windows: what a window is configured with, how one is created, and the
//! steps of a frame.

use vstd::prelude::*;
use vstd::string::*;
use crate::command::{views, Command, CommandView, Hint, Reply};
use crate::context::{
    lemma_run_inert, lemma_run_keeps_live, lemma_run_push, Batch, ContextState, GraphicsContext,
};
use crate::progress::{Progress, Turn, Verdict};
use crate::shader::Shader;
use crate::vertex::{Vertex, VertexArray};

verus! {

/// The width of a window whose builder was given no resolution.
pub const DEFAULT_WIDTH: u32 = 160;

/// The height of a window whose builder was given no resolution.
pub const DEFAULT_HEIGHT: u32 = 144;

/// The major version of the driver interface that every context is pinned
/// to.
pub const CONTEXT_VERSION_MAJOR: u32 = 4;

/// The minor version of the driver interface that every context is pinned
/// to.
pub const CONTEXT_VERSION_MINOR: u32 = 4;

/// The number of display refreshes awaited before a frame is presented.
pub const SWAP_INTERVAL: u32 = 1;

/// The title of a window whose builder was given none.
pub open spec fn default_title() -> Seq<char> {
    "GuLag Window"@
}

/// What a [`Builder`] stands for in specifications.
pub struct Config {
    /// The title, if one was given.
    pub title: Option<Seq<char>>,
    /// The width of the window in screen coordinates.
    pub width: u32,
    /// The height of the window in screen coordinates.
    pub height: u32,
    /// Whether the user may resize the window.
    pub resizable: bool,
}

impl Config {
    /// The configuration of a builder that was told nothing.
    pub open spec fn initial() -> Config {
        Config { title: None, width: DEFAULT_WIDTH, height: DEFAULT_HEIGHT, resizable: true }
    }

    /// The title the window gets.
    pub open spec fn title_text(self) -> Seq<char> {
        match self.title {
            Some(title) => title,
            None => default_title(),
        }
    }

    /// The commands that ask for a window of this configuration: the hints
    /// that shape it, with the context pinned to the one supported version
    /// and to the core profile, and then the request itself.
    pub open spec fn request_commands(self) -> Seq<CommandView> {
        seq![
            CommandView::WindowHint { hint: Hint::Resizable(self.resizable) },
            CommandView::WindowHint { hint: Hint::ContextVersionMajor(CONTEXT_VERSION_MAJOR) },
            CommandView::WindowHint { hint: Hint::ContextVersionMinor(CONTEXT_VERSION_MINOR) },
            CommandView::WindowHint { hint: Hint::CoreProfile },
            CommandView::CreateWindow {
                width: self.width,
                height: self.height,
                title: self.title_text(),
            },
        ]
    }
}

/// The commands that follow the creation of `window`: the hints are reset,
/// and if the function table was not loaded before, the window's context is
/// made current, vertical sync is switched on and the table is loaded.
pub open spec fn adoption_commands(loaded: bool, window: u32) -> Seq<CommandView> {
    if loaded {
        seq![CommandView::DefaultWindowHints]
    } else {
        seq![
            CommandView::DefaultWindowHints,
            CommandView::MakeCurrent { window },
            CommandView::SetSwapInterval { interval: SWAP_INTERVAL },
            CommandView::LoadFunctionTable { window },
        ]
    }
}

/// How many times `commands` loads the function table.
pub open spec fn loads(commands: Seq<CommandView>) -> nat
    decreases commands.len(),
{
    if commands.len() == 0 {
        0
    } else {
        loads(commands.drop_last()) + match commands.last() {
            CommandView::LoadFunctionTable { window } => 1nat,
            _ => 0nat,
        }
    }
}

/// The configuration of a window to be.
pub struct Builder {
    title: Option<String>,
    width: u32,
    height: u32,
    resizable: bool,
}

impl View for Builder {
    type V = Config;

    closed spec fn view(&self) -> Config {
        Config {
            title: match self.title {
                Some(title) => Some(title@),
                None => None,
            },
            width: self.width,
            height: self.height,
            resizable: self.resizable,
        }
    }
}

/// The creation of a window, between two turns.
pub enum WindowBuild {
    /// Nothing was sent yet.
    Start { builder: Builder },
    /// The window was asked for; the shell's name for it is awaited.
    Requested,
}

/// An open window, known by the name the shell gave it.
pub struct Window {
    id: u32,
}

impl Builder {
    #[verifier::type_invariant]
    spec fn sized(&self) -> bool {
        self.width > 0 && self.height > 0
    }

    /// Sets the title of the window.
    pub fn title(self, title: &str) -> (builder: Builder)
        ensures
            builder@ == (Config { title: Some(title@), ..self@ }),
    {
        proof {
            use_type_invariant(&self);
        }
        Builder {
            title: Some(String::from_str(title)),
            width: self.width,
            height: self.height,
            resizable: self.resizable,
        }
    }

    /// Sets the size of the window.
    pub fn resolution(self, width: u32, height: u32) -> (builder: Builder)
        requires
            width > 0,
            height > 0,
        ensures
            builder@ == (Config { width, height, ..self@ }),
    {
        Builder { title: self.title, width, height, resizable: self.resizable }
    }

    /// Sets whether the user may resize the window.
    pub fn resizable(self, resizable: bool) -> (builder: Builder)
        ensures
            builder@ == (Config { resizable, ..self@ }),
    {
        proof {
            use_type_invariant(&self);
        }
        Builder { title: self.title, width: self.width, height: self.height, resizable }
    }

    /// Begins the creation of a window of this configuration.
    pub fn build(self) -> (build: WindowBuild)
        ensures
            build == (WindowBuild::Start { builder: self }),
    {
        WindowBuild::Start { builder: self }
    }
}

impl WindowBuild {
    /// What the next turn amounts to, given the state of the context and
    /// the reply to the turn before. The creation ends with the name of the
    /// window, or with none if the backend could not create one.
    pub open spec fn step(self, context: ContextState, reply: Reply) -> Turn<
        WindowBuild,
        Option<u32>,
    > {
        match self {
            WindowBuild::Start { builder } => Turn {
                adopted: None,
                commands: builder@.request_commands(),
                context,
                verdict: Verdict::Continue(WindowBuild::Requested),
            },
            WindowBuild::Requested => if reply.spec_handle() == 0 {
                Turn {
                    adopted: None,
                    commands: Seq::empty(),
                    context,
                    verdict: Verdict::Finish(None),
                }
            } else {
                Turn {
                    adopted: None,
                    commands: adoption_commands(context.loaded, reply.spec_handle()),
                    context: ContextState { loaded: true, ..context },
                    verdict: Verdict::Finish(Some(reply.spec_handle())),
                }
            },
        }
    }

    /// Whether `progress` is what `turn` hands to the shell: the same
    /// commands, and the same end, with the window wrapped in its owner.
    pub open spec fn yields(
        progress: Progress<WindowBuild, Option<Window>>,
        turn: Turn<WindowBuild, Option<u32>>,
    ) -> bool {
        &&& views(progress.commands()) == turn.commands
        &&& match progress {
            Progress::Continue { machine, commands } => turn.verdict == Verdict::Continue::<
                WindowBuild,
                Option<u32>,
            >(machine),
            Progress::Finish { commands, outcome } => turn.verdict == Verdict::Finish::<
                WindowBuild,
                Option<u32>,
            >(
                match outcome {
                    Some(window) => Some(window.spec_id()),
                    None => None,
                },
            ),
        }
    }

    /// Takes the next turn of the creation.
    ///
    /// The first turn takes any reply; the second takes the answer to the
    /// request for the window. Once a window was created, the context is
    /// current: the function table is loaded by the first creation and by
    /// no later one.
    pub fn advance(self, context: &mut GraphicsContext, reply: &Reply) -> (progress: Progress<
        WindowBuild,
        Option<Window>,
    >)
        ensures
            Self::yields(progress, self.step(old(context)@, *reply)),
            final(context)@ == self.step(old(context)@, *reply).context,
            old(context)@.accounts_for(self.step(old(context)@, *reply)),
            loads(views(progress.commands())) == (if progress matches Progress::Finish {
                outcome: Some(_),
                ..
            } && !old(context)@.loaded {
                1nat
            } else {
                0nat
            }),
    {
        let ghost turn = self.step(context@, *reply);
        let mut batch = Batch::begin(context);
        match self {
            WindowBuild::Start { builder } => {
                proof {
                    use_type_invariant(&builder);
                }
                let Builder { title, width, height, resizable } = builder;
                let title = match title {
                    Some(title) => title,
                    None => String::from_str("GuLag Window"),
                };
                batch.issue(context, Command::WindowHint { hint: Hint::Resizable(resizable) });
                batch.issue(
                    context,
                    Command::WindowHint { hint: Hint::ContextVersionMajor(CONTEXT_VERSION_MAJOR) },
                );
                batch.issue(
                    context,
                    Command::WindowHint { hint: Hint::ContextVersionMinor(CONTEXT_VERSION_MINOR) },
                );
                batch.issue(context, Command::WindowHint { hint: Hint::CoreProfile });
                batch.issue(context, Command::CreateWindow { width, height, title });
                proof {
                    assert(batch.issued() =~= turn.commands);
                    lemma_loads_none(turn.commands);
                }
                Progress::Continue { machine: WindowBuild::Requested, commands: batch.commands }
            },
            WindowBuild::Requested => {
                let window = reply.handle();
                if window == 0 {
                    proof {
                        lemma_loads_none(batch.issued());
                    }
                    Progress::Finish { commands: batch.commands, outcome: None }
                } else {
                    batch.issue(context, Command::DefaultWindowHints);
                    if !context.is_current() {
                        batch.issue(context, Command::MakeCurrent { window });
                        batch.issue(context, Command::SetSwapInterval { interval: SWAP_INTERVAL });
                        batch.issue(context, Command::LoadFunctionTable { window });
                    }
                    proof {
                        assert(batch.issued() =~= turn.commands);
                        lemma_loads_adoption(batch.start@.loaded, window);
                    }
                    Progress::Finish { commands: batch.commands, outcome: Some(Window { id: window }) }
                }
            },
        }
    }
}

/// A batch that holds no command to load the function table loads it no
/// times.
pub proof fn lemma_loads_none(commands: Seq<CommandView>)
    requires
        forall|i: int|
            0 <= i < commands.len() ==> !(#[trigger] commands[i] is LoadFunctionTable),
    ensures
        loads(commands) == 0,
    decreases commands.len(),
{
    if commands.len() > 0 {
        lemma_loads_none(commands.drop_last());
    }
}

/// The commands that follow the creation of a window load the function
/// table once if it was not loaded, and not at all if it was.
pub proof fn lemma_loads_adoption(loaded: bool, window: u32)
    ensures
        loads(adoption_commands(loaded, window)) == (if loaded {
            0nat
        } else {
            1nat
        }),
{
    let commands = adoption_commands(loaded, window);
    if loaded {
        lemma_loads_none(commands);
    } else {
        lemma_loads_none(commands.drop_last());
    }
}

/// The loads of two batches add up.
pub proof fn lemma_loads_concat(first: Seq<CommandView>, second: Seq<CommandView>)
    ensures
        loads(first + second) == loads(first) + loads(second),
    decreases second.len(),
{
    if second.len() == 0 {
        assert(first + second =~= first);
    } else {
        lemma_loads_concat(first, second.drop_last());
        assert((first + second).drop_last() =~= first + second.drop_last());
    }
}

/// Every turn of the creation of a window is sound: whatever the state and
/// the reply, the turn adopts and releases nothing and leaves the state
/// that its commands lead to.
pub proof fn lemma_window_turn(build: WindowBuild, context: ContextState, reply: Reply)
    ensures
        context.accounts_for(build.step(context, reply)),
{
    let turn = build.step(context, reply);
    match build {
        WindowBuild::Start { builder } => {
            lemma_run_inert(context, turn.commands);
            lemma_run_keeps_live(context, turn.commands);
        },
        WindowBuild::Requested => {
            if reply.spec_handle() != 0 {
                lemma_adoption(context, reply.spec_handle());
            }
        },
    }
}

/// The function table is loaded once for all windows: whatever the state
/// before and whatever the two configurations, when two windows are created
/// one after the other, all the commands of the two creations together load
/// the table at most once, and exactly once if it was not loaded before and
/// one of the windows could be created; the second creation loads it only
/// if the first window could not be created. Once a window was created the
/// context is current, and a creation that finds it so changes nothing.
pub proof fn lemma_single_load(
    context: ContextState,
    first: Builder,
    first_window: Reply,
    second: Builder,
    second_window: Reply,
)
    ensures
        ({
            let asked = (WindowBuild::Start { builder: first }).step(context, Reply::Nothing);
            let opened = WindowBuild::Requested.step(asked.context, first_window);
            let asked_again = (WindowBuild::Start { builder: second }).step(
                opened.context,
                Reply::Nothing,
            );
            let opened_again = WindowBuild::Requested.step(asked_again.context, second_window);
            let all = asked.commands + opened.commands + asked_again.commands
                + opened_again.commands;
            &&& asked.verdict == Verdict::<WindowBuild, Option<u32>>::Continue(
                WindowBuild::Requested,
            )
            &&& asked_again.verdict == asked.verdict
            &&& opened.verdict is Finish
            &&& opened_again.verdict is Finish
            &&& opened.verdict->Finish_0 is Some <==> first_window.spec_handle() != 0
            &&& opened_again.verdict->Finish_0 is Some <==> second_window.spec_handle() != 0
            &&& loads(all) <= 1
            &&& loads(all) == 1 <==> !context.loaded && (opened.verdict->Finish_0 is Some
                || opened_again.verdict->Finish_0 is Some)
            &&& loads(asked_again.commands + opened_again.commands) == 1 ==> opened.verdict->Finish_0
                is None
            &&& opened.verdict->Finish_0 is Some ==> opened.context.loaded
            &&& opened.context.loaded ==> opened_again.context == opened.context
            &&& opened_again.context == (ContextState {
                loaded: context.loaded || opened.verdict->Finish_0 is Some
                    || opened_again.verdict->Finish_0 is Some,
                ..context
            })
        }),
{
    let asked = (WindowBuild::Start { builder: first }).step(context, Reply::Nothing);
    let opened = WindowBuild::Requested.step(asked.context, first_window);
    let asked_again = (WindowBuild::Start { builder: second }).step(opened.context, Reply::Nothing);
    let opened_again = WindowBuild::Requested.step(asked_again.context, second_window);
    lemma_loads_none(asked.commands);
    lemma_loads_adoption(context.loaded, first_window.spec_handle());
    lemma_loads_none(asked_again.commands);
    lemma_loads_adoption(opened.context.loaded, second_window.spec_handle());
    lemma_loads_none(Seq::<CommandView>::empty());
    lemma_loads_concat(asked.commands, opened.commands);
    lemma_loads_concat(asked.commands + opened.commands, asked_again.commands);
    lemma_loads_concat(
        asked.commands + opened.commands + asked_again.commands,
        opened_again.commands,
    );
    lemma_loads_concat(asked_again.commands, opened_again.commands);
}

/// What the commands that follow the creation of a window do: they load the
/// function table once if it was not loaded and not at all if it was, leave
/// the context current, and change nothing else.
pub proof fn lemma_adoption(context: ContextState, window: u32)
    ensures
        loads(adoption_commands(context.loaded, window)) == (if context.loaded {
            0nat
        } else {
            1nat
        }),
        context.run(adoption_commands(context.loaded, window)) == (ContextState {
            loaded: true,
            ..context
        }),
        context.releases_only_live(adoption_commands(context.loaded, window)),
{
    let commands = adoption_commands(context.loaded, window);
    lemma_loads_adoption(context.loaded, window);
    lemma_run_keeps_live(context, commands);
    let none = Seq::<CommandView>::empty();
    let reset = none.push(CommandView::DefaultWindowHints);
    lemma_run_push(context, none, CommandView::DefaultWindowHints);
    if context.loaded {
        assert(commands =~= reset);
    } else {
        let current = reset.push(CommandView::MakeCurrent { window });
        let synced = current.push(CommandView::SetSwapInterval { interval: SWAP_INTERVAL });
        lemma_run_push(context, reset, CommandView::MakeCurrent { window });
        lemma_run_push(context, current, CommandView::SetSwapInterval { interval: SWAP_INTERVAL });
        lemma_run_push(context, synced, CommandView::LoadFunctionTable { window });
        assert(commands =~= synced.push(CommandView::LoadFunctionTable { window }));
    }
}

/// The unsigned integer with the bit pattern of `value`.
pub open spec fn reinterpret(value: i32) -> u32 {
    if value >= 0 {
        value as u32
    } else {
        (value + 0x1_0000_0000) as u32
    }
}

impl Window {
    /// The shell's name for the window.
    pub closed spec fn spec_id(&self) -> u32 {
        self.id
    }

    /// The commands that begin a frame on a framebuffer of the given size.
    pub open spec fn clear_commands(width: i32, height: i32) -> Seq<CommandView> {
        seq![CommandView::Viewport { width, height }, CommandView::ClearColorBuffer]
    }

    /// The commands that draw `mesh` with `program`.
    pub open spec fn draw_commands(mesh: crate::vertex::Mesh, program: u32) -> Seq<CommandView> {
        mesh.select_commands() + Shader::select_commands(program) + seq![
            CommandView::DrawTriangles { count: mesh.count },
        ]
    }

    /// The commands that end a frame on `window`.
    pub open spec fn swap_commands(window: u32) -> Seq<CommandView> {
        seq![CommandView::SwapBuffers { window }, CommandView::PollEvents]
    }

    /// A builder with the default configuration.
    pub fn builder() -> (builder: Builder)
        ensures
            builder@ == Config::initial(),
    {
        Builder { title: None, width: DEFAULT_WIDTH, height: DEFAULT_HEIGHT, resizable: true }
    }

    /// The shell's name for the window.
    #[verifier::when_used_as_spec(spec_id)]
    pub fn id(&self) -> (id: u32)
        ensures
            id == self.spec_id(),
    {
        self.id
    }

    /// Begins a frame: sets the viewport to the whole framebuffer, whose
    /// size the shell has just read, and clears the colour buffer.
    pub fn clear(&self, context: &mut GraphicsContext, framebuffer: (i32, i32)) -> (commands: Vec<
        Command,
    >)
        requires
            old(context)@.loaded,
        ensures
            views(commands@) == Self::clear_commands(framebuffer.0, framebuffer.1),
            final(context)@ == old(context)@.run(views(commands@)),
            final(context)@ == old(context)@,
    {
        let mut batch = Batch::begin(context);
        batch.issue(context, Command::Viewport { width: framebuffer.0, height: framebuffer.1 });
        batch.issue(context, Command::ClearColorBuffer);
        proof {
            assert(batch.issued() =~= Self::clear_commands(framebuffer.0, framebuffer.1));
        }
        batch.commands
    }

    /// The size of the framebuffer as unsigned integers, from the size the
    /// shell has just read.
    pub fn size(&self, framebuffer: (i32, i32)) -> (size: (u32, u32))
        ensures
            size.0 == reinterpret(framebuffer.0),
            size.1 == reinterpret(framebuffer.1),
    {
        (unsigned(framebuffer.0), unsigned(framebuffer.1))
    }

    /// Draws `mesh` with `shader`: selects the mesh, selects the program,
    /// and draws all indices of the mesh as one list of triangles.
    pub fn draw<V: Vertex>(
        &self,
        context: &mut GraphicsContext,
        mesh: &VertexArray<V>,
        shader: &Shader,
    ) -> (commands: Vec<Command>)
        requires
            old(context)@.loaded,
            mesh@.is_complete(),
            shader.is_ready(),
        ensures
            views(commands@) == Self::draw_commands(mesh@, shader.spec_handle()),
            final(context)@ == old(context)@.run(views(commands@)),
            final(context)@ == (ContextState {
                array: mesh@.array,
                indices: mesh@.indices,
                program: shader.spec_handle(),
                ..old(context)@
            }),
    {
        let mut batch = Batch::begin(context);
        batch.issue(context, Command::BindVertexArray { array: mesh.array() });
        batch.issue(
            context,
            Command::BindBuffer {
                target: crate::command::BufferTarget::Indices,
                buffer: mesh.index_buffer(),
            },
        );
        batch.issue(context, Command::UseProgram { program: shader.handle() });
        batch.issue(context, Command::DrawTriangles { count: mesh.index_count() });
        proof {
            assert(batch.issued() =~= Self::draw_commands(mesh@, shader.spec_handle()));
        }
        batch.commands
    }

    /// The command that asks whether the user wants the window closed.
    pub fn close_query(&self) -> (command: Command)
        ensures
            command@ == (CommandView::ShouldClose { window: self.spec_id() }),
    {
        Command::ShouldClose { window: self.id }
    }

    /// Whether the user wants the window closed, from the reply to
    /// [`Window::close_query`]. A reply that says nothing says no.
    pub fn should_close(&self, reply: &Reply) -> (close: bool)
        ensures
            close == reply.spec_status(),
    {
        reply.status()
    }

    /// The command that asks for the size of the window's framebuffer.
    pub fn size_query(&self) -> (command: Command)
        ensures
            command@ == (CommandView::GetFramebufferSize { window: self.spec_id() }),
    {
        Command::GetFramebufferSize { window: self.id }
    }

    /// Gives the window up: closes it. The context stays current, for the
    /// windows that remain and for those to come.
    pub fn destroy(self) -> (commands: Vec<Command>)
        ensures
            views(commands@) == seq![CommandView::DestroyWindow { window: self.spec_id() }],
    {
        let mut commands: Vec<Command> = Vec::new();
        commands.push(Command::DestroyWindow { window: self.id });
        proof {
            assert(views(commands@) =~= seq![
                CommandView::DestroyWindow { window: self.spec_id() },
            ]);
        }
        commands
    }

    /// Ends a frame: presents the back buffer, then pumps the events of
    /// every window of the backend, not only of this one.
    pub fn swap(&mut self) -> (commands: Vec<Command>)
        ensures
            views(commands@) == Self::swap_commands(old(self).spec_id()),
            *final(self) == *old(self),
    {
        let mut commands: Vec<Command> = Vec::new();
        commands.push(Command::SwapBuffers { window: self.id });
        commands.push(Command::PollEvents);
        proof {
            assert(views(commands@) =~= Self::swap_commands(self.spec_id()));
        }
        commands
    }
}

/// The unsigned integer with the bit pattern of `value`.
fn unsigned(value: i32) -> (bits: u32)
    ensures
        bits == reinterpret(value),
{
    if value >= 0 {
        value as u32
    } else {
        (value as i64 + 0x1_0000_0000) as u32
    }
}

} // verus!
