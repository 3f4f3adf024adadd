//! The explicit graphics context: a mirror of the driver's global state.
//!
//! The driver keeps one set of "current" slots (the program in use, the
//! bound vertex array and buffers) and hands out names for the objects it
//! creates. [`GraphicsContext`] records both, so that every operation that
//! depends on them says so in its signature, and so that a name is released
//! exactly when it is live.

use vstd::prelude::*;
use crate::command::{
    lemma_views_push, views, BufferTarget, Command, CommandView, Handle, ObjectKind,
};
use crate::progress::Turn;

verus! {

/// What a [`GraphicsContext`] stands for in specifications.
pub struct ContextState {
    /// The objects that were created and not yet released.
    pub live: Set<Handle>,
    /// The program in use; zero if none is.
    pub program: u32,
    /// The bound vertex array; zero if none is.
    pub array: u32,
    /// The buffer bound as vertex data; zero if none is.
    pub vertices: u32,
    /// The buffer bound as index data; zero if none is.
    pub indices: u32,
    /// Whether the driver's function table was loaded, which is what makes
    /// a context current.
    pub loaded: bool,
}

impl ContextState {
    /// The state of a process that has not created a window yet.
    pub open spec fn fresh() -> ContextState {
        ContextState {
            live: Set::empty(),
            program: 0,
            array: 0,
            vertices: 0,
            indices: 0,
            loaded: false,
        }
    }

    /// Whether every live object has a name: zero names none.
    pub open spec fn named(self) -> bool {
        forall|handle: Handle| self.live.contains(handle) ==> handle.id != 0
    }

    /// Whether `handle` can become a new owned object: it names something,
    /// and nothing live bears that name already.
    pub open spec fn adoptable(self, handle: Handle) -> bool {
        handle.id != 0 && !self.live.contains(handle)
    }

    /// The state after `handle` has been taken into ownership.
    pub open spec fn adopt(self, handle: Handle) -> ContextState {
        ContextState { live: self.live.insert(handle), ..self }
    }

    /// The state after `handle` has been released.
    pub open spec fn release(self, handle: Handle) -> ContextState {
        ContextState { live: self.live.remove(handle), ..self }
    }

    /// The state after one command has been issued. Commands that create an
    /// object change nothing by themselves: the object is adopted when its
    /// name arrives.
    pub open spec fn apply(self, command: CommandView) -> ContextState {
        match command {
            CommandView::DeleteShader { stage } => self.release(
                Handle { kind: ObjectKind::Stage, id: stage },
            ),
            CommandView::DeleteProgram { program } => self.release(
                Handle { kind: ObjectKind::Program, id: program },
            ),
            CommandView::DeleteBuffer { buffer } => self.release(
                Handle { kind: ObjectKind::Buffer, id: buffer },
            ),
            CommandView::DeleteVertexArray { array } => self.release(
                Handle { kind: ObjectKind::VertexArray, id: array },
            ),
            CommandView::UseProgram { program } => ContextState { program, ..self },
            CommandView::BindVertexArray { array } => ContextState { array, ..self },
            CommandView::BindBuffer { target, buffer } => match target {
                BufferTarget::Vertices => ContextState { vertices: buffer, ..self },
                BufferTarget::Indices => ContextState { indices: buffer, ..self },
            },
            CommandView::LoadFunctionTable { window } => ContextState { loaded: true, ..self },
            _ => self,
        }
    }

    /// The state after a batch of commands has been issued in order.
    pub open spec fn run(self, commands: Seq<CommandView>) -> ContextState
        decreases commands.len(),
    {
        if commands.len() == 0 {
            self
        } else {
            self.run(commands.drop_last()).apply(commands.last())
        }
    }

    /// Whether `commands` releases only what is live at that moment, so that
    /// nothing is released twice and nothing that is not owned.
    pub open spec fn releases_only_live(self, commands: Seq<CommandView>) -> bool
        decreases commands.len(),
    {
        if commands.len() == 0 {
            true
        } else {
            let before = self.run(commands.drop_last());
            &&& self.releases_only_live(commands.drop_last())
            &&& match released_by(commands.last()) {
                Some(handle) => before.live.contains(handle),
                None => true,
            }
        }
    }

    /// The commands that release `handle`: one deletion if it is live, none
    /// if it is not.
    pub open spec fn release_commands(self, handle: Handle) -> Seq<CommandView> {
        if self.live.contains(handle) {
            seq![deletion(handle)]
        } else {
            Seq::empty()
        }
    }

    /// Whether `turn` may be taken in this state: what it adopts is new, and
    /// what it releases is live.
    pub open spec fn admits<M, T>(self, turn: Turn<M, T>) -> bool {
        match turn.adopted {
            Some(handle) => self.adoptable(handle) && self.adopt(handle).releases_only_live(
                turn.commands,
            ),
            None => self.releases_only_live(turn.commands),
        }
    }

    /// The state that `turn` leads to by its adoption and its commands: what
    /// the turn adopts becomes live, then its commands take effect in
    /// order.
    pub open spec fn after<M, T>(self, turn: Turn<M, T>) -> ContextState {
        match turn.adopted {
            Some(handle) => self.adopt(handle).run(turn.commands),
            None => self.run(turn.commands),
        }
    }

    /// Whether `turn` is sound in this state: it adopts only what is new and
    /// releases only what is live, and the state it says it leaves is the
    /// one that its adoption and its commands lead to.
    pub open spec fn accounts_for<M, T>(self, turn: Turn<M, T>) -> bool {
        self.admits(turn) && self.after(turn) == turn.context
    }
}

/// The command that deletes the object that `handle` names.
pub open spec fn deletion(handle: Handle) -> CommandView {
    match handle.kind {
        ObjectKind::Stage => CommandView::DeleteShader { stage: handle.id },
        ObjectKind::Program => CommandView::DeleteProgram { program: handle.id },
        ObjectKind::Buffer => CommandView::DeleteBuffer { buffer: handle.id },
        ObjectKind::VertexArray => CommandView::DeleteVertexArray { array: handle.id },
    }
}

/// The object that `command` releases, if it releases one.
pub open spec fn released_by(command: CommandView) -> Option<Handle> {
    match command {
        CommandView::DeleteShader { stage } => Some(Handle { kind: ObjectKind::Stage, id: stage }),
        CommandView::DeleteProgram { program } => Some(
            Handle { kind: ObjectKind::Program, id: program },
        ),
        CommandView::DeleteBuffer { buffer } => Some(
            Handle { kind: ObjectKind::Buffer, id: buffer },
        ),
        CommandView::DeleteVertexArray { array } => Some(
            Handle { kind: ObjectKind::VertexArray, id: array },
        ),
        _ => None,
    }
}

/// Issuing one more command after a batch is applying it to the state that
/// the batch leaves.
pub proof fn lemma_run_push(state: ContextState, commands: Seq<CommandView>, command: CommandView)
    ensures
        state.run(commands.push(command)) == state.run(commands).apply(command),
{
    assert(commands.push(command).drop_last() =~= commands);
}

/// Issuing two batches one after the other is issuing their concatenation.
pub proof fn lemma_run_concat(state: ContextState, first: Seq<CommandView>, second: Seq<CommandView>)
    ensures
        state.run(first + second) == state.run(first).run(second),
    decreases second.len(),
{
    if second.len() == 0 {
        assert(first + second =~= first);
    } else {
        lemma_run_concat(state, first, second.drop_last());
        assert((first + second).drop_last() =~= first + second.drop_last());
    }
}

/// A batch that releases only what is live, followed by another that does
/// so in the state the first leaves, releases only what is live.
pub proof fn lemma_releases_concat(
    state: ContextState,
    first: Seq<CommandView>,
    second: Seq<CommandView>,
)
    requires
        state.releases_only_live(first),
        state.run(first).releases_only_live(second),
    ensures
        state.releases_only_live(first + second),
    decreases second.len(),
{
    if second.len() == 0 {
        assert(first + second =~= first);
    } else {
        lemma_releases_concat(state, first, second.drop_last());
        lemma_run_concat(state, first, second.drop_last());
        assert((first + second).drop_last() =~= first + second.drop_last());
    }
}

/// Issuing the commands that release a handle strikes it from the live
/// objects and changes nothing else.
pub proof fn lemma_release_commands(state: ContextState, handle: Handle)
    ensures
        state.run(state.release_commands(handle)) == state.release(handle),
        state.releases_only_live(state.release_commands(handle)),
{
    let commands = state.release_commands(handle);
    if state.live.contains(handle) {
        assert(commands.drop_last() =~= Seq::<CommandView>::empty());
        assert(state.run(commands.drop_last()) == state);
        assert(state.releases_only_live(commands.drop_last()));
    } else {
        assert(state.live.remove(handle) =~= state.live);
    }
}

/// No command brings an object to life: what is not live before a command is
/// not live after it.
pub proof fn lemma_apply_keeps_dead(state: ContextState, command: CommandView, handle: Handle)
    requires
        !state.live.contains(handle),
    ensures
        !state.apply(command).live.contains(handle),
{
}

/// A batch that releases nothing leaves the live objects as they are.
pub proof fn lemma_run_keeps_live(state: ContextState, commands: Seq<CommandView>)
    requires
        forall|i: int| 0 <= i < commands.len() ==> released_by(#[trigger] commands[i]) is None,
    ensures
        state.run(commands).live == state.live,
        state.releases_only_live(commands),
    decreases commands.len(),
{
    if commands.len() > 0 {
        lemma_run_keeps_live(state, commands.drop_last());
        assert(released_by(commands[commands.len() - 1]) is None);
    }
}

/// Whether `command` leaves every state as it is.
pub open spec fn inert(command: CommandView) -> bool {
    forall|state: ContextState| #[trigger] state.apply(command) == state
}

/// A batch of commands that each leave the state as it is leaves the state
/// as it is.
pub proof fn lemma_run_inert(state: ContextState, commands: Seq<CommandView>)
    requires
        forall|i: int| 0 <= i < commands.len() ==> inert(#[trigger] commands[i]),
    ensures
        state.run(commands) == state,
    decreases commands.len(),
{
    if commands.len() > 0 {
        lemma_run_inert(state, commands.drop_last());
        assert(inert(commands[commands.len() - 1]));
    }
}

/// In a batch that releases only what is live, what a command releases is
/// live when the command's turn comes.
pub proof fn lemma_released_live(state: ContextState, commands: Seq<CommandView>, at: int)
    requires
        state.releases_only_live(commands),
        0 <= at < commands.len(),
        released_by(commands[at]) is Some,
    ensures
        state.run(commands.subrange(0, at)).live.contains(released_by(commands[at])->0),
    decreases commands.len(),
{
    if at == commands.len() - 1 {
        assert(commands.subrange(0, at) =~= commands.drop_last());
    } else {
        lemma_released_live(state, commands.drop_last(), at);
        assert(commands.drop_last().subrange(0, at) =~= commands.subrange(0, at));
    }
}

/// What a command of a batch releases is live at no later point of the
/// batch.
pub proof fn lemma_released_stays_dead(
    state: ContextState,
    commands: Seq<CommandView>,
    at: int,
    later: int,
)
    requires
        0 <= at < later <= commands.len(),
        released_by(commands[at]) is Some,
    ensures
        !state.run(commands.subrange(0, later)).live.contains(released_by(commands[at])->0),
    decreases later - at,
{
    let handle = released_by(commands[at])->0;
    let before = commands.subrange(0, later - 1);
    assert(commands.subrange(0, later).drop_last() =~= before);
    assert(commands.subrange(0, later).last() == commands[later - 1]);
    if later == at + 1 {
        assert(state.run(before).apply(commands[at]) == state.run(before).release(handle));
    } else {
        lemma_released_stays_dead(state, commands, at, later - 1);
        lemma_apply_keeps_dead(state.run(before), commands[later - 1], handle);
    }
}

/// No object is released twice: in a batch that releases only what is live,
/// two commands never release the same object.
pub proof fn lemma_released_once(
    state: ContextState,
    commands: Seq<CommandView>,
    first: int,
    second: int,
)
    requires
        state.releases_only_live(commands),
        0 <= first < second < commands.len(),
        released_by(commands[first]) is Some,
    ensures
        released_by(commands[second]) != released_by(commands[first]),
{
    if released_by(commands[second]) == released_by(commands[first]) {
        lemma_released_live(state, commands, second);
        lemma_released_stays_dead(state, commands, first, second);
    }
}

/// An element is in a sequence with one more item exactly if it is that
/// item or was in the sequence.
proof fn lemma_contains_push(items: Seq<Handle>, item: Handle, probe: Handle)
    ensures
        items.push(item).contains(probe) <==> probe == item || items.contains(probe),
{
    let longer = items.push(item);
    if items.contains(probe) {
        let k = choose|k: int| 0 <= k < items.len() && items[k] == probe;
        assert(longer[k] == probe);
    }
    if probe == item {
        assert(longer[items.len() as int] == probe);
    }
    if longer.contains(probe) {
        let k = choose|k: int| 0 <= k < longer.len() && longer[k] == probe;
        if k < items.len() {
            assert(items[k] == probe);
        }
    }
}

/// The mirror of the driver's state that every operation takes.
pub struct GraphicsContext {
    live: Vec<Handle>,
    program: u32,
    array: u32,
    vertices: u32,
    indices: u32,
    loaded: bool,
}

impl View for GraphicsContext {
    type V = ContextState;

    closed spec fn view(&self) -> ContextState {
        ContextState {
            live: Set::new(|handle: Handle| handle.id != 0 && self.live@.contains(handle)),
            program: self.program,
            array: self.array,
            vertices: self.vertices,
            indices: self.indices,
            loaded: self.loaded,
        }
    }
}

impl GraphicsContext {
    /// The context of a process that has not created a window yet.
    pub fn new() -> (context: GraphicsContext)
        ensures
            context@ == ContextState::fresh(),
    {
        let context = GraphicsContext {
            live: Vec::new(),
            program: 0,
            array: 0,
            vertices: 0,
            indices: 0,
            loaded: false,
        };
        assert(context@.live =~= Set::<Handle>::empty());
        context
    }

    /// Whether the function table was loaded, that is, whether a context is
    /// current.
    pub fn is_current(&self) -> (loaded: bool)
        ensures
            loaded == self@.loaded,
    {
        self.loaded
    }

    /// The program in use; zero if none is.
    pub fn program_in_use(&self) -> (program: u32)
        ensures
            program == self@.program,
    {
        self.program
    }

    /// The bound vertex array; zero if none is.
    pub fn bound_array(&self) -> (array: u32)
        ensures
            array == self@.array,
    {
        self.array
    }

    /// The buffer bound to `target`; zero if none is.
    pub fn bound_buffer(&self, target: BufferTarget) -> (buffer: u32)
        ensures
            buffer == match target {
                BufferTarget::Vertices => self@.vertices,
                BufferTarget::Indices => self@.indices,
            },
    {
        match target {
            BufferTarget::Vertices => self.vertices,
            BufferTarget::Indices => self.indices,
        }
    }

    /// Where `handle` stands in the registry, if it is live.
    fn position(&self, handle: Handle) -> (found: Option<usize>)
        ensures
            match found {
                Some(at) => at < self.live@.len() && self.live@[at as int] == handle,
                None => !self.live@.contains(handle),
            },
    {
        let mut at: usize = 0;
        while at < self.live.len()
            invariant
                at <= self.live@.len(),
                forall|k: int| 0 <= k < at ==> self.live@[k] != handle,
            decreases self.live@.len() - at,
        {
            let candidate = self.live[at];
            if candidate.kind == handle.kind && candidate.id == handle.id {
                return Some(at);
            }
            at += 1;
        }
        None
    }

    /// Whether `handle` names a live object.
    pub fn owns(&self, handle: Handle) -> (live: bool)
        ensures
            live == self@.live.contains(handle),
    {
        handle.id != 0 && self.position(handle).is_some()
    }

    /// Every live object has a name: zero names none.
    pub proof fn lemma_live_named(&self)
        ensures
            self@.named(),
    {
    }

    /// Takes `handle` into ownership if it names something and nothing live
    /// bears that name. Says whether it did.
    pub(crate) fn adopt(&mut self, handle: Handle) -> (adopted: bool)
        ensures
            adopted == old(self)@.adoptable(handle),
            adopted ==> final(self)@ == old(self)@.adopt(handle),
            !adopted ==> final(self)@ == old(self)@,
    {
        if handle.id == 0 {
            return false;
        }
        if self.position(handle).is_some() {
            return false;
        }
        let ghost before = self.live@;
        let ghost held = self@.live;
        self.live.push(handle);
        proof {
            assert forall|h: Handle| self@.live.contains(h) == held.insert(handle).contains(h) by {
                lemma_contains_push(before, handle, h);
            }
            assert(self@.live =~= held.insert(handle));
        }
        true
    }

    /// Strikes `handle` from the registry.
    fn forget(&mut self, handle: Handle)
        ensures
            final(self)@ == old(self)@.release(handle),
    {
        let ghost before = self.live@;
        let mut kept: Vec<Handle> = Vec::new();
        let mut at: usize = 0;
        while at < self.live.len()
            invariant
                self.live@ == before,
                at <= before.len(),
                forall|h: Handle| #[trigger]
                    kept@.contains(h) <==> h != handle && before.subrange(0, at as int).contains(h),
            decreases before.len() - at,
        {
            let candidate = self.live[at];
            let ghost seen = before.subrange(0, at as int);
            let ghost held = kept@;
            proof {
                assert(before.subrange(0, at + 1) =~= seen.push(candidate));
            }
            if !(candidate.kind == handle.kind && candidate.id == handle.id) {
                kept.push(candidate);
                proof {
                    assert forall|h: Handle| #[trigger]
                        kept@.contains(h) <==> h != handle && seen.push(candidate).contains(
                            h,
                        ) by {
                        lemma_contains_push(held, candidate, h);
                        lemma_contains_push(seen, candidate, h);
                    }
                }
            } else {
                proof {
                    assert forall|h: Handle| #[trigger]
                        kept@.contains(h) <==> h != handle && seen.push(candidate).contains(
                            h,
                        ) by {
                        lemma_contains_push(seen, candidate, h);
                    }
                }
            }
            at += 1;
        }
        let ghost held = self@.live;
        self.live = kept;
        proof {
            assert(before.subrange(0, before.len() as int) =~= before);
            assert(self@.live =~= held.remove(handle));
        }
    }

    /// Records what `command` does to the driver's state.
    fn note(&mut self, command: &Command)
        ensures
            final(self)@ == old(self)@.apply(command@),
    {
        match command {
            Command::DeleteShader { stage } => {
                self.forget(Handle { kind: ObjectKind::Stage, id: *stage });
            },
            Command::DeleteProgram { program } => {
                self.forget(Handle { kind: ObjectKind::Program, id: *program });
            },
            Command::DeleteBuffer { buffer } => {
                self.forget(Handle { kind: ObjectKind::Buffer, id: *buffer });
            },
            Command::DeleteVertexArray { array } => {
                self.forget(Handle { kind: ObjectKind::VertexArray, id: *array });
            },
            Command::UseProgram { program } => {
                self.program = *program;
            },
            Command::BindVertexArray { array } => {
                self.array = *array;
            },
            Command::BindBuffer { target, buffer } => {
                match target {
                    BufferTarget::Vertices => {
                        self.vertices = *buffer;
                    },
                    BufferTarget::Indices => {
                        self.indices = *buffer;
                    },
                }
            },
            Command::LoadFunctionTable { window } => {
                self.loaded = true;
            },
            _ => {},
        }
    }
}

/// A batch of commands in the making, together with the state the context
/// was in when the batch was begun.
pub(crate) struct Batch {
    pub(crate) commands: Vec<Command>,
    pub(crate) start: Ghost<ContextState>,
}

impl Batch {
    /// The views of the commands issued so far.
    pub(crate) open spec fn issued(&self) -> Seq<CommandView> {
        views(self.commands@)
    }

    /// Whether the batch accounts for `context`: its commands lead from the
    /// state it was begun in to `context`, and release only what is live.
    pub(crate) open spec fn tracks(&self, context: ContextState) -> bool {
        &&& self.start@.run(self.issued()) == context
        &&& self.start@.releases_only_live(self.issued())
    }

    /// An empty batch, begun in the state of `context`.
    pub(crate) fn begin(context: &GraphicsContext) -> (batch: Batch)
        ensures
            batch.tracks(context@),
            batch.start@ == context@,
            batch.issued() == Seq::<CommandView>::empty(),
    {
        let batch = Batch { commands: Vec::new(), start: Ghost(context@) };
        assert(batch.issued() =~= Seq::<CommandView>::empty());
        batch
    }

    /// Appends a command that releases nothing and records what it does to
    /// the driver's state.
    pub(crate) fn issue(&mut self, context: &mut GraphicsContext, command: Command)
        requires
            old(self).tracks(old(context)@),
            released_by(command@) is None,
        ensures
            final(self).tracks(final(context)@),
            final(self).start == old(self).start,
            final(self).issued() == old(self).issued().push(command@),
            final(context)@ == old(context)@.apply(command@),
    {
        proof {
            lemma_views_push(self.commands@, command);
            assert(self.issued().push(command@).drop_last() =~= self.issued());
        }
        context.note(&command);
        self.commands.push(command);
    }

    /// Releases `handle` if it is live: appends its deletion and strikes it
    /// from the registry. Does nothing if it is not live.
    pub(crate) fn release(&mut self, context: &mut GraphicsContext, handle: Handle)
        requires
            old(self).tracks(old(context)@),
        ensures
            final(self).tracks(final(context)@),
            final(self).start == old(self).start,
            final(self).issued() == old(self).issued() + old(context)@.release_commands(handle),
            final(context)@ == old(context)@.release(handle),
    {
        if context.owns(handle) {
            let command = match handle.kind {
                ObjectKind::Stage => Command::DeleteShader { stage: handle.id },
                ObjectKind::Program => Command::DeleteProgram { program: handle.id },
                ObjectKind::Buffer => Command::DeleteBuffer { buffer: handle.id },
                ObjectKind::VertexArray => Command::DeleteVertexArray { array: handle.id },
            };
            proof {
                lemma_views_push(self.commands@, command);
                assert(self.issued().push(command@).drop_last() =~= self.issued());
                assert(self.issued().push(command@) =~= self.issued() + seq![deletion(handle)]);
            }
            context.note(&command);
            self.commands.push(command);
        } else {
            proof {
                assert(self.issued() =~= self.issued() + Seq::<CommandView>::empty());
                assert(context@.live =~= context@.live.remove(handle));
            }
        }
    }
}

} // verus!
