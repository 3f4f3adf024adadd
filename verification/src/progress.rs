//! Operations that need the driver's answers proceed in turns.
//!
//! A turn takes the reply to the previous turn's last command and yields the
//! next batch of commands. The shell carries the batch out in order and
//! comes back with the answer to its last command, until a turn finishes the
//! operation.

use vstd::prelude::*;
use crate::command::{views, Command, CommandView, Handle};
use crate::context::{lemma_releases_concat, lemma_run_concat, ContextState};

verus! {

/// What one turn of an operation hands to the shell.
pub enum Progress<M, T> {
    /// The operation goes on from `machine` once `commands` are carried out.
    Continue { machine: M, commands: Vec<Command> },
    /// The operation is over once `commands` are carried out.
    Finish { commands: Vec<Command>, outcome: T },
}

/// How a turn ends: with the state to go on from, or with the outcome.
pub enum Verdict<M, T> {
    Continue(M),
    Finish(T),
}

/// What a turn amounts to.
pub struct Turn<M, T> {
    /// The object that the reply brought and that the turn took into
    /// ownership, if any.
    pub adopted: Option<Handle>,
    /// The commands the turn issues, in order.
    pub commands: Seq<CommandView>,
    /// The state the turn leaves the context in.
    pub context: ContextState,
    /// How the turn ends.
    pub verdict: Verdict<M, T>,
}

impl<M, T> Progress<M, T> {
    /// The batch of commands to carry out.
    pub open spec fn commands(self) -> Seq<Command> {
        match self {
            Progress::Continue { machine, commands } => commands@,
            Progress::Finish { commands, outcome } => commands@,
        }
    }

    /// How the turn ends.
    pub open spec fn verdict(self) -> Verdict<M, T> {
        match self {
            Progress::Continue { machine, commands } => Verdict::Continue(machine),
            Progress::Finish { commands, outcome } => Verdict::Finish(outcome),
        }
    }

    /// Whether this is what `turn` hands to the shell.
    pub open spec fn carries_out(self, turn: Turn<M, T>) -> bool {
        &&& views(self.commands()) == turn.commands
        &&& self.verdict() == turn.verdict
    }
}

impl<M, T> Turn<M, T> {
    /// The turn that does what `self` does and then what `rest` does, where
    /// `rest` adopts nothing.
    pub open spec fn followed_by<N, U>(self, rest: Turn<N, U>) -> Turn<N, U> {
        Turn {
            adopted: self.adopted,
            commands: self.commands + rest.commands,
            context: rest.context,
            verdict: rest.verdict,
        }
    }
}

/// Taking one turn and then another that adopts nothing is taking the two
/// as one: where the first is sound in a state and the second in the state
/// that the first leaves, the two joined are sound in the first state.
pub proof fn lemma_followed_by<M, T, N, U>(context: ContextState, first: Turn<M, T>, rest: Turn<N, U>)
    requires
        rest.adopted is None,
        context.accounts_for(first),
        first.context.accounts_for(rest),
    ensures
        context.accounts_for(first.followed_by(rest)),
{
    let start = match first.adopted {
        Some(handle) => context.adopt(handle),
        None => context,
    };
    lemma_run_concat(start, first.commands, rest.commands);
    lemma_releases_concat(start, first.commands, rest.commands);
}

} // verus!
