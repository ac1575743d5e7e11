//! The protocol between a screen and the loop that hosts it.
//!
//! The host owns a stack of screens and drives the one on top: it reads an
//! input, has the screen `apply` it, and then has it draw its body, its
//! status and its flags. What only the host can do, to search the catalog
//! and to run one of its entries, a screen asks for with a [`Step`].

use vstd::prelude::*;
use crate::app_context::AppContext;
use crate::commands::Command;
use crate::errors::ProgramError;
use crate::help_states::{HelpModel, HelpState};
use crate::io::W;
use crate::screens::Screen;
use crate::verb_store::PrefixSearchResult;

verus! {

/// What the host does to its stack after a command.
pub enum AppStateCmdResult {
    /// Nothing: the active screen stays.
    Keep,
    /// Remove the active screen.
    PopState,
    /// Put a new screen above the active one.
    PushState(HelpState),
    /// Show this message; the stack stays.
    DisplayError(String),
}

/// A result, with its screen as a model and its message as a sequence.
pub enum CmdResultView {
    Keep,
    PopState,
    PushState(HelpModel),
    DisplayError(Seq<char>),
}

impl View for AppStateCmdResult {
    type V = CmdResultView;

    open spec fn view(&self) -> CmdResultView {
        match *self {
            AppStateCmdResult::Keep => CmdResultView::Keep,
            AppStateCmdResult::PopState => CmdResultView::PopState,
            AppStateCmdResult::PushState(state) => CmdResultView::PushState(state@),
            AppStateCmdResult::DisplayError(message) => CmdResultView::DisplayError(message@),
        }
    }
}

/// The message that tells that no verb answers to `invocation`.
pub open spec fn verb_not_found_message(invocation: Seq<char>) -> Seq<char> {
    "verb not found: "@ + invocation
}

impl AppStateCmdResult {
    /// The result of an invocation that the catalog does not know.
    pub fn verb_not_found(invocation: &str) -> (result: AppStateCmdResult)
        ensures
            result@ == CmdResultView::DisplayError(verb_not_found_message(invocation@)),
    {
        let mut message = String::from_str("verb not found: ");
        message.append(invocation);
        AppStateCmdResult::DisplayError(message)
    }
}

/// How far a screen came with what it was asked, and what it needs of the
/// host to finish.
pub enum Step<T> {
    /// It is done; this is the outcome.
    Done(T),
    /// The host searches the catalog for this prefix and hands the answer
    /// to the operation's second half.
    Search(String),
    /// The host turns to the catalog entry at this index, with this
    /// invocation: it runs the entry where a command was applied, and
    /// writes the entry's own status where a status was asked for.
    Verb(usize, String),
}

/// A step, with its outcome and its text as their views.
pub enum StepView<V> {
    Done(V),
    Search(Seq<char>),
    Verb(nat, Seq<char>),
}

impl<T: View> View for Step<T> {
    type V = StepView<T::V>;

    open spec fn view(&self) -> StepView<T::V> {
        match *self {
            Step::Done(outcome) => StepView::Done(outcome@),
            Step::Search(prefix) => StepView::Search(prefix@),
            Step::Verb(index, invocation) => StepView::Verb(index as nat, invocation@),
        }
    }
}

/// What every screen offers to the host.
pub trait AppState {
    /// Whether the screen waits for work in the background.
    spec fn pending(&self) -> bool;

    /// Whether the screen can take `cmd` on a terminal of this size.
    spec fn accepts(&self, cmd: &Command, screen: &Screen, con: &AppContext) -> bool;

    /// Whether the screen can be drawn on a terminal of this size.
    spec fn drawable_on(&self, screen: &Screen) -> bool;

    /// Tells whether the screen waits for work in the background.
    fn has_pending_task(&self) -> (pending: bool)
        ensures
            pending == self.pending(),
    ;

    /// Takes a command: the one way in which the host changes a screen.
    fn apply(&mut self, cmd: &Command, screen: &Screen, con: &AppContext) -> (step: Step<
        AppStateCmdResult,
    >)
        requires
            old(self).accepts(cmd, screen, con),
    ;

    /// Finishes an `apply` that asked for a search of `invocation`, with
    /// what the catalog answered.
    fn apply_found(
        &mut self,
        invocation: String,
        found: PrefixSearchResult,
        screen: &Screen,
        con: &AppContext,
    ) -> (step: Step<AppStateCmdResult>)
        ensures
            !(step is Search),
    ;

    /// The command that brings the screen up to date after a change from
    /// outside.
    fn refresh(&mut self, screen: &Screen, con: &AppContext) -> (cmd: Command)
    ;

    /// Does a part of the work that the screen waits for. Only a screen
    /// that waits for some may be asked.
    fn do_pending_task(&mut self, screen: &Screen)
        requires
            old(self).pending(),
    ;

    /// Draws the body of the screen. The sink only grows.
    fn display(&mut self, w: &mut W, screen: &Screen, con: &AppContext) -> (done: Result<
        (),
        ProgramError,
    >)
        requires
            old(self).drawable_on(screen),
        ensures
            old(w)@.is_prefix_of(final(w)@),
    ;

    /// Takes the host's word on what became of the text that `display`
    /// queued: whether the terminal received it.
    fn sent(&mut self, sent: bool)
    ;

    /// Draws the status of a command that was typed and not yet applied.
    fn write_status(&self, w: &mut W, cmd: &Command, screen: &Screen, con: &AppContext) -> (step:
        Step<()>)
        requires
            screen.height >= 1,
        ensures
            old(w)@.is_prefix_of(final(w)@),
    ;

    /// Finishes a `write_status` that asked for a search of `invocation`,
    /// with what the catalog answered.
    fn write_status_found(
        &self,
        w: &mut W,
        invocation: String,
        found: PrefixSearchResult,
        screen: &Screen,
        con: &AppContext,
    ) -> (step: Step<()>)
        requires
            screen.height >= 1,
        ensures
            !(step is Search),
            old(w)@.is_prefix_of(final(w)@),
    ;

    /// Draws the row of flags.
    fn write_flags(&self, w: &mut W, screen: &Screen, con: &AppContext)
        ensures
            old(w)@.is_prefix_of(final(w)@),
    ;
}

/// Lets a screen do a part of the work that it waits for, if it waits for
/// any, and tells whether it did. A screen that waits for nothing is not
/// asked and stays as it is.
pub fn poll_pending_task<S: AppState>(state: &mut S, screen: &Screen) -> (asked: bool)
    ensures
        asked == old(state).pending(),
        !asked ==> *final(state) == *old(state),
{
    if state.has_pending_task() {
        state.do_pending_task(screen);
        true
    } else {
        false
    }
}

} // verus!
