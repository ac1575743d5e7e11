//! What the user asked for, as the host read it.

use vstd::prelude::*;

verus! {

/// The intent of one input.
#[derive(Clone, Debug)]
pub enum Action {
    /// Leave the active screen.
    Back,
    /// Move the selection by this many lines, down when positive.
    MoveSelection(i32),
    /// Run the catalog entry at this index.
    VerbIndex(usize),
    /// Run the catalog entry that this invocation names.
    VerbInvocate(String),
    /// The invocation typed so far, not yet sent.
    VerbEdit(String),
    /// Input that asks for nothing.
    Unparsed,
}

/// An action, with its texts as sequences of characters.
pub enum ActionView {
    Back,
    MoveSelection(int),
    VerbIndex(nat),
    VerbInvocate(Seq<char>),
    VerbEdit(Seq<char>),
    Unparsed,
}

impl View for Action {
    type V = ActionView;

    open spec fn view(&self) -> ActionView {
        match *self {
            Action::Back => ActionView::Back,
            Action::MoveSelection(dy) => ActionView::MoveSelection(dy as int),
            Action::VerbIndex(index) => ActionView::VerbIndex(index as nat),
            Action::VerbInvocate(invocation) => ActionView::VerbInvocate(invocation@),
            Action::VerbEdit(invocation) => ActionView::VerbEdit(invocation@),
            Action::Unparsed => ActionView::Unparsed,
        }
    }
}

/// One input: the text as typed and the action read from it.
#[derive(Clone, Debug)]
pub struct Command {
    pub raw: String,
    pub action: Action,
}

impl Command {
    /// The command of an empty input, which asks for nothing.
    pub fn new() -> (cmd: Command)
        ensures
            cmd.raw@ == Seq::<char>::empty(),
            cmd.action@ == ActionView::Unparsed,
    {
        Command { raw: String::new(), action: Action::Unparsed }
    }
}

} // verus!
