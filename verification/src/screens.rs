//! The terminal's size, and the escape sequences that clear it.

use vstd::prelude::*;
use crate::io::W;

verus! {

/// What a clearing sequence clears.
#[derive(Clone, Copy, Debug, PartialEq, Eq, Structural)]
pub enum ClearType {
    /// Every cell of the terminal.
    All,
    /// The cells from the cursor to the end of its row.
    UntilNewLine,
}

/// The control sequence introducer, escape and an opening bracket.
pub open spec fn csi() -> Seq<char> {
    seq!['\u{1b}', '[']
}

/// The sequence that clears what `kind` names.
pub open spec fn clear_code(kind: ClearType) -> Seq<char> {
    match kind {
        ClearType::All => csi() + seq!['2', 'J'],
        ClearType::UntilNewLine => csi() + seq!['K'],
    }
}

/// `crossterm::terminal::Clear`, written as an ANSI sequence: the
/// introducer, then `2J` for the whole terminal and `K` for the rest of the
/// row.
#[verifier::external_body]
fn crossterm_clear(kind: ClearType) -> (code: String)
    ensures
        code@ == clear_code(kind),
{
    let clear = crossterm::terminal::Clear(
        match kind {
            ClearType::All => crossterm::terminal::ClearType::All,
            ClearType::UntilNewLine => crossterm::terminal::ClearType::UntilNewLine,
        },
    );
    let mut code = String::new();
    let _ = crossterm::Command::write_ansi(&clear, &mut code);
    code
}

/// Queues the sequence that clears what `kind` names.
pub fn queue_clear(w: &mut W, kind: ClearType)
    ensures
        final(w)@ == old(w)@ + clear_code(kind),
{
    let code = crossterm_clear(kind);
    w.append(code.as_str());
}

/// The terminal as the screens see it: its size in character cells, and the
/// background that the skin gives to what has no style of its own.
#[derive(Clone, Debug)]
pub struct Screen {
    pub width: u16,
    pub height: u16,
    /// The sequence that sets the default background of the skin; empty
    /// where the skin leaves the background to the terminal.
    pub default_bg: String,
}

impl Screen {
    /// A terminal of the given size, with a skin that sets no background.
    pub fn new(width: u16, height: u16) -> (screen: Screen)
        ensures
            screen.width == width,
            screen.height == height,
            screen.default_bg@ == Seq::<char>::empty(),
    {
        Screen { width, height, default_bg: String::new() }
    }

    /// Queues the clearing of the whole terminal.
    pub fn clear(&self, w: &mut W)
        ensures
            final(w)@ == old(w)@ + clear_code(ClearType::All),
    {
        queue_clear(w, ClearType::All);
    }
}

} // verus!
