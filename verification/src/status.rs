//! The status line: one row of text near the bottom of the terminal, on a
//! grey band, in the default colour or in red.

use vstd::prelude::*;
use crate::io::W;
use crate::screens::{csi, Screen};

verus! {

/// The character of a decimal digit.
pub open spec fn digit(d: int) -> char {
    if d == 0 {
        '0'
    } else if d == 1 {
        '1'
    } else if d == 2 {
        '2'
    } else if d == 3 {
        '3'
    } else if d == 4 {
        '4'
    } else if d == 5 {
        '5'
    } else if d == 6 {
        '6'
    } else if d == 7 {
        '7'
    } else if d == 8 {
        '8'
    } else {
        '9'
    }
}

/// A number in decimal, without sign or padding.
pub open spec fn decimal(n: nat) -> Seq<char>
    decreases n,
{
    if n < 10 {
        seq![digit(n as int)]
    } else {
        decimal(n / 10) + seq![digit((n % 10) as int)]
    }
}

/// The sequence that moves the cursor to column `x` of row `y`, both
/// counted from one.
pub open spec fn goto_code(x: nat, y: nat) -> Seq<char> {
    csi() + decimal(y) + seq![';'] + decimal(x) + seq!['H']
}

/// The sequence that clears the cursor's row.
pub open spec fn clear_line_code() -> Seq<char> {
    csi() + seq!['2', 'K']
}

/// The sequence that sets the background to a shade of grey, 0 for the
/// darkest of 24.
pub open spec fn grayscale_bg_code(shade: nat) -> Seq<char> {
    csi() + seq!['4', '8', ';', '5', ';'] + decimal(232 + shade) + seq!['m']
}

/// The sequence that sets the foreground to red.
pub open spec fn red_fg_code() -> Seq<char> {
    csi() + seq!['3', '8', ';', '5', ';', '1', 'm']
}

/// The sequence that sets the background to the terminal's default.
pub open spec fn reset_bg_code() -> Seq<char> {
    csi() + seq!['4', '9', 'm']
}

/// The sequence that sets the foreground to the terminal's default.
pub open spec fn reset_fg_code() -> Seq<char> {
    csi() + seq!['3', '9', 'm']
}

/// The shade of the status band.
pub const STATUS_SHADE: u8 = 2;

/// A status in the default colour: the cursor goes to the first column of
/// `row`, the band `bg` is set, the row is cleared, `text` follows and the
/// background is reset.
pub open spec fn status_text_seq(row: nat, bg: Seq<char>, text: Seq<char>) -> Seq<char> {
    goto_code(1, row) + bg + clear_line_code() + text + reset_bg_code()
}

/// A status in an alert colour: as in the default colour, with the
/// foreground `fg` set after the band, and reset after the background.
pub open spec fn status_err_seq(row: nat, bg: Seq<char>, fg: Seq<char>, text: Seq<char>) -> Seq<
    char,
> {
    goto_code(1, row) + bg + fg + clear_line_code() + text + reset_bg_code() + reset_fg_code()
}

/// Whether `code` is what a colour may be written as: its sequence, or
/// nothing in a process whose environment switches colours off.
pub open spec fn colour_or_none(code: Seq<char>, colour: Seq<char>) -> bool {
    code == colour || code == Seq::<char>::empty()
}

/// Whether `after` is `before` and a status of `text` in the default colour
/// on `row`.
pub open spec fn status_text_written(
    before: Seq<char>,
    after: Seq<char>,
    row: nat,
    text: Seq<char>,
) -> bool {
    exists|bg: Seq<char>|
        colour_or_none(bg, grayscale_bg_code(STATUS_SHADE as nat)) && #[trigger] (before
            + status_text_seq(row, bg, text)) == after
}

/// Whether `after` is `before` and a status of `text` in red on `row`.
pub open spec fn status_err_written(
    before: Seq<char>,
    after: Seq<char>,
    row: nat,
    text: Seq<char>,
) -> bool {
    exists|bg: Seq<char>, fg: Seq<char>|
        colour_or_none(bg, grayscale_bg_code(STATUS_SHADE as nat)) && colour_or_none(
            fg,
            red_fg_code(),
        ) && #[trigger] (before + status_err_seq(row, bg, fg, text)) == after
}

/// `termion::cursor::Goto`, displayed: the introducer, the row, a
/// semicolon, the column and `H`. Both numbers count from one, and termion
/// refuses the pair of two zeros.
#[verifier::external_body]
fn termion_goto(x: u16, y: u16) -> (code: String)
    requires
        x != 0 || y != 0,
    ensures
        code@ == goto_code(x as nat, y as nat),
{
    format!("{}", termion::cursor::Goto(x, y))
}

/// `termion::clear::CurrentLine`, displayed: the introducer and `2K`.
#[verifier::external_body]
fn termion_clear_current_line() -> (code: String)
    ensures
        code@ == clear_line_code(),
{
    format!("{}", termion::clear::CurrentLine)
}

/// `termion::color::Bg` of `termion::color::AnsiValue::grayscale`,
/// displayed: the introducer, `48;5;`, the colour's number, which is 232
/// more than the shade, and `m`. Where the environment of the process
/// switches colours off, termion writes nothing. There are 24 shades.
#[verifier::external_body]
fn termion_bg_grayscale(shade: u8) -> (code: String)
    requires
        shade < 24,
    ensures
        colour_or_none(code@, grayscale_bg_code(shade as nat)),
{
    format!("{}", termion::color::Bg(termion::color::AnsiValue::grayscale(shade)))
}

/// `termion::color::Fg` of `termion::color::Red`, displayed: the
/// introducer and `38;5;1m`, or nothing where the environment of the
/// process switches colours off.
#[verifier::external_body]
fn termion_fg_red() -> (code: String)
    ensures
        colour_or_none(code@, red_fg_code()),
{
    format!("{}", termion::color::Fg(termion::color::Red))
}

/// `termion::color::Bg` of `termion::color::Reset`, displayed: the
/// introducer and `49m`, whatever the environment.
#[verifier::external_body]
fn termion_bg_reset() -> (code: String)
    ensures
        code@ == reset_bg_code(),
{
    format!("{}", termion::color::Bg(termion::color::Reset))
}

/// `termion::color::Fg` of `termion::color::Reset`, displayed: the
/// introducer and `39m`, whatever the environment.
#[verifier::external_body]
fn termion_fg_reset() -> (code: String)
    ensures
        code@ == reset_fg_code(),
{
    format!("{}", termion::color::Fg(termion::color::Reset))
}

/// The text of a status in the default colour on `row`, with `bg` for the
/// band.
pub fn status_text_line(row: u16, bg: &str, text: &str) -> (line: String)
    ensures
        line@ == status_text_seq(row as nat, bg@, text@),
{
    let mut line = termion_goto(1, row);
    line.append(bg);
    line.append(termion_clear_current_line().as_str());
    line.append(text);
    line.append(termion_bg_reset().as_str());
    line
}

/// The text of a status in an alert colour on `row`, with `bg` for the band
/// and `fg` for the colour.
pub fn status_err_line(row: u16, bg: &str, fg: &str, text: &str) -> (line: String)
    ensures
        line@ == status_err_seq(row as nat, bg@, fg@, text@),
{
    let mut line = termion_goto(1, row);
    line.append(bg);
    line.append(fg);
    line.append(termion_clear_current_line().as_str());
    line.append(text);
    line.append(termion_bg_reset().as_str());
    line.append(termion_fg_reset().as_str());
    line
}

/// What can show a status line.
pub trait Status {
    /// The number of rows of the terminal.
    spec fn rows(&self) -> nat;

    /// Queues `text` as the status, in the default colour, on the row
    /// before the last.
    fn write_status_text(&self, w: &mut W, text: &str)
        requires
            1 <= self.rows() <= u16::MAX,
        ensures
            status_text_written(old(w)@, final(w)@, (self.rows() - 1) as nat, text@),
    ;

    /// Queues `text` as the status, in red, on the row before the last.
    fn write_status_err(&self, w: &mut W, text: &str)
        requires
            1 <= self.rows() <= u16::MAX,
        ensures
            status_err_written(old(w)@, final(w)@, (self.rows() - 1) as nat, text@),
    ;
}

impl Status for Screen {
    open spec fn rows(&self) -> nat {
        self.height as nat
    }

    fn write_status_err(&self, w: &mut W, text: &str) {
        let y: u16 = self.height - 1;
        let bg = termion_bg_grayscale(STATUS_SHADE);
        let fg = termion_fg_red();
        let line = status_err_line(y, bg.as_str(), fg.as_str(), text);
        w.append(line.as_str());
    }

    fn write_status_text(&self, w: &mut W, text: &str) {
        let y: u16 = self.height - 1;
        let bg = termion_bg_grayscale(STATUS_SHADE);
        let line = status_text_line(y, bg.as_str(), text);
        w.append(line.as_str());
    }
}

/// A status in red ends with its text and the two resets, the background's
/// first: what is written after it has the terminal's own colours. The text
/// stands in it as given, right after the clearing of the row.
pub proof fn lemma_status_err_ends_reset(
    before: Seq<char>,
    after: Seq<char>,
    row: nat,
    text: Seq<char>,
)
    requires
        status_err_written(before, after, row, text),
    ensures
        (clear_line_code() + text + reset_bg_code() + reset_fg_code()).is_suffix_of(after),
        before.is_prefix_of(after),
{
    let (bg, fg) = choose|bg: Seq<char>, fg: Seq<char>|
        colour_or_none(bg, grayscale_bg_code(STATUS_SHADE as nat)) && colour_or_none(
            fg,
            red_fg_code(),
        ) && #[trigger] (before + status_err_seq(row, bg, fg, text)) == after;
    let tail = clear_line_code() + text + reset_bg_code() + reset_fg_code();
    let head = before + goto_code(1, row) + bg + fg;
    assert(after =~= head + tail);
    assert(after.skip(after.len() - tail.len()) =~= tail);
    assert(after.take(before.len() as int) =~= before);
}

/// A status in the default colour ends with its text and the reset of the
/// background, sets no colour of its own, and has its text as given, right
/// after the clearing of the row.
pub proof fn lemma_status_text_ends_reset(
    before: Seq<char>,
    after: Seq<char>,
    row: nat,
    text: Seq<char>,
)
    requires
        status_text_written(before, after, row, text),
    ensures
        (clear_line_code() + text + reset_bg_code()).is_suffix_of(after),
        before.is_prefix_of(after),
{
    let bg = choose|bg: Seq<char>|
        colour_or_none(bg, grayscale_bg_code(STATUS_SHADE as nat)) && #[trigger] (before
            + status_text_seq(row, bg, text)) == after;
    let tail = clear_line_code() + text + reset_bg_code();
    let head = before + goto_code(1, row) + bg;
    assert(after =~= head + tail);
    assert(after.skip(after.len() - tail.len()) =~= tail);
    assert(after.take(before.len() as int) =~= before);
}

} // verus!
