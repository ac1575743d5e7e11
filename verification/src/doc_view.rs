//! A markdown document seen through a window that scrolls.
//!
//! Layout and rendering are termimad's. The view keeps the document, its
//! skin, the area it is drawn in and the number of lines hidden above the
//! area, and states how each operation moves the last two.

use vstd::prelude::*;
use crate::area::Area;
use crate::errors::ProgramError;
use crate::io::W;
use crate::layout::{check_lays_out, lays_out};
use crate::status::goto_code;

verus! {

#[verifier::external_type_specification]
#[verifier::external_body]
pub struct ExMadSkin(termimad::MadSkin);

/// The number of lines that `markdown` takes once termimad has laid it out
/// with `skin` for an area `width` columns wide.
pub uninterp spec fn laid_out_lines(skin: termimad::MadSkin, markdown: Seq<char>, width: int) -> nat;

/// The margins that `skin` gives to lines, left one and right one in turn:
/// those of a paragraph, of a block of code and of each level of header.
pub uninterp spec fn skin_margins(skin: termimad::MadSkin) -> Seq<usize>;

/// Whether the renderer can lay `markdown` out with `skin` for an area
/// `width` columns wide.
pub open spec fn can_lay_out(skin: termimad::MadSkin, markdown: Seq<char>, width: nat) -> bool {
    lays_out(vstd::utf8::encode_utf8(markdown), width, skin_margins(skin))
}

/// The largest scroll at which a page of `height` rows is still full.
pub open spec fn last_scroll(lines: int, height: int) -> int {
    if lines > height {
        lines - height
    } else {
        0
    }
}

/// `value`, brought into `low ..= high`.
pub open spec fn clamped(value: int, low: int, high: int) -> int {
    if value < low {
        low
    } else if value > high {
        high
    } else {
        value
    }
}

/// The scroll after an attempt to move by `dy` lines.
///
/// Upwards the scroll stops at the first line. Downwards it stops where the
/// last line reaches the bottom of the page, and a document that fits the
/// page is shown from its first line.
pub open spec fn scroll_step(scroll: int, dy: int, lines: int, height: int) -> int {
    if dy < 0 {
        if scroll + dy > 0 {
            scroll + dy
        } else {
            0
        }
    } else if scroll + dy < last_scroll(lines, height) {
        scroll + dy
    } else {
        last_scroll(lines, height)
    }
}

/// The scroll after the steps of `dys`, taken in order.
pub open spec fn scroll_run(scroll: int, dys: Seq<int>, lines: int, height: int) -> int
    decreases dys.len(),
{
    if dys.len() == 0 {
        scroll
    } else {
        scroll_step(scroll_run(scroll, dys.drop_last(), lines, height), dys.last(), lines, height)
    }
}

/// The scroll that a view keeps when it is given a new area: a change of
/// width lays the document out anew and shows it from the top.
pub open spec fn scroll_after_resize(scroll: int, old_area: Area, new_area: Area) -> int {
    if new_area.width != old_area.width {
        0
    } else {
        scroll
    }
}

/// Whether the renderer can draw this much of a document in `area`: its
/// row, column and line numbers are 16 bits wide, it counts columns from
/// one, and so are the rows of the scrollbar it may draw, which lies at
/// most one row more than twice the height below the top.
pub open spec fn drawable(area: Area, scroll: int, lines: int) -> bool {
    &&& area.width >= 1
    &&& area.left + 1 <= u16::MAX
    &&& area.top + 2 * area.height + 1 <= u16::MAX
    &&& lines <= u16::MAX
    &&& 0 <= scroll <= lines
}

/// Rows drawn in `area`, from its top one down: before each row the cursor
/// is moved to the first column of the area on that row of the terminal.
pub open spec fn drawing_of(area: Area, rows: Seq<Seq<char>>) -> Seq<char>
    decreases rows.len(),
{
    if rows.len() == 0 {
        Seq::<char>::empty()
    } else {
        drawing_of(area, rows.drop_last()) + goto_code(
            (area.left + 1) as nat,
            (area.top + rows.len()) as nat,
        ) + rows.last()
    }
}

/// What termimad writes on each row of an area, after the move of the
/// cursor, when it draws `markdown` with `skin` from the line `scroll` on:
/// the line of the document or the filling, then the scrollbar. `plain`
/// tells whether the colours are switched off in the process, as crossterm
/// reads it from the environment.
pub uninterp spec fn drawn_rows(
    skin: termimad::MadSkin,
    markdown: Seq<char>,
    left: int,
    top: int,
    width: int,
    height: int,
    scroll: int,
    plain: bool,
) -> Seq<Seq<char>>;

/// Whether `text` is what the renderer draws of `view`, with or without
/// colours: the rows of the view's area, each after its move of the cursor.
pub open spec fn is_drawing_of(view: DocModel, plain: bool, text: Seq<char>) -> bool {
    let rows = drawn_rows(
        view.skin,
        view.markdown,
        view.area.left as int,
        view.area.top as int,
        view.area.width as int,
        view.area.height as int,
        view.scroll,
        plain,
    );
    rows.len() == view.area.height && drawing_of(view.area, rows) == text
}

/// The margins of the line styles of a `termimad::MadSkin`: the fields
/// `left_margin` and `right_margin` of `paragraph`, of `code_block` and of
/// the eight `headers`.
#[verifier::external_body]
fn termimad_margins(skin: &termimad::MadSkin) -> (margins: Vec<usize>)
    ensures
        margins@ == skin_margins(*skin),
        margins@.len() == 20,
{
    let mut margins = vec![
        skin.paragraph.left_margin,
        skin.paragraph.right_margin,
        skin.code_block.left_margin,
        skin.code_block.right_margin,
    ];
    for header in &skin.headers {
        margins.push(header.left_margin);
        margins.push(header.right_margin);
    }
    margins
}

/// `termimad::MadSkin::area_text`, counted: the lines of the laid out
/// document. The width of the text is one less than the area's, which
/// termimad subtracts without a check; where it wraps a list item it
/// subtracts the item's indent from the width of the line or of the cell,
/// without a check either; and it adds the number of the items of a list to
/// the index of the first in 32 bits. It adds a line's margins to its
/// length where it looks whether the line fits, and multiplies widths of
/// columns where it fits a table.
#[verifier::external_body]
fn termimad_count_lines(skin: &termimad::MadSkin, markdown: &str, area: Area) -> (lines: usize)
    requires
        can_lay_out(*skin, markdown@, area.width as nat),
    ensures
        lines == laid_out_lines(*skin, markdown@, area.width as int),
{
    let a = termimad::Area::new(area.left, area.top, area.width, area.height);
    skin.area_text(markdown, &a).lines.len()
}

/// `termimad::MadView::try_scroll_lines` on a view of the given document,
/// area and scroll; the result is the view's scroll after the call.
///
/// Upwards the call subtracts, stopping at zero; it negates `dy` first, so
/// the least `i32` is left out. Downwards it adds, which must fit, and then
/// lowers the sum to the last scroll of the laid out document, or to zero
/// where the document fits the area. It lays the document out to count
/// its lines.
#[verifier::external_body]
fn termimad_try_scroll_lines(
    skin: &termimad::MadSkin,
    markdown: &str,
    area: Area,
    scroll: usize,
    dy: i32,
) -> (scrolled: usize)
    requires
        can_lay_out(*skin, markdown@, area.width as nat),
        dy > i32::MIN,
        scroll + dy <= usize::MAX,
    ensures
        scrolled == scroll_step(
            scroll as int,
            dy as int,
            laid_out_lines(*skin, markdown@, area.width as int) as int,
            area.height as int,
        ),
{
    let a = termimad::Area::new(area.left, area.top, area.width, area.height);
    let mut view = termimad::MadView::from(markdown.to_string(), a, skin.clone());
    view.scroll = scroll;
    view.try_scroll_lines(dy);
    view.scroll
}

/// `termimad::MadView::write_on` on a view of the given document, area and
/// scroll, into a buffer: what the view draws, as text.
///
/// The view draws the rows of its area from the top one down, and begins
/// each with a move of the cursor to the area's first column on that row,
/// which the terminal counts from one. What follows the move, the line or
/// its filling and the scrollbar, comes of the skin, the document, the area
/// and the scroll, and of one switch more: crossterm leaves the colours out
/// where the environment of the process asks for it, which it reads once,
/// so the text is one of two. The move is what crossterm writes for a
/// terminal that takes ANSI sequences, as every terminal does that this
/// library, with termion, can be built for.
#[verifier::external_body]
fn termimad_write_on(
    skin: &termimad::MadSkin,
    markdown: &str,
    area: Area,
    scroll: usize,
) -> (drawn: Result<String, termimad::Error>)
    requires
        can_lay_out(*skin, markdown@, area.width as nat),
        drawable(area, scroll as int, laid_out_lines(*skin, markdown@, area.width as int) as int),
    ensures
        drawn matches Ok(text) ==> exists|plain: bool|
            drawing_of(
                area,
                #[trigger] drawn_rows(
                    *skin,
                    markdown@,
                    area.left as int,
                    area.top as int,
                    area.width as int,
                    area.height as int,
                    scroll as int,
                    plain,
                ),
            ) == text@ && drawn_rows(
                *skin,
                markdown@,
                area.left as int,
                area.top as int,
                area.width as int,
                area.height as int,
                scroll as int,
                plain,
            ).len() == area.height,
{
    let a = termimad::Area::new(area.left, area.top, area.width, area.height);
    let mut view = termimad::MadView::from(markdown.to_string(), a, skin.clone());
    view.scroll = scroll;
    let mut buffer: Vec<u8> = Vec::new();
    match view.write_on(&mut buffer) {
        Ok(()) => Ok(String::from_utf8_lossy(&buffer).into_owned()),
        Err(e) => Err(e),
    }
}

/// What a view is: its document, the area it is drawn in and the number of
/// lines hidden above that area.
pub struct DocModel {
    pub markdown: Seq<char>,
    pub skin: termimad::MadSkin,
    pub area: Area,
    pub scroll: int,
}

impl DocModel {
    /// The lines of the document, laid out for the area's width.
    pub open spec fn lines(self) -> int {
        laid_out_lines(self.skin, self.markdown, self.area.width as int) as int
    }

    /// The scroll is a line of the document, or just past its last one.
    pub open spec fn wf(self) -> bool {
        0 <= self.scroll <= self.lines()
    }

    /// The view in a new area.
    pub open spec fn resized(self, area: Area) -> DocModel {
        DocModel { area, scroll: scroll_after_resize(self.scroll, self.area, area), ..self }
    }

    /// The view after an attempt to scroll by `dy` lines.
    pub open spec fn scrolled(self, dy: int) -> DocModel {
        DocModel {
            scroll: scroll_step(self.scroll, dy, self.lines(), self.area.height as int),
            ..self
        }
    }

    /// Whether the renderer can lay the document out for the area.
    pub open spec fn lays_out(self) -> bool {
        can_lay_out(self.skin, self.markdown, self.area.width as nat)
    }

    /// Whether the renderer can draw the view.
    pub open spec fn drawable(self) -> bool {
        self.lays_out() && drawable(self.area, self.scroll, self.lines())
    }
}

/// A markdown document, the area it is drawn in and its scroll.
pub struct DocView {
    markdown: String,
    area: Area,
    skin: termimad::MadSkin,
    scroll: usize,
}

impl DocView {
    #[verifier::type_invariant]
    spec fn scroll_in_document(self) -> bool {
        self.scroll <= laid_out_lines(self.skin, self.markdown@, self.area.width as int)
    }
}

impl View for DocView {
    type V = DocModel;

    closed spec fn view(&self) -> DocModel {
        DocModel {
            markdown: self.markdown@,
            skin: self.skin,
            area: self.area,
            scroll: self.scroll as int,
        }
    }
}

/// Appends what the renderer drew to the sink, or hands its failure on.
pub fn queue_drawn(w: &mut W, drawn: Result<String, termimad::Error>) -> (done: Result<
    (),
    ProgramError,
>)
    ensures
        match drawn {
            Ok(text) => done == Ok::<(), ProgramError>(()) && final(w)@ == old(w)@ + text@,
            Err(e) => done == Err::<(), ProgramError>(ProgramError::Termimad(e)) && final(w)@
                == old(w)@,
        },
{
    match drawn {
        Ok(text) => {
            w.append(text.as_str());
            Ok(())
        },
        Err(e) => Err(ProgramError::Termimad(e)),
    }
}

impl DocView {
    /// A view of `markdown` in `area`, shown from its first line.
    pub fn from(markdown: String, area: Area, skin: termimad::MadSkin) -> (view: DocView)
        ensures
            view@ == (DocModel { markdown: markdown@, skin, area, scroll: 0 }),
            view@.wf(),
    {
        DocView { markdown, area, skin, scroll: 0 }
    }

    /// The area that the view is drawn in.
    pub fn area(&self) -> (area: Area)
        ensures
            area == self@.area,
    {
        self.area
    }

    /// The number of lines hidden above the area: never more than the
    /// document has.
    pub fn scroll(&self) -> (scroll: usize)
        ensures
            scroll == self@.scroll,
            self@.wf(),
    {
        proof {
            use_type_invariant(self);
        }
        self.scroll
    }

    /// Whether the renderer can lay the document out once the view is
    /// given `area`.
    pub fn lays_out_in(&self, area: &Area) -> (can: bool)
        ensures
            can == self@.resized(*area).lays_out(),
    {
        let margins = termimad_margins(&self.skin);
        check_lays_out(self.markdown.as_str(), area.width, &margins)
    }

    /// The number of lines of the document, laid out for the area's width.
    pub fn content_height(&self) -> (lines: usize)
        requires
            self@.lays_out(),
        ensures
            lines == self@.lines(),
    {
        termimad_count_lines(&self.skin, self.markdown.as_str(), self.area)
    }

    /// The number of lines of the document, where the renderer can lay it
    /// out for the area's width.
    pub fn try_content_height(&self) -> (lines: Option<usize>)
        ensures
            lines is Some == self@.lays_out(),
            lines matches Some(count) ==> count == self@.lines(),
    {
        if self.lays_out_in(&self.area) {
            Some(self.content_height())
        } else {
            None
        }
    }

    /// Whether the renderer can draw the view once it is given `area`.
    pub fn drawable_in(&self, area: &Area) -> (can: bool)
        ensures
            can == self@.resized(*area).drawable(),
    {
        if area.left == u16::MAX || area.top as u32 + 2 * (area.height as u32) + 1
            > u16::MAX as u32 || !self.lays_out_in(area) {
            return false;
        }
        let lines: usize = termimad_count_lines(&self.skin, self.markdown.as_str(), *area);
        let scroll: usize = if area.width != self.area.width {
            0
        } else {
            self.scroll
        };
        lines <= u16::MAX as usize && scroll <= lines
    }

    /// Gives the view a new area. The same area changes nothing; another
    /// width shows the document from its first line.
    pub fn resize(&mut self, area: &Area)
        ensures
            final(self)@ == old(self)@.resized(*area),
            final(self)@.wf(),
    {
        proof {
            use_type_invariant(&*self);
        }
        if area.width != self.area.width {
            self.scroll = 0;
        }
        self.area = *area;
    }

    /// Scrolls by `dy` lines, as far as the document allows.
    pub fn try_scroll_lines(&mut self, dy: i32)
        requires
            old(self)@.lays_out(),
        ensures
            final(self)@ == old(self)@.scrolled(dy as int),
            final(self)@.wf(),
    {
        proof {
            use_type_invariant(&*self);
        }
        let skin = &self.skin;
        let markdown = self.markdown.as_str();
        if dy == i32::MIN {
            let part: usize = termimad_try_scroll_lines(skin, markdown, self.area, self.scroll, dy + 1);
            self.scroll = termimad_try_scroll_lines(skin, markdown, self.area, part, -1);
        } else if dy > 0 && self.scroll > usize::MAX - (dy as usize) {
            // The sum is beyond every line count: the step ends at the last scroll.
            let lines: usize = termimad_count_lines(skin, markdown, self.area);
            let height: usize = self.area.height as usize;
            self.scroll = if lines > height {
                lines - height
            } else {
                0
            };
        } else {
            self.scroll = termimad_try_scroll_lines(skin, markdown, self.area, self.scroll, dy);
        }
    }

    /// Draws the visible lines of the document on the sink.
    ///
    /// What the sink gains is what the renderer draws of the view, with
    /// colours or without: the rows of the area, each from the area's first
    /// column, with the lines of the document from the scroll on. A failure
    /// of the renderer leaves the sink as it was.
    pub fn write_on(&self, w: &mut W) -> (done: Result<(), ProgramError>)
        requires
            self@.drawable(),
        ensures
            done is Ok ==> old(w)@.is_prefix_of(final(w)@) && exists|plain: bool| #[trigger]
                is_drawing_of(self@, plain, final(w)@.skip(old(w)@.len() as int)),
            done is Err ==> final(w)@ == old(w)@,
    {
        let drawn = termimad_write_on(&self.skin, self.markdown.as_str(), self.area, self.scroll);
        proof {
            if drawn is Ok {
                let text = drawn->Ok_0@;
                let plain = choose|plain: bool|
                    drawing_of(
                        self.area,
                        #[trigger] drawn_rows(
                            self.skin,
                            self.markdown@,
                            self.area.left as int,
                            self.area.top as int,
                            self.area.width as int,
                            self.area.height as int,
                            self.scroll as int,
                            plain,
                        ),
                    ) == text && drawn_rows(
                        self.skin,
                        self.markdown@,
                        self.area.left as int,
                        self.area.top as int,
                        self.area.width as int,
                        self.area.height as int,
                        self.scroll as int,
                        plain,
                    ).len() == self.area.height;
                assert((w@ + text).skip(w@.len() as int) =~= text);
                assert(is_drawing_of(self@, plain, text));
            }
        }
        queue_drawn(w, drawn)
    }
}

/// A step from a scroll that shows a full page, or the whole of a document
/// that fits the page, moves it by `dy` and then brings it back between the
/// first line and the last scroll.
pub proof fn lemma_scroll_step_clamps(scroll: int, dy: int, lines: int, height: int)
    requires
        0 <= scroll <= last_scroll(lines, height),
    ensures
        scroll_step(scroll, dy, lines, height) == clamped(
            scroll + dy,
            0,
            last_scroll(lines, height),
        ),
        0 <= scroll_step(scroll, dy, lines, height) <= last_scroll(lines, height),
{
}

/// Whatever the steps, a scroll that began between the first line and the
/// last scroll stays there, and each step moves it by its `dy`, clamped.
pub proof fn lemma_scroll_run_clamps(scroll: int, dys: Seq<int>, dy: int, lines: int, height: int)
    requires
        0 <= scroll <= last_scroll(lines, height),
    ensures
        0 <= scroll_run(scroll, dys, lines, height) <= last_scroll(lines, height),
        scroll_run(scroll, dys.push(dy), lines, height) == clamped(
            scroll_run(scroll, dys, lines, height) + dy,
            0,
            last_scroll(lines, height),
        ),
    decreases dys.len(),
{
    if dys.len() > 0 {
        lemma_scroll_run_clamps(scroll, dys.drop_last(), dys.last(), lines, height);
        assert(dys.drop_last().push(dys.last()) =~= dys);
    }
    assert(dys.push(dy).drop_last() =~= dys);
    assert(dys.push(dy).last() == dy);
    lemma_scroll_step_clamps(scroll_run(scroll, dys, lines, height), dy, lines, height);
}

/// A scroll never leaves the document: a step from a line of the document
/// ends on one, or just past the last.
pub proof fn lemma_scrolled_stays_in_document(view: DocModel, dy: int)
    requires
        view.wf(),
    ensures
        view.scrolled(dy).wf(),
        view.scrolled(dy).lines() == view.lines(),
{
}

/// To give a view the area that it has changes nothing, and to give it an
/// area twice is to give it once.
pub proof fn lemma_resized_idempotent(view: DocModel, area: Area)
    ensures
        view.resized(view.area) == view,
        view.resized(area).resized(area) == view.resized(area),
        view.wf() ==> view.resized(area).wf(),
{
}

} // verus!
