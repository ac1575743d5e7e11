//! Which documents the renderer can lay out in which widths.
//!
//! termimad wraps a line that is too long for the text's width, and a table
//! cell that is too long for its column. Where the line or the cell is a
//! list item, it takes the columns of the item's indent off the width
//! first, and does not look whether there are as many. And it numbers the
//! items of a list anew from the index of the first, in 32 bits, without
//! looking whether the numbers fit. Here is the test that tells, from the
//! bytes of a document, whether either can go wrong. It reads lines, fences
//! of code and list items as the renderer's parser does. Of cells it knows
//! less than the parser: it takes every bar of a table's line for the
//! beginning of a cell, also one that the parser reads as code.

use vstd::prelude::*;

verus! {

/// The least width that termimad wraps to: a line is wrapped to no less,
/// whatever the margins, and no column of a table is narrower.
pub const MIN_WRAP_WIDTH: usize = 3;

/// The largest margin that a skin may give a line.
pub const MAX_MARGIN: usize = 65535;

/// The largest index that a numbered item of a list may be given in the
/// document: from there, one more for each item of the longest document
/// stays within 32 bits.
pub const MAX_FIRST_INDEX: u64 = 999_999_999;

/// The columns that the index of a numbered item may take once the list is
/// numbered anew, with the dot and the space after it: ten digits and two.
pub const NUMBERED_INDENT: usize = 12;

/// The most bytes that a document may have: termimad multiplies widths of
/// columns, which are lengths of parts of the document, in a `usize`, so
/// the square of the length must fit one; and the items of a list are
/// counted in 32 bits.
pub open spec fn max_length() -> nat {
    if usize::MAX > 4294967295 {
        4294967295
    } else {
        65535
    }
}

/// The most bytes that a document may have.
fn length_limit() -> (limit: usize)
    ensures
        limit == max_length(),
{
    if usize::MAX > 4294967295 {
        4294967295
    } else {
        65535
    }
}

/// A space.
pub open spec fn is_space(byte: u8) -> bool {
    byte == 32
}

/// A decimal digit.
pub open spec fn is_digit(byte: u8) -> bool {
    48 <= byte <= 57
}

/// One of the marks of a list item: a star, a plus or a minus.
pub open spec fn is_bullet(byte: u8) -> bool {
    byte == 42 || byte == 43 || byte == 45
}

/// What ends the index of a numbered item: a dot or a closing bracket.
pub open spec fn is_index_end(byte: u8) -> bool {
    byte == 46 || byte == 41
}

/// The line feed, which ends a line.
pub open spec fn is_line_feed(byte: u8) -> bool {
    byte == 10
}

/// The bar that begins a table cell.
pub open spec fn is_bar(byte: u8) -> bool {
    byte == 124
}

/// Whether a line begins at `at`.
pub open spec fn is_line_start(text: Seq<u8>, at: int) -> bool {
    at == 0 || (0 < at <= text.len() && is_line_feed(text[at - 1]))
}

/// Where the line begins that `at` lies in.
pub open spec fn line_start_of(text: Seq<u8>, at: int) -> int
    decreases at,
{
    if at <= 0 || at > text.len() || is_line_feed(text[at - 1]) {
        at
    } else {
        line_start_of(text, at - 1)
    }
}

/// Whether the line's content ends at `at`: with the text, at a line feed,
/// or at a carriage return before one.
pub open spec fn is_line_end(text: Seq<u8>, at: int) -> bool {
    at >= text.len() || is_line_feed(text[at]) || (text[at] == 13 && at + 1 < text.len()
        && is_line_feed(text[at + 1]))
}

/// Whether three backticks stand at `at`: a line that begins with them
/// opens a fence of code, or closes the open one.
pub open spec fn begins_fence(text: Seq<u8>, at: int) -> bool {
    0 <= at && at + 2 < text.len() && text[at] == 96 && text[at + 1] == 96 && text[at + 2] == 96
}

/// The number of lines that begin before `at` and open or close a fence.
pub open spec fn fences_before(text: Seq<u8>, at: int) -> nat
    decreases at,
{
    if at <= 0 {
        0
    } else if is_line_start(text, at - 1) && begins_fence(text, at - 1) {
        fences_before(text, at - 1) + 1
    } else {
        fences_before(text, at - 1)
    }
}

/// Whether `at` lies in a line between the fences of a block of code,
/// where nothing is read as an item.
pub open spec fn in_code_fence(text: Seq<u8>, at: int) -> bool {
    fences_before(text, line_start_of(text, at)) % 2 == 1
}

/// Whether the renderer looks for an item at `at`: outside of fences, at
/// the beginning of a line that is not a table's, and behind each bar of a
/// line that is: a table's line begins with a bar.
pub open spec fn looks_for_item(text: Seq<u8>, at: int) -> bool {
    &&& 0 <= at < text.len()
    &&& !in_code_fence(text, at)
    &&& if is_line_start(text, at) {
        !is_bar(text[at])
    } else {
        is_bar(text[at - 1]) && is_bar(text[line_start_of(text, at)])
    }
}

/// The number of spaces in `text` from `at` on.
pub open spec fn spaces_at(text: Seq<u8>, at: int) -> nat
    decreases text.len() - at,
{
    if 0 <= at < text.len() && is_space(text[at]) {
        1 + spaces_at(text, at + 1)
    } else {
        0
    }
}

/// The number of digits in `text` from `at` on.
pub open spec fn digits_at(text: Seq<u8>, at: int) -> nat
    decreases text.len() - at,
{
    if 0 <= at < text.len() && is_digit(text[at]) {
        1 + digits_at(text, at + 1)
    } else {
        0
    }
}

/// Whether a marked item begins at `at`: fewer than four spaces, a mark and
/// a space.
pub open spec fn is_marked_item(text: Seq<u8>, at: int) -> bool {
    let mark = at + spaces_at(text, at);
    spaces_at(text, at) < 4 && mark + 1 < text.len() && is_bullet(text[mark]) && is_space(
        text[mark + 1],
    )
}

/// Whether a numbered item begins at `at`: fewer than four spaces, digits,
/// a dot or a closing bracket, and then a space or the end of the line.
pub open spec fn is_numbered_item(text: Seq<u8>, at: int) -> bool {
    let mark = at + spaces_at(text, at);
    let end = mark + digits_at(text, mark);
    spaces_at(text, at) < 4 && digits_at(text, mark) > 0 && end < text.len() && is_index_end(
        text[end],
    ) && (is_line_end(text, end + 1) || is_space(text[end + 1]))
}

/// The number that the `digits` digits from `from` on are in decimal.
pub open spec fn decimal_value(text: Seq<u8>, from: int, digits: nat) -> nat
    decreases digits,
{
    if digits == 0 {
        0
    } else {
        (decimal_value(text, from, (digits - 1) as nat) * 10 + (text[from + digits - 1] - 48)) as nat
    }
}

/// The index that the renderer reads of a numbered item at `at`: the
/// number that its digits are, or 1 where that is beyond 32 bits.
pub open spec fn item_index(text: Seq<u8>, at: int) -> nat {
    let mark = at + spaces_at(text, at);
    let value = decimal_value(text, mark, digits_at(text, mark));
    if value <= u32::MAX {
        value
    } else {
        1
    }
}

/// The number of digits of `index` in decimal.
pub open spec fn index_width(index: nat) -> nat
    decreases index,
{
    if index < 10 {
        1
    } else {
        1 + index_width(index / 10)
    }
}

/// The columns that the item at `at` takes before its text, and 0 where no
/// item is.
///
/// An item takes a column for each space before it. A marked one takes two
/// more, for the mark and a space. A numbered one takes two more and its
/// index, for which a line has ten columns at hand, since a list is
/// numbered anew, and a cell as many as the index read has digits.
pub open spec fn item_indent(text: Seq<u8>, at: int) -> nat {
    if is_marked_item(text, at) {
        2 + spaces_at(text, at)
    } else if is_numbered_item(text, at) {
        if is_line_start(text, at) {
            NUMBERED_INDENT as nat + spaces_at(text, at)
        } else {
            index_width(item_index(text, at)) + 2 + spaces_at(text, at)
        }
    } else {
        0
    }
}

/// The width that what begins at `at` is wrapped to at least: a line to
/// the width that lines have, a cell to the least column.
pub open spec fn room_at(text: Seq<u8>, at: int, line_width: nat) -> nat {
    if is_line_start(text, at) {
        line_width
    } else {
        MIN_WRAP_WIDTH as nat
    }
}

/// Whether every item of `text` has room for its indent where lines are
/// wrapped to `line_width` columns.
pub open spec fn items_fit(text: Seq<u8>, line_width: nat) -> bool {
    forall|at: int| #[trigger]
        looks_for_item(text, at) ==> item_indent(text, at) <= room_at(text, at, line_width)
}

/// Whether the index of every numbered line of `text` is small enough to
/// be counted on from.
pub open spec fn indices_fit(text: Seq<u8>) -> bool {
    forall|at: int| #[trigger]
        looks_for_item(text, at) && is_line_start(text, at) && is_numbered_item(text, at)
            ==> item_index(text, at) <= MAX_FIRST_INDEX
}

/// The width that a line is wrapped to, in a text `width` columns wide,
/// with these margins: margins that leave less than the least width are not
/// taken off.
pub open spec fn wrap_width(width: nat, left: nat, right: nat) -> nat {
    if width < left + right + MIN_WRAP_WIDTH {
        width
    } else {
        (width - left - right) as nat
    }
}

/// Whether the renderer can lay `text` out for an area `area_width` columns
/// wide, with a skin of these margins, the paragraph's left and right one
/// first.
///
/// The text is a column narrower than the area. Below the least width
/// nothing is wrapped. From there on every item must have room.
pub open spec fn lays_out(text: Seq<u8>, area_width: nat, margins: Seq<usize>) -> bool {
    &&& area_width >= 1
    &&& margins.len() >= 2
    &&& forall|k: int| 0 <= k < margins.len() ==> #[trigger] margins[k] <= MAX_MARGIN
    &&& text.len() <= max_length()
    &&& indices_fit(text)
    &&& area_width - 1 >= MIN_WRAP_WIDTH ==> items_fit(
        text,
        wrap_width((area_width - 1) as nat, margins[0] as nat, margins[1] as nat),
    )
}

/// Counts the spaces from `at` on.
fn count_spaces(text: &[u8], at: usize) -> (spaces: usize)
    requires
        at <= text@.len(),
    ensures
        spaces == spaces_at(text@, at as int),
        at + spaces <= text@.len(),
{
    let mut end: usize = at;
    while end < text.len() && text[end] == 32
        invariant
            at <= end <= text@.len(),
            spaces_at(text@, at as int) == (end - at) + spaces_at(text@, end as int),
        decreases text@.len() - end,
    {
        end += 1;
    }
    end - at
}

/// Counts the digits from `at` on.
fn count_digits(text: &[u8], at: usize) -> (digits: usize)
    requires
        at <= text@.len(),
    ensures
        digits == digits_at(text@, at as int),
        at + digits <= text@.len(),
{
    let mut end: usize = at;
    while end < text.len() && 48 <= text[end] && text[end] <= 57
        invariant
            at <= end <= text@.len(),
            digits_at(text@, at as int) == (end - at) + digits_at(text@, end as int),
        decreases text@.len() - end,
    {
        end += 1;
    }
    end - at
}

/// Reads the digits as the renderer does: their number, or 1 where that is
/// beyond 32 bits.
fn read_index(text: &[u8], from: usize, digits: usize) -> (index: u64)
    requires
        from + digits <= text@.len(),
        forall|k: int| from <= k < from + digits ==> is_digit(#[trigger] text@[k]),
    ensures
        index == if decimal_value(text@, from as int, digits as nat) <= u32::MAX {
            decimal_value(text@, from as int, digits as nat)
        } else {
            1
        },
{
    let len: usize = text.len();
    let mut value: u64 = 0;
    let mut beyond: bool = false;
    let mut read: usize = 0;
    while read < digits
        invariant
            len == text@.len(),
            read <= digits,
            from + digits <= text@.len(),
            forall|k: int| from <= k < from + digits ==> is_digit(#[trigger] text@[k]),
            beyond ==> decimal_value(text@, from as int, read as nat) > u32::MAX,
            !beyond ==> value == decimal_value(text@, from as int, read as nat) && value
                <= u32::MAX,
        decreases digits - read,
    {
        let byte: u8 = text[from + read];
        assert(is_digit(text@[from + read]));
        if !beyond {
            let digit: u64 = (byte - 48) as u64;
            value = value * 10 + digit;
            if value > 4294967295 {
                beyond = true;
            }
        }
        read += 1;
    }
    if beyond {
        1
    } else {
        value
    }
}

/// An item as the renderer reads it.
struct Item {
    marked: bool,
    numbered: bool,
    spaces: usize,
    index: u64,
}

/// Reads what begins at `at` as an item.
fn read_item(text: &[u8], at: usize) -> (item: Item)
    requires
        at <= text@.len(),
    ensures
        item.marked == is_marked_item(text@, at as int),
        item.numbered == is_numbered_item(text@, at as int),
        item.spaces == spaces_at(text@, at as int),
        item.numbered ==> item.index == item_index(text@, at as int),
        item.marked || item.numbered ==> item.spaces < 4,
{
    let len: usize = text.len();
    let spaces: usize = count_spaces(text, at);
    let mark: usize = at + spaces;
    let mut item = Item { marked: false, numbered: false, spaces, index: 0 };
    if spaces >= 4 {
        return item;
    }
    if mark < len && mark + 1 < len && (text[mark] == 42 || text[mark] == 43 || text[mark] == 45)
        && text[mark + 1] == 32 {
        item.marked = true;
        return item;
    }
    let digits: usize = count_digits(text, mark);
    let end: usize = mark + digits;
    if digits > 0 && end < len && (text[end] == 46 || text[end] == 41) {
        let ends: bool = end + 1 >= len || text[end + 1] == 10 || (text[end + 1] == 13 && end + 2
            < len && text[end + 2] == 10);
        if ends || text[end + 1] == 32 {
            proof {
                lemma_digits_are_digits(text@, mark as int);
            }
            item.numbered = true;
            item.index = read_index(text, mark, digits);
        }
    }
    item
}

/// The bytes that `digits_at` counts are digits.
proof fn lemma_digits_are_digits(text: Seq<u8>, at: int)
    requires
        0 <= at,
    ensures
        forall|k: int| at <= k < at + digits_at(text, at) ==> is_digit(#[trigger] text[k]),
        at + digits_at(text, at) <= text.len() || digits_at(text, at) == 0,
    decreases text.len() - at,
{
    if at < text.len() && is_digit(text[at]) {
        lemma_digits_are_digits(text, at + 1);
    }
}

/// An index of one digit is less than ten, and no other is.
proof fn lemma_index_width_one(index: nat)
    ensures
        index_width(index) == 1 <==> index < 10,
        index_width(index) >= 1,
    decreases index,
{
    if index >= 10 {
        lemma_index_width_one(index / 10);
    }
}

/// What a walk through the lines looks for.
enum Looking {
    Rooms(usize),
    Indices,
}

/// Walks through `text` and tells whether what is looked for holds of every
/// item.
fn walk(text: &[u8], looking: Looking) -> (fit: bool)
    ensures
        fit == match looking {
            Looking::Rooms(line_width) => items_fit(text@, line_width as nat),
            Looking::Indices => indices_fit(text@),
        },
{
    let len: usize = text.len();
    let mut at: usize = 0;
    let mut start: usize = 0;
    let mut line_fenced: bool = false;
    let mut table: bool = false;
    let mut fenced_here: bool = false;
    while at < len
        invariant
            len == text@.len(),
            at <= len,
            fenced_here == (fences_before(text@, at as int) % 2 == 1),
            at > 0 ==> start == line_start_of(text@, at - 1) && start < at && line_fenced == (
            fences_before(text@, start as int) % 2 == 1) && table == is_bar(text@[start as int]),
            forall|before: int|
                0 <= before < at && #[trigger] looks_for_item(text@, before) ==> match looking {
                    Looking::Rooms(line_width) => item_indent(text@, before) <= room_at(
                        text@,
                        before,
                        line_width as nat,
                    ),
                    Looking::Indices => is_line_start(text@, before) && is_numbered_item(
                        text@,
                        before,
                    ) ==> item_index(text@, before) <= MAX_FIRST_INDEX,
                },
        decreases len - at,
    {
        let first: bool = at == 0 || text[at - 1] == 10;
        if first {
            start = at;
            line_fenced = fenced_here;
            table = text[at] == 124;
        }
        assert(start == line_start_of(text@, at as int));
        assert(first == is_line_start(text@, at as int));
        let looks: bool = !line_fenced && if first {
            !table
        } else {
            text[at - 1] == 124 && table
        };
        assert(looks == looks_for_item(text@, at as int));
        if looks {
            let item = read_item(text, at);
            match looking {
                Looking::Rooms(line_width) => {
                    let fits: bool = if item.marked {
                        2 + item.spaces <= if first {
                            line_width
                        } else {
                            MIN_WRAP_WIDTH
                        }
                    } else if item.numbered {
                        if first {
                            NUMBERED_INDENT + item.spaces <= line_width
                        } else {
                            item.index < 10 && item.spaces == 0
                        }
                    } else {
                        true
                    };
                    proof {
                        lemma_index_width_one(item_index(text@, at as int));
                    }
                    if !fits {
                        return false;
                    }
                },
                Looking::Indices => {
                    if first && item.numbered && item.index > MAX_FIRST_INDEX {
                        return false;
                    }
                },
            }
        }
        if first && len - at > 2 && text[at] == 96 && text[at + 1] == 96 && text[at + 2] == 96 {
            fenced_here = !fenced_here;
        }
        at += 1;
    }
    true
}

/// Tells whether every item of `text` has room for its indent where lines
/// are wrapped to `line_width` columns.
pub fn check_items_fit(text: &[u8], line_width: usize) -> (fit: bool)
    ensures
        fit == items_fit(text@, line_width as nat),
{
    walk(text, Looking::Rooms(line_width))
}

/// Tells whether the index of every numbered line of `text` is small
/// enough to be counted on from.
pub fn check_indices_fit(text: &[u8]) -> (fit: bool)
    ensures
        fit == indices_fit(text@),
{
    walk(text, Looking::Indices)
}

/// Tells whether the renderer can lay `markdown` out for an area
/// `area_width` columns wide, with a skin of these margins.
pub fn check_lays_out(markdown: &str, area_width: u16, margins: &Vec<usize>) -> (can: bool)
    ensures
        can == lays_out(vstd::utf8::encode_utf8(markdown@), area_width as nat, margins@),
{
    if area_width < 1 || margins.len() < 2 {
        return false;
    }
    let mut k: usize = 0;
    while k < margins.len()
        invariant
            k <= margins@.len(),
            forall|j: int| 0 <= j < k ==> #[trigger] margins@[j] <= MAX_MARGIN,
        decreases margins@.len() - k,
    {
        if margins[k] > MAX_MARGIN {
            return false;
        }
        k += 1;
    }
    let text = markdown.as_bytes();
    if text.len() > length_limit() || !check_indices_fit(text) {
        return false;
    }
    let width: usize = (area_width - 1) as usize;
    if width < MIN_WRAP_WIDTH {
        return true;
    }
    let taken: usize = margins[0] + margins[1];
    let line_width: usize = if width < taken + MIN_WRAP_WIDTH {
        width
    } else {
        width - taken
    };
    check_items_fit(text, line_width)
}

} // verus!
