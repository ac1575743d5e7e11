use help_screen::area::Area;
use help_screen::doc_view::{queue_drawn, DocView};
use help_screen::errors::ProgramError;
use help_screen::io::W;
use termimad::MadSkin;

fn numbered(count: usize) -> String {
    let mut lines = Vec::new();
    for i in 0..count {
        lines.push(format!("line {}", i));
    }
    lines.join("\n")
}

fn view_of(count: usize, width: u16, height: u16) -> DocView {
    DocView::from(numbered(count), Area::new(0, 0, width, height), MadSkin::default())
}

#[test]
fn a_new_view_shows_the_first_line() {
    let view = view_of(30, 20, 10);
    assert_eq!(view.scroll(), 0);
    assert_eq!(view.area(), Area::new(0, 0, 20, 10));
}

#[test]
fn content_height_counts_the_lines() {
    assert_eq!(view_of(30, 20, 10).content_height(), 30);
    assert_eq!(view_of(3, 20, 10).content_height(), 3);
}

#[test]
fn content_height_grows_where_lines_wrap() {
    let text = String::from("one two three four five six seven eight nine ten");
    let wide = DocView::from(text.clone(), Area::new(0, 0, 80, 10), MadSkin::default());
    let narrow = DocView::from(text, Area::new(0, 0, 12, 10), MadSkin::default());
    assert_eq!(wide.content_height(), 1);
    assert!(narrow.content_height() > 1);
}

#[test]
fn scroll_moves_by_the_lines_asked() {
    let mut view = view_of(30, 20, 10);
    view.try_scroll_lines(5);
    assert_eq!(view.scroll(), 5);
    view.try_scroll_lines(7);
    assert_eq!(view.scroll(), 12);
    view.try_scroll_lines(-2);
    assert_eq!(view.scroll(), 10);
    view.try_scroll_lines(0);
    assert_eq!(view.scroll(), 10);
}

#[test]
fn scroll_stops_at_the_last_page() {
    let mut view = view_of(30, 20, 10);
    view.try_scroll_lines(25);
    assert_eq!(view.scroll(), 20);
    view.try_scroll_lines(1);
    assert_eq!(view.scroll(), 20);
    view.try_scroll_lines(i32::MAX);
    assert_eq!(view.scroll(), 20);
}

#[test]
fn scroll_stops_at_the_first_line() {
    let mut view = view_of(30, 20, 10);
    view.try_scroll_lines(-1);
    assert_eq!(view.scroll(), 0);
    view.try_scroll_lines(4);
    view.try_scroll_lines(-9);
    assert_eq!(view.scroll(), 0);
}

#[test]
fn scroll_by_the_least_number() {
    let mut view = view_of(30, 20, 10);
    view.try_scroll_lines(20);
    view.try_scroll_lines(i32::MIN);
    assert_eq!(view.scroll(), 0);
    view.try_scroll_lines(3);
    view.try_scroll_lines(i32::MIN + 1);
    assert_eq!(view.scroll(), 0);
}

#[test]
fn a_document_that_fits_does_not_scroll() {
    let mut view = view_of(5, 20, 10);
    view.try_scroll_lines(3);
    assert_eq!(view.scroll(), 0);
    let mut exact = view_of(10, 20, 10);
    exact.try_scroll_lines(1);
    assert_eq!(exact.scroll(), 0);
    let mut one_more = view_of(11, 20, 10);
    one_more.try_scroll_lines(5);
    assert_eq!(one_more.scroll(), 1);
}

#[test]
fn resize_to_the_same_area_changes_nothing() {
    let mut view = view_of(30, 20, 10);
    view.try_scroll_lines(6);
    view.resize(&Area::new(0, 0, 20, 10));
    assert_eq!(view.scroll(), 6);
    assert_eq!(view.area(), Area::new(0, 0, 20, 10));
}

#[test]
fn resize_keeps_the_scroll_while_the_width_stays() {
    let mut view = view_of(30, 20, 10);
    view.try_scroll_lines(20);
    view.resize(&Area::new(2, 1, 20, 25));
    assert_eq!(view.scroll(), 20);
    assert_eq!(view.area(), Area::new(2, 1, 20, 25));
    view.try_scroll_lines(-1);
    assert_eq!(view.scroll(), 19);
    view.try_scroll_lines(1);
    assert_eq!(view.scroll(), 5);
}

#[test]
fn resize_to_another_width_shows_the_first_line() {
    let mut view = view_of(30, 20, 10);
    view.try_scroll_lines(6);
    view.resize(&Area::new(0, 0, 21, 10));
    assert_eq!(view.scroll(), 0);
    assert_eq!(view.area(), Area::new(0, 0, 21, 10));
}

#[test]
fn drawable_in_tells_what_the_renderer_can_draw() {
    let view = view_of(30, 20, 10);
    assert!(view.drawable_in(&Area::new(0, 0, 20, 10)));
    assert!(view.drawable_in(&Area::new(0, 0, 1, 10)));
    assert!(!view.drawable_in(&Area::new(0, 0, 0, 10)));
    assert!(view.drawable_in(&Area::new(0, 0, 20, 32767)));
    assert!(!view.drawable_in(&Area::new(0, 0, 20, 32768)));
    assert!(!view.drawable_in(&Area::new(1, 1, 20, 32767)));
    assert!(view.drawable_in(&Area::new(0, 65534, 20, 0)));
    assert!(!view.drawable_in(&Area::new(0, 65535, 20, 0)));
    assert!(view.drawable_in(&Area::new(65534, 0, 20, 10)));
    assert!(!view.drawable_in(&Area::new(65535, 0, 20, 10)));
}

#[test]
fn a_document_of_too_many_lines_is_not_drawable() {
    let view = view_of(65536, 20, 10);
    assert_eq!(view.content_height(), 65536);
    assert!(!view.drawable_in(&Area::new(0, 0, 20, 10)));
    let largest = view_of(65535, 20, 10);
    assert!(largest.drawable_in(&Area::new(0, 0, 20, 10)));
}

#[test]
fn write_on_draws_the_visible_lines() {
    let mut view = view_of(30, 20, 4);
    view.try_scroll_lines(2);
    let mut w = W::from("kept");
    assert!(view.write_on(&mut w).is_ok());
    assert!(w.starts_with("kept"));
    assert!(w.contains("line 2"));
    assert!(w.contains("line 5"));
    assert!(!w.contains("line 1"));
    assert!(!w.contains("line 6"));
}

#[test]
fn write_on_draws_every_row_of_the_area() {
    let view = DocView::from(String::from("only"), Area::new(3, 2, 20, 3), MadSkin::default());
    let mut w = W::new();
    assert!(view.write_on(&mut w).is_ok());
    assert!(w.contains("\x1b[3;4H"));
    assert!(w.contains("\x1b[4;4H"));
    assert!(w.contains("\x1b[5;4H"));
    assert!(!w.contains("\x1b[6;4H"));
    assert!(w.contains("only"));
}

#[test]
fn write_on_begins_each_row_at_the_first_column_of_the_area() {
    let view = DocView::from(String::from("one\ntwo"), Area::new(3, 2, 20, 3), MadSkin::default());
    let mut w = W::from("kept");
    assert!(view.write_on(&mut w).is_ok());
    assert!(w.starts_with("kept\x1b[3;4H"));
    let first = w.find("\x1b[3;4H").unwrap();
    let second = w.find("\x1b[4;4H").unwrap();
    let third = w.find("\x1b[5;4H").unwrap();
    assert!(first < second && second < third);
    assert!(w[first..second].contains("one"));
    assert!(w[second..third].contains("two"));
    assert!(!w[third..].contains("one") && !w[third..].contains("two"));
}

#[test]
fn write_on_draws_nothing_in_an_area_without_rows() {
    let view = DocView::from(String::from("one\ntwo"), Area::new(3, 2, 20, 0), MadSkin::default());
    let mut w = W::from("kept");
    assert!(view.write_on(&mut w).is_ok());
    assert_eq!(w, "kept");
}

#[test]
fn lays_out_in_counts_the_margins_of_the_skin() {
    let numbered_item = String::from("1. one two three four five six seven");
    let plain = DocView::from(numbered_item.clone(), Area::new(0, 0, 20, 5), MadSkin::default());
    assert!(plain.lays_out_in(&Area::new(0, 0, 20, 5)));
    assert!(plain.lays_out_in(&Area::new(0, 0, 13, 5)));
    assert!(!plain.lays_out_in(&Area::new(0, 0, 12, 5)));
    let mut skin = MadSkin::default();
    skin.paragraph.left_margin = 6;
    skin.paragraph.right_margin = 4;
    let padded = DocView::from(numbered_item.clone(), Area::new(0, 0, 20, 5), skin);
    assert!(!padded.lays_out_in(&Area::new(0, 0, 20, 5)));
    assert!(padded.lays_out_in(&Area::new(0, 0, 23, 5)));
    assert!(!padded.lays_out_in(&Area::new(0, 0, 22, 5)));
    assert!(padded.lays_out_in(&Area::new(0, 0, 13, 5)));
    let mut wide = MadSkin::default();
    wide.headers[7].right_margin = 65536;
    let refused = DocView::from(String::from("text"), Area::new(0, 0, 20, 5), wide);
    assert!(!refused.lays_out_in(&Area::new(0, 0, 20, 5)));
    let mut widest = MadSkin::default();
    widest.code_block.left_margin = 65535;
    let taken = DocView::from(String::from("text"), Area::new(0, 0, 20, 5), widest);
    assert!(taken.lays_out_in(&Area::new(0, 0, 20, 5)));
}

#[test]
fn try_content_height_counts_where_the_document_lays_out() {
    let item = String::from("   * a few words that do not fit");
    let narrow = DocView::from(item.clone(), Area::new(0, 0, 5, 3), MadSkin::default());
    assert_eq!(narrow.try_content_height(), None);
    let none = DocView::from(item.clone(), Area::new(0, 0, 0, 3), MadSkin::default());
    assert_eq!(none.try_content_height(), None);
    let wide = DocView::from(item.clone(), Area::new(0, 0, 80, 3), MadSkin::default());
    assert_eq!(wide.try_content_height(), Some(1));
    let wrapped = DocView::from(item, Area::new(0, 0, 12, 3), MadSkin::default());
    assert!(wrapped.try_content_height().unwrap() > 1);
    assert!(!narrow.drawable_in(&Area::new(0, 0, 5, 3)));
    assert!(narrow.drawable_in(&Area::new(0, 0, 6, 3)));
}

#[test]
fn lists_and_tables_are_laid_out_where_their_items_have_room() {
    let text = String::from(
        "# Title\n\n* one\n * two\n   * three is a longer item that must be wrapped\n\n\
         1. first of the numbered items, long enough to wrap\n2) second\n\n\
         |a|b|\n|-|-|\n| - | some cell that is long enough to be wrapped in a column |\n",
    );
    let mut view = DocView::from(text, Area::new(0, 0, 40, 4), MadSkin::default());
    assert!(view.lays_out_in(&Area::new(0, 0, 40, 4)));
    assert!(view.lays_out_in(&Area::new(0, 0, 13, 4)));
    assert!(!view.lays_out_in(&Area::new(0, 0, 12, 4)));
    let lines = view.content_height();
    assert!(lines > 10);
    view.try_scroll_lines(i32::MAX);
    assert_eq!(view.scroll(), lines - 4);
    let mut w = W::new();
    assert!(view.write_on(&mut w).is_ok());
    view.resize(&Area::new(0, 0, 13, 4));
    assert!(view.content_height() > lines);
    let mut narrow = W::new();
    assert!(view.write_on(&mut narrow).is_ok());
}

#[test]
fn a_list_is_numbered_on_from_its_first_index() {
    let text = String::from("999999998. one\n1. two\n1. three");
    let view = DocView::from(text, Area::new(0, 0, 40, 5), MadSkin::default());
    assert_eq!(view.try_content_height(), Some(3));
    let mut w = W::new();
    assert!(view.write_on(&mut w).is_ok());
    assert!(w.contains("999999998"));
    assert!(w.contains("1000000000"));
    let beyond = DocView::from(String::from("4294967295. one"), Area::new(0, 0, 40, 5), MadSkin::default());
    assert_eq!(beyond.try_content_height(), None);
    assert!(!beyond.drawable_in(&Area::new(0, 0, 40, 5)));
}

#[test]
fn what_lays_out_is_laid_out_and_drawn() {
    let documents = [
        "|2.5|3.25|\n|-|-|\n|10.5|1.|\n|1. a numbered cell that is long enough to wrap|x|",
        "text\n        * eight spaces before a mark, and words to wrap the line with\n",
        "```\n   * a fenced item with words to wrap\n1. and a numbered one\n|  * c|\n```\nend",
        "* one\n * two is longer and wraps\n  * three is longer and wraps as well\n   * four",
        "1. first is long enough to be wrapped\n1. second\n   3) third, long enough as well",
        "| - | * a marked cell that is long enough to be wrapped in its column |07. seven wraps|",
        "> a quote that is long enough to be wrapped\n# a title that is long enough as well",
        "7.\r\n2.5 is a number that is not an index, in a line to wrap\n7.x\n|9) nine and more|",
        "a |  * bar in a line that is no table, with words to wrap | 12. more words",
    ];
    let mut laid_out = 0;
    for document in documents {
        for width in 0..40 {
            let area = Area::new(1, 1, width, 6);
            let mut view = DocView::from(String::from(document), area, MadSkin::default());
            match view.try_content_height() {
                Some(lines) => {
                    assert!(lines >= 1);
                    laid_out += 1;
                    assert!(view.drawable_in(&area));
                    view.try_scroll_lines(2);
                    let mut w = W::new();
                    assert!(view.write_on(&mut w).is_ok());
                    assert!(w.starts_with("\x1b[2;2H"));
                }
                None => assert!(!view.drawable_in(&area)),
            }
        }
    }
    assert!(laid_out > 250);
}

#[test]
fn what_is_drawn_comes_of_the_scroll() {
    let mut view = view_of(30, 20, 3);
    let mut top = W::new();
    assert!(view.write_on(&mut top).is_ok());
    let mut again = W::new();
    assert!(view.write_on(&mut again).is_ok());
    assert_eq!(top, again);
    view.try_scroll_lines(7);
    let mut scrolled = W::new();
    assert!(view.write_on(&mut scrolled).is_ok());
    assert!(scrolled != top);
    assert!(scrolled.contains("line 7") && scrolled.contains("line 9"));
    assert!(!scrolled.contains("line 0") && !scrolled.contains("line 10"));
    let second = scrolled.find("\x1b[2;1H").unwrap();
    let third = scrolled.find("\x1b[3;1H").unwrap();
    assert!(scrolled[..second].contains("line 7"));
    assert!(scrolled[second..third].contains("line 8"));
    assert!(scrolled[third..].contains("line 9"));
}

#[test]
fn queue_drawn_appends_the_text() {
    let mut w = W::from("a");
    let done = queue_drawn(&mut w, Ok(String::from("bc")));
    assert!(done.is_ok());
    assert_eq!(w, "abc");
}

#[test]
fn queue_drawn_hands_the_failure_on() {
    let mut w = W::from("a");
    let failure = termimad::Error::IO(std::io::Error::other("closed"));
    let done = queue_drawn(&mut w, Err(failure));
    assert!(matches!(done, Err(ProgramError::Termimad(termimad::Error::IO(_)))));
    assert_eq!(w, "a");
}
