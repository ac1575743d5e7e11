use help_screen::layout::{check_indices_fit, check_items_fit, check_lays_out};

fn no_margins() -> Vec<usize> {
    vec![0; 20]
}

#[test]
fn a_text_without_items_fits_every_width() {
    assert!(check_items_fit(b"", 0));
    assert!(check_items_fit(b"some words\nand more, 12 of them. * not an item\n", 0));
    assert!(check_items_fit(b"*emphasis* at the start\n-dash\n+plus\n1 . one\n12", 0));
    assert!(check_items_fit("h\u{e9}llo | w\u{f6}rld\n\u{1f600}".as_bytes(), 0));
    assert!(check_items_fit(b"2.5 is a number\n7.x\n1234\n7 .", 0));
    assert!(check_items_fit(b"a |  * b\nc |12. d", 0));
}

#[test]
fn a_marked_item_takes_its_spaces_and_two_columns() {
    assert!(check_items_fit(b"* a", 3));
    assert!(check_items_fit(b"- a", 2));
    assert!(!check_items_fit(b"+ a", 1));
    assert!(check_items_fit(b"text\n * a", 3));
    assert!(!check_items_fit(b"text\n  * a", 3));
    assert!(check_items_fit(b"text\n  * a", 4));
    assert!(!check_items_fit(b"text\n   * a", 4));
    assert!(check_items_fit(b"text\n   * a", 5));
    assert!(!check_items_fit(b"text\r\n   - a\r\n", 4));
}

#[test]
fn four_spaces_begin_code() {
    assert!(check_items_fit(b"text\n    * a", 0));
    assert!(check_items_fit(b"        1. a", 0));
    assert!(check_items_fit(b"\t* a", 0));
    assert!(check_items_fit(b"|    * a|", 0));
    assert!(check_indices_fit(b"    1234567890. x"));
}

#[test]
fn a_numbered_line_takes_its_spaces_and_twelve_columns() {
    assert!(!check_items_fit(b"1. a", 11));
    assert!(check_items_fit(b"1. a", 12));
    assert!(!check_items_fit(b"   42) a", 14));
    assert!(check_items_fit(b"   42) a", 15));
    assert!(!check_items_fit(b"7.", 11));
    assert!(check_items_fit(b"7.", 12));
    assert!(!check_items_fit(b"7)\ntext", 11));
    assert!(!check_items_fit(b"7.\r\ntext", 11));
    assert!(check_items_fit(b"7.\rtext", 0));
    assert!(check_items_fit(b"7.\r", 0));
}

#[test]
fn an_item_in_a_cell_has_the_least_column() {
    assert!(check_items_fit(b"|a|b|\n|-|-|\n| - | * x|", 80));
    assert!(check_items_fit(b"|* x|", 80));
    assert!(!check_items_fit(b"|  * x|", 80));
    assert!(!check_items_fit(b"|a|   - x|", 80));
    assert!(check_items_fit(b"|1. x|", 80));
    assert!(check_items_fit(b"|9) x|", 80));
    assert!(check_items_fit(b"|07. x|", 80));
    assert!(check_items_fit(b"|4294967296. x|", 80));
    assert!(!check_items_fit(b"|10. x|", 80));
    assert!(!check_items_fit(b"|4294967295. x|", 80));
    assert!(!check_items_fit(b"| 1. x|", 80));
    assert!(check_items_fit(b"|2.5|", 80));
    assert!(check_items_fit(b"|1 x|", 80));
    assert!(check_items_fit(b"|1.|", 80));
    assert!(!check_items_fit(b"|a|12.", 80));
    assert!(check_items_fit(b"text\n|2.5|3.5|\n", 3));
}

#[test]
fn nothing_between_fences_is_an_item() {
    assert!(check_items_fit(b"```\n   * a\n1. b\n|  * c|\n```\n", 0));
    assert!(check_items_fit(b"```rust\n1. a\n```\ntext", 0));
    assert!(!check_items_fit(b"```\n```\n   * a", 4));
    assert!(check_items_fit(b"```\n```\n   * a", 5));
    assert!(!check_items_fit(b"```rust\n1. a\n```\n1. b", 11));
    assert!(check_items_fit(b"```rust\n1. a\n```\n1. b", 12));
    assert!(!check_items_fit(b"``\n   * a", 4));
    assert!(!check_items_fit(b" ```\n   * a", 4));
    assert!(check_items_fit(b"a\n```\n```\n```\n   * a", 0));
    assert!(check_indices_fit(b"```\n1234567890. x\n```"));
    assert!(!check_indices_fit(b"```\n```\n1234567890. x"));
}

#[test]
fn an_index_beyond_nine_digits_is_refused() {
    assert!(check_indices_fit(b""));
    assert!(check_indices_fit(b"123456789. x\n  999999999) y"));
    assert!(check_indices_fit(b"0999999999. x"));
    assert!(!check_indices_fit(b"1000000000. x"));
    assert!(!check_indices_fit(b"1234567890. x"));
    assert!(!check_indices_fit(b"text\n4294967295. x"));
    assert!(!check_indices_fit(b"1234567890."));
    assert!(!check_indices_fit(b"1234567890)\ntext"));
}

#[test]
fn an_index_that_is_not_read_is_not_refused() {
    assert!(check_indices_fit(b"4294967296. x"));
    assert!(check_indices_fit(b"99999999999999999999999999. x"));
    assert!(check_indices_fit(b"text\n   00000000001) x"));
    assert!(check_indices_fit(b"text 4294967295. x"));
    assert!(check_indices_fit(b"4294967295 x"));
    assert!(check_indices_fit(b"4294967295.x"));
    assert!(check_indices_fit(b"* 4294967295. x"));
    assert!(check_indices_fit(b"|a|4294967295. |"));
}

#[test]
fn below_the_least_width_nothing_is_wrapped() {
    let item = "   * a few words";
    assert!(!check_lays_out(item, 0, &no_margins()));
    assert!(check_lays_out(item, 1, &no_margins()));
    assert!(check_lays_out(item, 3, &no_margins()));
    assert!(!check_lays_out(item, 4, &no_margins()));
    assert!(!check_lays_out(item, 5, &no_margins()));
    assert!(check_lays_out(item, 6, &no_margins()));
    assert!(check_lays_out(item, 65535, &no_margins()));
}

#[test]
fn margins_are_taken_off_where_they_leave_the_least_width() {
    let item = "   * a few words";
    let mut margins = no_margins();
    margins[0] = 10;
    margins[1] = 5;
    assert!(check_lays_out(item, 18, &margins));
    assert!(!check_lays_out(item, 19, &margins));
    assert!(!check_lays_out(item, 20, &margins));
    assert!(check_lays_out(item, 21, &margins));
    assert!(!check_lays_out(item, 5, &margins));
    assert!(check_lays_out(item, 6, &margins));
}

#[test]
fn margins_beyond_the_largest_are_refused() {
    let mut margins = no_margins();
    margins[19] = 65535;
    assert!(check_lays_out("text", 80, &margins));
    margins[19] = 65536;
    assert!(!check_lays_out("text", 80, &margins));
    assert!(!check_lays_out("text", 80, &vec![0]));
    assert!(!check_lays_out("text", 80, &Vec::new()));
    assert!(check_lays_out("text", 80, &vec![0, 0]));
}

#[test]
fn a_long_index_is_refused_at_every_width() {
    assert!(!check_lays_out("4294967295. x", 1, &no_margins()));
    assert!(!check_lays_out("4294967295. x", 80, &no_margins()));
    assert!(check_lays_out("429496729. x", 1, &no_margins()));
    assert!(check_lays_out("429496729. x", 80, &no_margins()));
    assert!(!check_lays_out("429496729. x", 12, &no_margins()));
    assert!(check_lays_out("429496729. x", 13, &no_margins()));
}

#[test]
fn a_table_of_numbers_lays_out_at_every_width() {
    for width in 1..200 {
        assert!(check_lays_out("|2.5|3.25|\n|-|-|\n|10.5|1.|", width, &no_margins()));
    }
}
