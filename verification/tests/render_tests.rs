use alias_search::render::{format_row, prompt_label, render_frame, render_rows, visible_rows};
use alias_search::table::{get_table, AliasEntry};

fn query(s: &str) -> Vec<char> {
    s.chars().collect()
}

#[test]
fn prompt_label_is_the_literal_text() {
    assert_eq!(prompt_label(), "Enter search:");
}

#[test]
fn visible_rows_is_height_minus_five_floored_at_zero() {
    assert_eq!(visible_rows(24), 19);
    assert_eq!(visible_rows(6), 1);
    assert_eq!(visible_rows(5), 0);
    assert_eq!(visible_rows(4), 0);
    assert_eq!(visible_rows(0), 0);
}

#[test]
fn format_row_pads_the_alias_to_ten_columns() {
    let e = AliasEntry { command: String::from("git add"), alias: String::from("ga") };
    assert_eq!(format_row(&e), "ga         - git add\n");
}

#[test]
fn format_row_keeps_a_long_alias_whole() {
    let e = AliasEntry {
        command: String::from("git reset --hard && git clean -dffx"),
        alias: String::from("gpristine"),
    };
    assert_eq!(format_row(&e), "gpristine  - git reset --hard && git clean -dffx\n");
}

#[test]
fn renderer_shows_min_of_matches_and_height_budget() {
    let table = get_table();
    // More matches than fit: exactly height - 5 rows.
    assert_eq!(render_rows(&query(""), &table, 7).len(), 2);
    // Fewer matches than fit: all of them.
    assert_eq!(render_rows(&query("bisect"), &table, 200).len(), 5);
    // A short terminal shows nothing.
    assert_eq!(render_rows(&query(""), &table, 5).len(), 0);
    assert_eq!(render_rows(&query(""), &table, 3).len(), 0);
    // A tall terminal shows the whole table.
    assert_eq!(render_rows(&query(""), &table, 200).len(), 150);
}

#[test]
fn truncation_keeps_the_lexicographically_smallest_matches() {
    let table = get_table();
    let shown = render_rows(&query(""), &table, 8);
    assert_eq!(
        shown,
        vec![
            "ggpnp      - ggl && ggp\n",
            "ga         - git add\n",
            "gaa        - git add --all\n",
        ]
    );
}

#[test]
fn frame_holds_clear_prompt_rows_and_cursor_move() {
    let table = get_table();
    let frame = render_frame(&query(""), &table, 7);
    let expected = "\u{1b}[2J\u{1b}[1;1HEnter search: \nggpnp      - ggl && ggp\nga         - git add\n\u{1b}[1;15H";
    assert_eq!(frame, expected);
}

#[test]
fn cursor_lands_right_after_the_typed_text() {
    let table = get_table();
    let frame = render_frame(&query("stash"), &table, 5);
    // Column 13 (label) + 1 (space) + 5 (query) + 1 = 20, row 1.
    assert!(frame.ends_with("\u{1b}[1;20H"));
    assert!(frame.contains("Enter search: stash\n"));
}

#[test]
fn rendering_twice_from_the_same_inputs_is_identical() {
    let table = get_table();
    let q = query("git a");
    let first = render_frame(&q, &table, 30);
    let second = render_frame(&q, &table, 30);
    assert_eq!(first, second);
}
