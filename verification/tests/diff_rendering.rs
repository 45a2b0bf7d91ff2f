//! The colored diff rendering and the curtailed summary, through the real
//! diff engine.

use deputy::textdiff::{diff, diff_summary};

#[test]
fn equal_texts_render_as_context() {
    assert_eq!(diff("a\n", "a\n"), "  a\n");
}

#[test]
fn a_changed_line_renders_as_delete_then_insert() {
    assert_eq!(
        diff("a\n", "b\n"),
        "\u{1b}[31m- a\n\u{1b}[0m\u{1b}[32m+ b\n\u{1b}[0m"
    );
}

#[test]
fn an_added_line_renders_green() {
    assert_eq!(diff("a\n", "a\nb\n"), "  a\n\u{1b}[32m+ b\n\u{1b}[0m");
}

#[test]
fn summary_of_a_small_change_is_the_whole_change() {
    assert_eq!(
        diff_summary("a\n", "b\n", 15),
        "\u{1b}[31m- a\n\u{1b}[0m\u{1b}[32m+ b\n\u{1b}[0m"
    );
}

#[test]
fn summary_keeps_at_most_five_context_lines_before_the_change() {
    let old = "1\n2\n3\n4\n5\n6\n7\nx\n";
    let new = "1\n2\n3\n4\n5\n6\n7\ny\n";
    let summary = diff_summary(old, new, 50);
    // The first two context lines fall out of the five-line buffer.
    assert!(!summary.contains("  1\n"));
    assert!(!summary.contains("  2\n"));
    assert!(summary.contains("  3\n"));
    assert!(summary.contains("  7\n"));
    assert!(summary.contains("\u{1b}[31m- x\n"));
    assert!(summary.contains("\u{1b}[32m+ y\n"));
}

#[test]
fn summary_is_curtailed_with_a_count() {
    let old = "1\n2\n";
    let new = "3\n4\n";
    let summary = diff_summary(old, new, 2);
    assert_eq!(
        summary,
        "\u{1b}[31m- 1\n\u{1b}[0m\u{1b}[31m- 2\u{1b}[0m\n(...3 more lines)"
    );
}
