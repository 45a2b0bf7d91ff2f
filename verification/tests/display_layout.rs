//! Text wrapping, message boxes, snippets and display routing.

use deputy::display::{DisplayManager, snippet_text, title_for};
use deputy::message::Message;

#[test]
fn fitting_lines_pass_through() {
    let dm = DisplayManager::new(84);
    assert_eq!(dm.wrap_text("ab\ncd", 10), vec!["ab".to_string(), "cd".to_string()]);
}

#[test]
fn long_lines_wrap_at_word_boundaries() {
    let dm = DisplayManager::new(11);
    assert_eq!(
        dm.wrap_text("aaa bbb ccc", 7),
        vec!["aaa bbb".to_string(), "ccc".to_string()]
    );
}

#[test]
fn oversized_words_are_cut_to_width() {
    let dm = DisplayManager::new(8);
    assert_eq!(
        dm.wrap_text("abcdefghij", 4),
        vec!["abcd".to_string(), "efgh".to_string(), "ij".to_string()]
    );
}

#[test]
fn wrapped_lines_always_fit() {
    let dm = DisplayManager::new(10);
    let text = "a few words that will not fit on one narrow line at all";
    for line in dm.wrap_text(text, 6) {
        assert!(line.chars().count() <= 6, "line too wide: {:?}", line);
    }
}

#[test]
fn content_width_subtracts_the_frame() {
    assert_eq!(DisplayManager::new(80).content_width(), 76);
    assert_eq!(DisplayManager::new(3).content_width(), 0);
}

#[test]
fn message_boxes_frame_their_content() {
    let dm = DisplayManager::new(80);
    let wrapped = vec!["hello".to_string(), "world".to_string()];
    let lines = dm.render_message_box("You", &wrapped);
    assert_eq!(
        lines,
        vec![
            "\n\u{250c}\u{2500} You".to_string(),
            "\u{2502} hello".to_string(),
            "\u{2502} world".to_string(),
            "\u{2514}\u{2500}".to_string(),
        ]
    );
}

#[test]
fn snippets_show_ten_lines_and_count_the_rest() {
    assert_eq!(snippet_text("a\nb"), "a\nb");
    let text = "1\n2\n3\n4\n5\n6\n7\n8\n9\n10\n11\n12";
    assert_eq!(
        snippet_text(text),
        "1\n2\n3\n4\n5\n6\n7\n8\n9\n10\n... (2 more lines)"
    );
}

#[test]
fn only_user_and_model_messages_are_boxed() {
    assert_eq!(title_for(&Message::User("hi".to_string())), Some("You"));
    assert_eq!(title_for(&Message::Model("hi".to_string())), Some("Deputy"));
    assert_eq!(
        title_for(&Message::ToolResult { id: None, output: "x".to_string(), is_error: false }),
        None
    );
}
