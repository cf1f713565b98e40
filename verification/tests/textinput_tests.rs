use gitui::input::{InputEvent, KeyCode, KeyEvent};
use gitui::render::RunStyle;
use gitui::textinput::TextInputComponent;

fn key(code: KeyCode) -> InputEvent {
    InputEvent::Key(KeyEvent { code, ctrl: false })
}

#[test]
fn textinput_test_smoke() {
    let mut comp = TextInputComponent::new("", "");

    comp.set_text(String::from("a\nb"));

    assert_eq!(comp.cursor_position(), 0);

    comp.incr_cursor();
    assert_eq!(comp.cursor_position(), 1);

    comp.decr_cursor();
    assert_eq!(comp.cursor_position(), 0);
}

#[test]
fn text_cursor_initial_position() {
    let mut comp = TextInputComponent::new("", "");

    comp.set_text(String::from("a"));

    let txt = comp.get_draw_text();

    assert_eq!(txt.len(), 1);
    assert_eq!(txt[0].text.as_str(), "a");
    assert_eq!(txt[0].style, RunStyle::PlainUnderlined);
}

#[test]
fn test_cursor_second_position() {
    let mut comp = TextInputComponent::new("", "");

    comp.set_text(String::from("a"));
    comp.incr_cursor();

    let txt = comp.get_draw_text();

    assert_eq!(txt.len(), 2);
    assert_eq!(txt[0].text.as_str(), "a");
    assert_eq!(txt[0].style, RunStyle::Plain);
    assert_eq!(txt[1].text.as_str(), " ");
    assert_eq!(txt[1].style, RunStyle::PlainUnderlined);
}

#[test]
fn test_visualize_newline() {
    let mut comp = TextInputComponent::new("", "");

    comp.set_text(String::from("a\nb"));
    comp.incr_cursor();

    let txt = comp.get_draw_text();

    assert_eq!(txt.len(), 4);
    assert_eq!(txt[0].text.as_str(), "a");
    assert_eq!(txt[1].text.as_str(), "\u{21b5}");
    assert_eq!(txt[1].style, RunStyle::DimUnderlined);
    assert_eq!(txt[2].text.as_str(), "\n");
    assert_eq!(txt[3].text.as_str(), "b");
}

#[test]
fn test_invisable_newline() {
    let mut comp = TextInputComponent::new("", "");

    comp.set_text(String::from("a\nb"));

    let txt = comp.get_draw_text();

    assert_eq!(txt.len(), 2);
    assert_eq!(txt[0].text.as_str(), "a");
    assert_eq!(txt[0].style, RunStyle::PlainUnderlined);
    assert_eq!(txt[1].text.as_str(), "\nb");
}

#[test]
fn test_editing_events() {
    let mut comp = TextInputComponent::new("t", "d");
    assert!(!comp.is_visible());
    assert!(!comp.event(&key(KeyCode::Char('a'))));

    comp.show();
    assert!(comp.event(&key(KeyCode::Char('a'))));
    assert!(comp.event(&key(KeyCode::Char('b'))));
    assert_eq!(comp.get_text(), "ab");
    assert_eq!(comp.cursor_position(), 2);

    assert!(comp.event(&key(KeyCode::Backspace)));
    assert_eq!(comp.get_text(), "a");
    assert_eq!(comp.cursor_position(), 1);

    assert!(comp.event(&key(KeyCode::Home)));
    assert_eq!(comp.cursor_position(), 0);
    assert!(comp.event(&key(KeyCode::Delete)));
    assert_eq!(comp.get_text(), "");

    assert!(comp.event(&key(KeyCode::Esc)));
    assert!(!comp.is_visible());
}

#[test]
fn test_default_message_shown_when_empty() {
    let mut comp = TextInputComponent::new("t", "type here");
    assert_eq!(comp.draw_text().len(), 0);
    comp.show();
    let runs = comp.draw_text();
    assert_eq!(runs.len(), 1);
    assert_eq!(runs[0].text.as_str(), "type here");
    assert_eq!(runs[0].style, RunStyle::Dim);
}
