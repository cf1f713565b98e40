use vstd::prelude::*;

verus! {

/// The keys the dashboard reacts to, already decoded from the terminal
/// byte stream by the embedding process.
#[derive(Clone, Copy, PartialEq, Eq, Structural, Debug)]
pub enum KeyCode {
    Char(char),
    Enter,
    Esc,
    Backspace,
    Delete,
    Left,
    Right,
    Up,
    Down,
    Home,
    End,
    PageUp,
    PageDown,
    Tab,
}

/// One key press, with the state of the control modifier.
#[derive(Clone, Copy, PartialEq, Eq, Structural, Debug)]
pub struct KeyEvent {
    pub code: KeyCode,
    pub ctrl: bool,
}

/// One terminal input event as the core sees it.
#[derive(Clone, Copy, PartialEq, Eq, Structural, Debug)]
pub enum InputEvent {
    Key(KeyEvent),
    Resize(u16, u16),
}

/// The key that ends the whole session.
pub open spec fn is_exit_key(k: KeyEvent) -> bool {
    k.code == KeyCode::Char('c') && k.ctrl
}

/// The key that closes the topmost popup.
pub open spec fn is_exit_popup_key(k: KeyEvent) -> bool {
    k.code == KeyCode::Esc && !k.ctrl
}

/// The key that rotates the visible tab.
pub open spec fn is_tab_toggle_key(k: KeyEvent) -> bool {
    k.code == KeyCode::Tab && !k.ctrl
}

pub fn exit_key_matches(k: &KeyEvent) -> (r: bool)
    ensures
        r == is_exit_key(*k),
{
    k.ctrl && matches!(k.code, KeyCode::Char(c) if c == 'c')
}

pub fn exit_popup_key_matches(k: &KeyEvent) -> (r: bool)
    ensures
        r == is_exit_popup_key(*k),
{
    !k.ctrl && matches!(k.code, KeyCode::Esc)
}

pub fn tab_toggle_key_matches(k: &KeyEvent) -> (r: bool)
    ensures
        r == is_tab_toggle_key(*k),
{
    !k.ctrl && matches!(k.code, KeyCode::Tab)
}

} // verus!
