use vstd::prelude::*;

verus! {

/// A key press as the application sees it.
#[derive(Clone, Copy, Debug, PartialEq, Eq, Structural)]
pub enum Key {
    Char(char),
    Backspace,
    Enter,
    Esc,
    Tab,
    BackTab,
    Other,
}

/// What the run loop does after a key has been handled.
#[derive(Clone, Copy, Debug, PartialEq, Eq, Structural)]
pub enum Outcome {
    Continue,
    Quit,
    ClearScreen,
}

/// What a key means while the lists are being navigated.
#[derive(Clone, Copy, Debug, PartialEq, Eq, Structural)]
pub enum Command {
    Quit,
    NextTab,
    PrevTab,
    SelectNext,
    SelectPrev,
    MoveItem,
    DeleteItem,
    ClearScreen,
    EnterInput,
    Ignore,
}

/// The fixed key bindings of navigation mode.
pub open spec fn command_of(key: Key) -> Command {
    match key {
        Key::Char('q') => Command::Quit,
        Key::Char('a') => Command::EnterInput,
        Key::Char('c') => Command::ClearScreen,
        Key::Char('e') => Command::SelectNext,
        Key::Char('u') => Command::SelectPrev,
        Key::Char(' ') => Command::MoveItem,
        Key::Backspace => Command::DeleteItem,
        Key::Tab => Command::NextTab,
        Key::BackTab => Command::PrevTab,
        _ => Command::Ignore,
    }
}

/// Looks up the navigation command bound to `key`.
pub fn command_for(key: Key) -> (r: Command)
    ensures
        r == command_of(key),
{
    match key {
        Key::Char(c) => {
            if c == 'q' {
                Command::Quit
            } else if c == 'a' {
                Command::EnterInput
            } else if c == 'c' {
                Command::ClearScreen
            } else if c == 'e' {
                Command::SelectNext
            } else if c == 'u' {
                Command::SelectPrev
            } else if c == ' ' {
                Command::MoveItem
            } else {
                Command::Ignore
            }
        },
        Key::Backspace => Command::DeleteItem,
        Key::Tab => Command::NextTab,
        Key::BackTab => Command::PrevTab,
        _ => Command::Ignore,
    }
}

} // verus!
