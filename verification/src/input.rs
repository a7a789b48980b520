//! The input vocabulary: keys, mouse buttons, the unified `Input` namespace,
//! per-frame semantic input states, and the raw events the tracker consumes.

use vstd::prelude::*;

use crate::coord::Coord;

verus! {

/// A key on the keyboard, by value. Keys the library does not interpret
/// still compare distinctly, so holding one never aliases another.
#[derive(Clone, Copy, PartialEq, Eq, Structural, Debug, Hash)]
pub enum Key {
    Char(char),
    F(u8),
    Up,
    Down,
    Left,
    Right,
    Esc,
    Enter,
    Backspace,
    Tab,
    BackTab,
    Delete,
    Insert,
    Home,
    End,
    PageUp,
    PageDown,
    Null,
    CapsLock,
    ScrollLock,
    NumLock,
    PrintScreen,
    Pause,
    Menu,
    KeypadBegin,
    Media(u8),
    Modifier(u8),
}

/// A mouse button.
#[derive(Clone, Copy, PartialEq, Eq, Structural, Debug, Hash)]
pub enum MouseButton {
    Left,
    Right,
    Middle,
}

/// A scroll step of the mouse wheel.
#[derive(Clone, Copy, PartialEq, Eq, Structural, Debug, Hash)]
pub enum ScrollDirection {
    Up,
    Down,
    Left,
    Right,
}

/// One input source: keys, mouse buttons and scroll steps share a single
/// namespace so command decoding treats them uniformly.
#[derive(Clone, Copy, PartialEq, Eq, Structural, Debug, Hash)]
pub enum Input {
    Key(Key),
    MouseLeft,
    MouseRight,
    MouseMiddle,
    MouseScrollDown,
    MouseScrollUp,
    MouseScrollLeft,
    MouseScrollRight,
}

/// The semantic state of one input within a frame: freshly pressed, held, or
/// released. One input may carry several states in the same frame.
#[derive(Clone, Copy, PartialEq, Eq, Structural, Debug, Hash)]
pub enum InputState {
    Press(Input),
    Release(Input),
    Active(Input),
}

/// A raw hardware event, queued between frames. Mouse events carry the
/// pointer cell they happened at.
#[derive(Clone, Copy, PartialEq, Eq, Structural, Debug)]
pub enum RawEvent {
    KeyPress(Key),
    KeyRelease(Key),
    MouseDown(MouseButton, Coord),
    MouseUp(MouseButton, Coord),
    Scroll(ScrollDirection, Coord),
    MouseMoved(Coord),
}

/// The `Input` a mouse button occupies.
pub open spec fn spec_button_input(b: MouseButton) -> Input {
    match b {
        MouseButton::Left => Input::MouseLeft,
        MouseButton::Right => Input::MouseRight,
        MouseButton::Middle => Input::MouseMiddle,
    }
}

/// The `Input` a scroll step occupies.
pub open spec fn spec_scroll_input(d: ScrollDirection) -> Input {
    match d {
        ScrollDirection::Up => Input::MouseScrollUp,
        ScrollDirection::Down => Input::MouseScrollDown,
        ScrollDirection::Left => Input::MouseScrollLeft,
        ScrollDirection::Right => Input::MouseScrollRight,
    }
}

impl MouseButton {
    /// The `Input` this button occupies.
    pub fn as_input(&self) -> (i: Input)
        ensures
            i == spec_button_input(*self),
    {
        match self {
            MouseButton::Left => Input::MouseLeft,
            MouseButton::Right => Input::MouseRight,
            MouseButton::Middle => Input::MouseMiddle,
        }
    }
}

impl ScrollDirection {
    /// The `Input` this scroll step occupies.
    pub fn as_input(&self) -> (i: Input)
        ensures
            i == spec_scroll_input(*self),
    {
        match self {
            ScrollDirection::Up => Input::MouseScrollUp,
            ScrollDirection::Down => Input::MouseScrollDown,
            ScrollDirection::Left => Input::MouseScrollLeft,
            ScrollDirection::Right => Input::MouseScrollRight,
        }
    }
}

} // verus!
