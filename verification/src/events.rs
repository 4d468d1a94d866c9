//! Input events as the platform layer delivers them, and their
//! translation into the per-frame flags the game core consumes.

use vstd::prelude::*;

verus! {

/// All pressable keys and mouse buttons.
#[derive(Clone, Copy, Debug, Eq, Hash, PartialEq, Structural)]
pub enum KeyCode {
    A,
    B,
    C,
    D,
    E,
    F,
    G,
    H,
    I,
    J,
    K,
    L,
    M,
    N,
    O,
    P,
    Q,
    R,
    S,
    T,
    U,
    V,
    W,
    X,
    Y,
    Z,
    Row1,
    Row2,
    Row3,
    Row4,
    Row5,
    Row6,
    Row7,
    Row8,
    Row9,
    Row0,
    Grave,
    Minus,
    Equals,
    LeftBracket,
    RightBracket,
    Backslash,
    Semicolon,
    Apostrophe,
    Comma,
    Period,
    Slash,
    F1,
    F2,
    F3,
    F4,
    F5,
    F6,
    F7,
    F8,
    F9,
    F10,
    F11,
    F12,
    Enter,
    Escape,
    Backspace,
    Tab,
    Space,
    Pause,
    Insert,
    Home,
    PageUp,
    Delete,
    End,
    PageDown,
    Right,
    Left,
    Down,
    Up,
    NumDivide,
    NumMultiply,
    NumMinus,
    NumPlus,
    NumEnter,
    NumPeriod,
    Num1,
    Num2,
    Num3,
    Num4,
    Num5,
    Num6,
    Num7,
    Num8,
    Num9,
    Num0,
    MouseLeft,
    MouseRight,
    MouseMiddle,
    MouseFourth,
    MouseFifth,
}

/// A single input event.
#[derive(Clone, Copy, Debug, Eq, Hash, PartialEq, Structural)]
pub enum Event {
    /// The window was closed.
    Close,
    /// The window was resized.
    Resize { width: i32, height: i32 },
    /// The pointer moved to a cell.
    MouseMove { x: i32, y: i32 },
    /// The mouse wheel rotated by some steps.
    MouseScroll { delta: i32 },
    /// A keyboard or mouse button was pressed.
    KeyPressed { key: KeyCode, ctrl: bool, shift: bool },
    /// A keyboard or mouse button was released.
    KeyReleased { key: KeyCode, ctrl: bool, shift: bool },
    /// The shift key was pressed.
    ShiftPressed,
    /// The shift key was released.
    ShiftReleased,
    /// The control key was pressed.
    ControlPressed,
    /// The control key was released.
    ControlReleased,
}

/// An RGBA colour.
#[derive(Clone, Copy, Debug, Eq, PartialEq, Structural)]
pub struct Color {
    pub red: u8,
    pub green: u8,
    pub blue: u8,
    pub alpha: u8,
}

/// True of an event that asks to quit: a window close, or the escape
/// key going down.
pub open spec fn is_quit_event(e: Event) -> bool {
    ||| e is Close
    ||| e matches Event::KeyPressed { key: KeyCode::Escape, .. }
}

/// True of the designated reset chord: ctrl held while R goes down.
pub open spec fn is_reset_event(e: Event) -> bool {
    e matches Event::KeyPressed { key: KeyCode::R, ctrl: true, .. }
}

/// True when the left mouse button goes down.
pub open spec fn is_left_press_event(e: Event) -> bool {
    e matches Event::KeyPressed { key: KeyCode::MouseLeft, .. }
}

/// True when the left mouse button comes up.
pub open spec fn is_left_release_event(e: Event) -> bool {
    e matches Event::KeyReleased { key: KeyCode::MouseLeft, .. }
}

/// True when some event of `events` satisfies `pred`.
pub open spec fn some_event(events: Seq<Event>, pred: spec_fn(Event) -> bool) -> bool {
    exists|i: int| 0 <= i < events.len() && pred(#[trigger] events[i])
}

/// True when the frame's events ask to quit.
pub open spec fn quit_requested(events: Seq<Event>) -> bool {
    some_event(events, |e: Event| is_quit_event(e))
}

/// True when the frame's events strike the reset chord.
pub open spec fn reset_requested(events: Seq<Event>) -> bool {
    some_event(events, |e: Event| is_reset_event(e))
}

/// True when the left mouse button goes down during the frame.
pub open spec fn press_seen(events: Seq<Event>) -> bool {
    some_event(events, |e: Event| is_left_press_event(e))
}

/// True when the left mouse button comes up during the frame.
pub open spec fn release_seen(events: Seq<Event>) -> bool {
    some_event(events, |e: Event| is_left_release_event(e))
}

/// One frame's input, distilled from the ordered event list.
#[derive(Clone, Copy, Debug, Eq, PartialEq, Structural)]
pub struct FrameInput {
    /// A quit was requested this frame.
    pub quit: bool,
    /// The reset chord was struck this frame.
    pub reset: bool,
    /// The left mouse button went down this frame.
    pub left_mouse_pressed: bool,
    /// The left mouse button came up this frame.
    pub left_mouse_released: bool,
}

/// Distill the frame's ordered event list into the flags the core
/// consumes; every other event kind is ignored.
pub fn collect_input(events: &Vec<Event>) -> (r: FrameInput)
    ensures
        r.quit == quit_requested(events@),
        r.reset == reset_requested(events@),
        r.left_mouse_pressed == press_seen(events@),
        r.left_mouse_released == release_seen(events@),
{
    let mut quit = false;
    let mut reset = false;
    let mut pressed = false;
    let mut released = false;
    let mut i: usize = 0;
    while i < events.len()
        invariant
            i <= events@.len(),
            quit == (exists|k: int| 0 <= k < i && is_quit_event(#[trigger] events@[k])),
            reset == (exists|k: int| 0 <= k < i && is_reset_event(#[trigger] events@[k])),
            pressed == (exists|k: int|
                0 <= k < i && is_left_press_event(#[trigger] events@[k])),
            released == (exists|k: int|
                0 <= k < i && is_left_release_event(#[trigger] events@[k])),
        decreases events@.len() - i,
    {
        let e = events[i];
        match e {
            Event::Close => {
                quit = true;
            },
            Event::KeyPressed { key: KeyCode::Escape, ctrl: _, shift: _ } => {
                quit = true;
            },
            Event::KeyPressed { key: KeyCode::R, ctrl: true, shift: _ } => {
                reset = true;
            },
            Event::KeyPressed { key: KeyCode::MouseLeft, ctrl: _, shift: _ } => {
                pressed = true;
            },
            Event::KeyReleased { key: KeyCode::MouseLeft, ctrl: _, shift: _ } => {
                released = true;
            },
            _ => {},
        }
        proof {
            assert(events@[i as int] == e);
        }
        i = i + 1;
    }
    FrameInput { quit, reset, left_mouse_pressed: pressed, left_mouse_released: released }
}

} // verus!
