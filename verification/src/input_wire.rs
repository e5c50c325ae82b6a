//! Input events and their wire form on the input stream.

use vstd::prelude::*;

verus! {

/// A mouse button.
#[derive(Clone, Copy, Debug, PartialEq, Eq, Structural)]
pub enum MouseButton {
    Left,
    Right,
    Middle,
    X1,
    X2,
}

/// Modifier keys held with a key event.
#[derive(Clone, Copy, Debug, PartialEq, Eq, Structural)]
pub struct KeyModifiers {
    pub ctrl: bool,
    pub shift: bool,
    pub alt: bool,
    pub meta: bool,
}

/// A key code that means the same on every platform.
#[derive(Clone, Copy, Debug, PartialEq, Eq, Structural)]
pub struct PortableKeyCode(pub u32);

/// A local or injected input event.
#[derive(Clone, Copy, Debug, PartialEq, Eq, Structural)]
pub enum InputEvent {
    MouseMove { dx: i32, dy: i32 },
    MouseButton { button: MouseButton, pressed: bool },
    MouseScroll { delta_x: i32, delta_y: i32 },
    Key { code: PortableKeyCode, pressed: bool, modifiers: KeyModifiers },
    /// Places the remote cursor; it does not travel as an input event.
    MouseWarpAbsolute { x: i32, y: i32 },
}

/// Wire form of an input event.
#[derive(Clone, Copy, Debug, PartialEq, Eq, Structural)]
pub enum InputEventDto {
    MouseMove { dx: i32, dy: i32 },
    MouseButton { button: u8, pressed: bool },
    MouseScroll { delta_x: i32, delta_y: i32 },
    Key { code: u32, pressed: bool, ctrl: bool, shift: bool, alt: bool, meta: bool },
}

/// The wire number of a button.
pub open spec fn button_number(b: MouseButton) -> u8 {
    match b {
        MouseButton::Left => 0,
        MouseButton::Right => 1,
        MouseButton::Middle => 2,
        MouseButton::X1 => 3,
        MouseButton::X2 => 4,
    }
}

/// The button of a wire number; unknown numbers read as `Left`.
pub open spec fn button_of_number(v: u8) -> MouseButton {
    if v == 1 {
        MouseButton::Right
    } else if v == 2 {
        MouseButton::Middle
    } else if v == 3 {
        MouseButton::X1
    } else if v == 4 {
        MouseButton::X2
    } else {
        MouseButton::Left
    }
}

/// The wire number of a button.
pub fn mouse_button_to_u8(b: MouseButton) -> (v: u8)
    ensures
        v == button_number(b),
{
    match b {
        MouseButton::Left => 0,
        MouseButton::Right => 1,
        MouseButton::Middle => 2,
        MouseButton::X1 => 3,
        MouseButton::X2 => 4,
    }
}

/// The button of a wire number (see [`button_of_number`]).
pub fn mouse_button_from_u8(v: u8) -> (b: MouseButton)
    ensures
        b == button_of_number(v),
{
    if v == 1 {
        MouseButton::Right
    } else if v == 2 {
        MouseButton::Middle
    } else if v == 3 {
        MouseButton::X1
    } else if v == 4 {
        MouseButton::X2
    } else {
        MouseButton::Left
    }
}

/// Wire form of an event; a warp, which does not travel, becomes an empty
/// mouse move.
pub open spec fn to_dto(e: InputEvent) -> InputEventDto {
    match e {
        InputEvent::MouseMove { dx, dy } => InputEventDto::MouseMove { dx, dy },
        InputEvent::MouseButton { button, pressed } => InputEventDto::MouseButton { button: button_number(button), pressed },
        InputEvent::MouseScroll { delta_x, delta_y } => InputEventDto::MouseScroll { delta_x, delta_y },
        InputEvent::Key { code, pressed, modifiers } => InputEventDto::Key {
            code: code.0,
            pressed,
            ctrl: modifiers.ctrl,
            shift: modifiers.shift,
            alt: modifiers.alt,
            meta: modifiers.meta,
        },
        InputEvent::MouseWarpAbsolute { .. } => InputEventDto::MouseMove { dx: 0, dy: 0 },
    }
}

/// The event of a wire form.
pub open spec fn from_dto(d: InputEventDto) -> InputEvent {
    match d {
        InputEventDto::MouseMove { dx, dy } => InputEvent::MouseMove { dx, dy },
        InputEventDto::MouseButton { button, pressed } => InputEvent::MouseButton { button: button_of_number(button), pressed },
        InputEventDto::MouseScroll { delta_x, delta_y } => InputEvent::MouseScroll { delta_x, delta_y },
        InputEventDto::Key { code, pressed, ctrl, shift, alt, meta } => InputEvent::Key {
            code: PortableKeyCode(code),
            pressed,
            modifiers: KeyModifiers { ctrl, shift, alt, meta },
        },
    }
}

/// Wire form of an event (see [`to_dto`]).
pub fn input_event_to_dto(e: &InputEvent) -> (d: InputEventDto)
    ensures
        d == to_dto(*e),
{
    match e {
        InputEvent::MouseMove { dx, dy } => InputEventDto::MouseMove { dx: *dx, dy: *dy },
        InputEvent::MouseButton { button, pressed } => InputEventDto::MouseButton { button: mouse_button_to_u8(*button), pressed: *pressed },
        InputEvent::MouseScroll { delta_x, delta_y } => InputEventDto::MouseScroll { delta_x: *delta_x, delta_y: *delta_y },
        InputEvent::Key { code, pressed, modifiers } => InputEventDto::Key {
            code: code.0,
            pressed: *pressed,
            ctrl: modifiers.ctrl,
            shift: modifiers.shift,
            alt: modifiers.alt,
            meta: modifiers.meta,
        },
        InputEvent::MouseWarpAbsolute { .. } => InputEventDto::MouseMove { dx: 0, dy: 0 },
    }
}

/// The event of a wire form (see [`from_dto`]).
pub fn input_event_from_dto(d: &InputEventDto) -> (e: InputEvent)
    ensures
        e == from_dto(*d),
{
    match d {
        InputEventDto::MouseMove { dx, dy } => InputEvent::MouseMove { dx: *dx, dy: *dy },
        InputEventDto::MouseButton { button, pressed } => InputEvent::MouseButton { button: mouse_button_from_u8(*button), pressed: *pressed },
        InputEventDto::MouseScroll { delta_x, delta_y } => InputEvent::MouseScroll { delta_x: *delta_x, delta_y: *delta_y },
        InputEventDto::Key { code, pressed, ctrl, shift, alt, meta } => InputEvent::Key {
            code: PortableKeyCode(*code),
            pressed: *pressed,
            modifiers: KeyModifiers { ctrl: *ctrl, shift: *shift, alt: *alt, meta: *meta },
        },
    }
}

/// Reading back the wire number of a button gives the button.
pub proof fn mouse_button_round_trip(b: MouseButton)
    ensures
        button_of_number(button_number(b)) == b,
        button_number(b) < 5,
{
}

/// Every event but a warp reads back unchanged from its wire form.
pub proof fn input_event_round_trip(e: InputEvent)
    requires
        !(e is MouseWarpAbsolute),
    ensures
        from_dto(to_dto(e)) == e,
{
}

/// Every wire form with a known button number reads back unchanged.
pub proof fn input_dto_round_trip(d: InputEventDto)
    requires
        d matches InputEventDto::MouseButton { button, .. } ==> button < 5,
    ensures
        to_dto(from_dto(d)) == d,
{
}

/// Buttons travel under fixed numbers, the ones the peer reads: Left 0,
/// Right 1, Middle 2, X1 3, X2 4. A button event carries its button's
/// number and its pressed flag, a number reads back as its button, and an
/// unknown number reads as Left.
pub proof fn mouse_button_wire_numbers(pressed: bool, n: u8)
    ensures
        to_dto(InputEvent::MouseButton { button: MouseButton::Left, pressed }) == (InputEventDto::MouseButton { button: 0, pressed }),
        to_dto(InputEvent::MouseButton { button: MouseButton::Right, pressed }) == (InputEventDto::MouseButton { button: 1, pressed }),
        to_dto(InputEvent::MouseButton { button: MouseButton::Middle, pressed }) == (InputEventDto::MouseButton { button: 2, pressed }),
        to_dto(InputEvent::MouseButton { button: MouseButton::X1, pressed }) == (InputEventDto::MouseButton { button: 3, pressed }),
        to_dto(InputEvent::MouseButton { button: MouseButton::X2, pressed }) == (InputEventDto::MouseButton { button: 4, pressed }),
        from_dto(InputEventDto::MouseButton { button: 0, pressed }) == (InputEvent::MouseButton { button: MouseButton::Left, pressed }),
        from_dto(InputEventDto::MouseButton { button: 1, pressed }) == (InputEvent::MouseButton { button: MouseButton::Right, pressed }),
        from_dto(InputEventDto::MouseButton { button: 2, pressed }) == (InputEvent::MouseButton { button: MouseButton::Middle, pressed }),
        from_dto(InputEventDto::MouseButton { button: 3, pressed }) == (InputEvent::MouseButton { button: MouseButton::X1, pressed }),
        from_dto(InputEventDto::MouseButton { button: 4, pressed }) == (InputEvent::MouseButton { button: MouseButton::X2, pressed }),
        n >= 5 ==> from_dto(InputEventDto::MouseButton { button: n, pressed }) == (InputEvent::MouseButton {
            button: MouseButton::Left,
            pressed,
        }),
{
}

} // verus!
