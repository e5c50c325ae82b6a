use winx_application::input_wire::{
    input_event_from_dto, input_event_to_dto, mouse_button_from_u8, mouse_button_to_u8, InputEvent, InputEventDto,
    KeyModifiers, MouseButton, PortableKeyCode,
};

#[test]
fn buttons_round_trip() {
    for b in [MouseButton::Left, MouseButton::Right, MouseButton::Middle, MouseButton::X1, MouseButton::X2] {
        assert_eq!(mouse_button_from_u8(mouse_button_to_u8(b)), b);
    }
    assert_eq!(mouse_button_to_u8(MouseButton::X2), 4);
    assert_eq!(mouse_button_from_u8(200), MouseButton::Left);
}

#[test]
fn events_round_trip() {
    let events = [
        InputEvent::MouseMove { dx: -3, dy: 4 },
        InputEvent::MouseButton { button: MouseButton::Middle, pressed: true },
        InputEvent::MouseScroll { delta_x: 0, delta_y: -120 },
        InputEvent::Key {
            code: PortableKeyCode(65),
            pressed: true,
            modifiers: KeyModifiers { ctrl: true, shift: false, alt: true, meta: false },
        },
    ];
    for e in events {
        assert_eq!(input_event_from_dto(&input_event_to_dto(&e)), e);
    }
}

#[test]
fn warp_does_not_travel() {
    assert_eq!(input_event_to_dto(&InputEvent::MouseWarpAbsolute { x: 5, y: 6 }), InputEventDto::MouseMove { dx: 0, dy: 0 });
}
