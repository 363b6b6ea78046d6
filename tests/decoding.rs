use nx_window::controller::{
    parse_args, parse_button, parse_button_event, parse_hat_event, parse_key_events, Button,
    ButtonArgs, ButtonState, ControllerButton, ControllerHat, HatState, LibnxButtonId,
    LibnxKeyState,
};

fn press_button(controller: i32, id: u8) -> ButtonArgs {
    ButtonArgs {
        state: ButtonState::Press,
        button: Button::Controller(ControllerButton { id: controller, button: id }),
    }
}

fn event_id(e: &ButtonArgs) -> u8 {
    match e.button {
        Button::Controller(b) => b.button,
        Button::Hat(h) => h.which,
    }
}

#[test]
fn held_mask_yields_nothing() {
    for keys in [0u32, 1, 0b1010, 0x8000_0000, 0xFFFF_FFFF, 0x0123_4567] {
        assert!(parse_key_events(1, LibnxKeyState::Held, keys).is_empty());
        assert!(parse_key_events(3, LibnxKeyState::Held, keys).is_empty());
    }
}

#[test]
fn single_bit_yields_one_press() {
    for i in 0u32..32 {
        let events = parse_key_events(4, LibnxKeyState::Down, 1u32 << i);
        assert_eq!(events.len(), 1);
        let e = events[0];
        assert_eq!(e.state, ButtonState::Press);
        assert_eq!(event_id(&e), (i + 1) as u8);
        match e.button {
            Button::Controller(b) => assert_eq!(b.id, 4),
            Button::Hat(h) => assert_eq!(h.id, 4),
        }
    }
}

#[test]
fn hat_identifiers_map_to_directions() {
    let expected = [
        (13u8, HatState::Left),
        (14, HatState::Up),
        (15, HatState::Right),
        (16, HatState::Down),
        (17, HatState::Left),
        (18, HatState::Up),
        (19, HatState::Right),
        (20, HatState::Down),
        (21, HatState::Left),
        (22, HatState::Up),
        (23, HatState::Right),
        (24, HatState::Down),
    ];
    for (id, dir) in expected {
        assert_eq!(
            parse_button(1, id),
            Button::Hat(ControllerHat { id: 1, state: dir, which: id })
        );
    }
    assert_eq!(
        parse_button(1, LibnxButtonId::DLEFT),
        Button::Hat(ControllerHat { id: 1, state: HatState::Left, which: 13 })
    );
    assert_eq!(
        parse_button(1, LibnxButtonId::DDOWN),
        Button::Hat(ControllerHat { id: 1, state: HatState::Down, which: 16 })
    );
}

#[test]
fn other_identifiers_are_plain_buttons() {
    for id in (1u8..=12).chain(25..=40).chain([0u8, 255]) {
        assert_eq!(
            parse_button(2, id),
            Button::Controller(ControllerButton { id: 2, button: id })
        );
        assert_eq!(parse_hat_event(2, id), None);
    }
    assert_eq!(parse_button_event(7, LibnxButtonId::SR), ControllerButton { id: 7, button: 26 });
}

#[test]
fn empty_mask_yields_nothing() {
    assert!(parse_key_events(1, LibnxKeyState::Down, 0).is_empty());
    assert!(parse_key_events(1, LibnxKeyState::Up, 0).is_empty());
    assert!(parse_key_events(1, LibnxKeyState::Held, 0).is_empty());
}

#[test]
fn full_mask_yields_all_identifiers_in_order() {
    let events = parse_key_events(1, LibnxKeyState::Down, 0xFFFF_FFFF);
    assert_eq!(events.len(), 32);
    for (k, e) in events.iter().enumerate() {
        assert_eq!(event_id(e), (k + 1) as u8);
        assert_eq!(e.state, ButtonState::Press);
    }
    assert_eq!(events[0], press_button(1, LibnxButtonId::A));
    assert_eq!(events[31], press_button(1, 32));
}

#[test]
fn released_mask_yields_releases_in_bit_order() {
    let events = parse_key_events(1, LibnxKeyState::Up, (1u32 << 14) | (1u32 << 1));
    assert_eq!(
        events,
        vec![
            ButtonArgs {
                state: ButtonState::Release,
                button: Button::Controller(ControllerButton { id: 1, button: LibnxButtonId::B }),
            },
            ButtonArgs {
                state: ButtonState::Release,
                button: Button::Hat(ControllerHat { id: 1, state: HatState::Right, which: 15 }),
            },
        ]
    );
}

#[test]
fn args_carry_flag_and_button() {
    assert_eq!(parse_args(1, LibnxKeyState::Down, LibnxButtonId::X), press_button(1, 3));
    assert_eq!(
        parse_args(1, LibnxKeyState::Up, LibnxButtonId::RSTICK_UP),
        ButtonArgs {
            state: ButtonState::Release,
            button: Button::Hat(ControllerHat { id: 1, state: HatState::Up, which: 22 }),
        }
    );
}
