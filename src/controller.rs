//! Decoding of the console's per-tick key bitmasks into button and hat events.
use vstd::prelude::*;

verus! {

/// Identifiers carried by decoded events: bit `i` of a key mask becomes identifier `i + 1`.
pub struct LibnxButtonId {}

impl LibnxButtonId {
    pub const A: u8 = 1;
    pub const B: u8 = 2;
    pub const X: u8 = 3;
    pub const Y: u8 = 4;

    pub const LSTICK: u8 = 5;
    pub const RSTICK: u8 = 6;

    pub const L: u8 = 7;
    pub const R: u8 = 8;
    pub const ZL: u8 = 9;
    pub const ZR: u8 = 10;

    pub const PLUS: u8 = 11;
    pub const MINUS: u8 = 12;

    pub const DLEFT: u8 = 13;
    pub const DUP: u8 = 14;
    pub const DRIGHT: u8 = 15;
    pub const DDOWN: u8 = 16;

    /// The sticks are read as two more directional pads.
    pub const LSTICK_LEFT: u8 = 17;
    pub const LSTICK_UP: u8 = 18;
    pub const LSTICK_RIGHT: u8 = 19;
    pub const LSTICK_DOWN: u8 = 20;

    pub const RSTICK_LEFT: u8 = 21;
    pub const RSTICK_UP: u8 = 22;
    pub const RSTICK_RIGHT: u8 = 23;
    pub const RSTICK_DOWN: u8 = 24;

    pub const SL: u8 = 25;
    pub const SR: u8 = 26;
}

/// Which of the three per-tick masks a key mask was read from.
#[derive(Clone, Copy, PartialEq, Eq, Structural, Debug, Hash)]
pub enum LibnxKeyState {
    /// Released this tick.
    Up,
    /// Pressed this tick.
    Down,
    /// Held; produces no events.
    Held,
}

/// Press or release flag of a decoded event.
#[derive(Clone, Copy, PartialEq, Eq, Structural, Debug, Hash)]
pub enum ButtonState {
    Press,
    Release,
}

/// Direction of a hat (directional) event.
#[derive(Clone, Copy, PartialEq, Eq, Structural, Debug, Hash)]
pub enum HatState {
    Up,
    Right,
    Down,
    Left,
}

/// An ordinary controller button.
#[derive(Clone, Copy, PartialEq, Eq, Structural, Debug, Hash)]
pub struct ControllerButton {
    pub id: i32,
    pub button: u8,
}

/// A direction on one of the controller's hats.
#[derive(Clone, Copy, PartialEq, Eq, Structural, Debug, Hash)]
pub struct ControllerHat {
    pub id: i32,
    pub state: HatState,
    pub which: u8,
}

/// What a decoded event refers to.
#[derive(Clone, Copy, PartialEq, Eq, Structural, Debug, Hash)]
pub enum Button {
    Controller(ControllerButton),
    Hat(ControllerHat),
}

/// One decoded event: a press or release of a button or hat direction.
#[derive(Clone, Copy, PartialEq, Eq, Structural, Debug, Hash)]
pub struct ButtonArgs {
    pub state: ButtonState,
    pub button: Button,
}

/// Identifiers in this range are directions, not ordinary buttons.
pub open spec fn is_hat_id(id: u8) -> bool {
    13 <= id <= 24
}

/// Direction of a hat identifier: `id % 4` gives Down, Left, Up, Right.
pub open spec fn hat_direction(id: u8) -> HatState {
    if id % 4 == 0 {
        HatState::Down
    } else if id % 4 == 1 {
        HatState::Left
    } else if id % 4 == 2 {
        HatState::Up
    } else {
        HatState::Right
    }
}

/// The press flag of events decoded under a transition state.
pub open spec fn state_flag(state: LibnxKeyState) -> ButtonState {
    if state == LibnxKeyState::Up {
        ButtonState::Release
    } else {
        ButtonState::Press
    }
}

/// The button or hat that identifier `id` stands for.
pub open spec fn button_of(controller: i32, id: u8) -> Button {
    if is_hat_id(id) {
        Button::Hat(ControllerHat { id: controller, state: hat_direction(id), which: id })
    } else {
        Button::Controller(ControllerButton { id: controller, button: id })
    }
}

/// The event for identifier `id` under a transition state.
pub open spec fn key_event(controller: i32, state: LibnxKeyState, id: u8) -> ButtonArgs {
    ButtonArgs { state: state_flag(state), button: button_of(controller, id) }
}

/// Whether bit `idx` of `keys` is set.
pub open spec fn key_bit(keys: u32, idx: u32) -> bool {
    keys & (1u32 << idx) != 0u32
}

/// Events for the set bits among the lowest `n` bits of `keys`, lowest bit first.
pub open spec fn decoded_prefix(controller: i32, state: LibnxKeyState, keys: u32, n: nat) -> Seq<
    ButtonArgs,
>
    decreases n,
{
    if n == 0 {
        Seq::empty()
    } else {
        let rest = decoded_prefix(controller, state, keys, (n - 1) as nat);
        if key_bit(keys, (n - 1) as u32) {
            rest.push(key_event(controller, state, n as u8))
        } else {
            rest
        }
    }
}

/// The events that a key mask decodes to: none when held, else one per set bit,
/// in increasing bit order.
pub open spec fn decoded(controller: i32, state: LibnxKeyState, keys: u32) -> Seq<ButtonArgs> {
    if state == LibnxKeyState::Held {
        Seq::empty()
    } else {
        decoded_prefix(controller, state, keys, 32)
    }
}

/// Decodes a key mask read under `state` into events, one per set bit in
/// increasing bit order; a held mask gives none.
pub fn parse_key_events(controller: i32, state: LibnxKeyState, keys: u32) -> (r: Vec<ButtonArgs>)
    ensures
        r@ == decoded(controller, state, keys),
        state == LibnxKeyState::Held ==> r@.len() == 0,
{
    let mut retval: Vec<ButtonArgs> = Vec::new();
    if state == LibnxKeyState::Held {
        return retval;
    }
    let mut idx: u32 = 0;
    while idx < 32
        invariant
            idx <= 32,
            state != LibnxKeyState::Held,
            retval@ == decoded_prefix(controller, state, keys, idx as nat),
        decreases 32 - idx,
    {
        let mask: u32 = 1u32 << idx;
        if mask & keys != 0 {
            let button: u8 = (idx + 1) as u8;
            retval.push(parse_args(controller, state, button));
        }
        proof {
            assert(mask & keys == keys & mask) by (bit_vector);
        }
        idx = idx + 1;
    }
    retval
}

/// The event for one identifier under a transition state.
pub fn parse_args(controller: i32, state: LibnxKeyState, button: u8) -> (r: ButtonArgs)
    ensures
        r == key_event(controller, state, button),
        r.state == (if state == LibnxKeyState::Up {
            ButtonState::Release
        } else {
            ButtonState::Press
        }),
{
    let btn = parse_button(controller, button);
    let arg_state = match state {
        LibnxKeyState::Up => ButtonState::Release,
        _ => ButtonState::Press,
    };
    ButtonArgs { state: arg_state, button: btn }
}

/// The button or hat that an identifier stands for: a hat direction for
/// identifiers 13 to 24, an ordinary button otherwise.
pub fn parse_button(controller: i32, button: u8) -> (r: Button)
    ensures
        r == button_of(controller, button),
        13 <= button <= 24 ==> r == Button::Hat(
            ControllerHat {
                id: controller,
                which: button,
                state: if button % 4 == 0 {
                    HatState::Down
                } else if button % 4 == 1 {
                    HatState::Left
                } else if button % 4 == 2 {
                    HatState::Up
                } else {
                    HatState::Right
                },
            },
        ),
        !(13 <= button <= 24) ==> r == Button::Controller(
            ControllerButton { id: controller, button },
        ),
{
    match parse_hat_event(controller, button) {
        Some(hat) => Button::Hat(hat),
        None => Button::Controller(parse_button_event(controller, button)),
    }
}

/// An ordinary button of controller `controller`.
pub fn parse_button_event(controller: i32, button: u8) -> (r: ControllerButton)
    ensures
        r == (ControllerButton { id: controller, button }),
{
    ControllerButton { id: controller, button }
}

/// The hat direction that an identifier stands for, if it is one.
pub fn parse_hat_event(controller: i32, button: u8) -> (r: Option<ControllerHat>)
    ensures
        r is Some <==> is_hat_id(button),
        r is Some ==> r == Some(
            ControllerHat { id: controller, state: hat_direction(button), which: button },
        ),
{
    if button < 13 || button > 24 {
        None
    } else {
        let dirnum: u8 = button % 4;
        let state = if dirnum == 0 {
            HatState::Down
        } else if dirnum == 1 {
            HatState::Left
        } else if dirnum == 2 {
            HatState::Up
        } else {
            HatState::Right
        };
        Some(ControllerHat { id: controller, state, which: button })
    }
}

proof fn lemma_single_bit_prefix(controller: i32, state: LibnxKeyState, i: u32, n: nat)
    requires
        i < 32,
        n <= 32,
    ensures
        decoded_prefix(controller, state, 1u32 << i, n) == (if n <= i {
            Seq::<ButtonArgs>::empty()
        } else {
            seq![key_event(controller, state, (i + 1) as u8)]
        }),
    decreases n,
{
    if n > 0 {
        lemma_single_bit_prefix(controller, state, i, (n - 1) as nat);
        let j = (n - 1) as u32;
        assert(((1u32 << i) & (1u32 << j) != 0u32) == (i == j)) by (bit_vector)
            requires
                i < 32,
                j < 32,
        ;
    }
}

/// A mask with only bit `i` set, read as pressed, decodes to exactly one press
/// event, with identifier `i + 1` and controller `controller`.
pub proof fn lemma_single_bit(controller: i32, i: u32)
    requires
        i < 32,
    ensures
        decoded(controller, LibnxKeyState::Down, 1u32 << i) == seq![
            key_event(controller, LibnxKeyState::Down, (i + 1) as u8),
        ],
        key_event(controller, LibnxKeyState::Down, (i + 1) as u8).state == ButtonState::Press,
{
    lemma_single_bit_prefix(controller, LibnxKeyState::Down, i, 32);
}

proof fn lemma_empty_prefix(controller: i32, state: LibnxKeyState, n: nat)
    requires
        n <= 32,
    ensures
        decoded_prefix(controller, state, 0u32, n) == Seq::<ButtonArgs>::empty(),
    decreases n,
{
    if n > 0 {
        lemma_empty_prefix(controller, state, (n - 1) as nat);
        let j = (n - 1) as u32;
        assert(0u32 & (1u32 << j) == 0u32) by (bit_vector);
    }
}

/// The empty mask decodes to no events, whatever the transition state.
pub proof fn lemma_empty_mask(controller: i32, state: LibnxKeyState)
    ensures
        decoded(controller, state, 0u32) == Seq::<ButtonArgs>::empty(),
{
    lemma_empty_prefix(controller, state, 32);
}

proof fn lemma_full_prefix(controller: i32, state: LibnxKeyState, n: nat)
    requires
        n <= 32,
    ensures
        decoded_prefix(controller, state, 0xFFFF_FFFFu32, n).len() == n,
        forall|k: int|
            0 <= k < n ==> #[trigger] decoded_prefix(controller, state, 0xFFFF_FFFFu32, n)[k]
                == key_event(controller, state, (k + 1) as u8),
    decreases n,
{
    if n > 0 {
        lemma_full_prefix(controller, state, (n - 1) as nat);
        let j = (n - 1) as u32;
        assert(0xFFFF_FFFFu32 & (1u32 << j) != 0u32) by (bit_vector)
            requires
                j < 32,
        ;
    }
}

/// The full mask read as pressed decodes to 32 press events, with identifiers
/// 1 to 32 in increasing order.
pub proof fn lemma_full_mask(controller: i32)
    ensures
        decoded(controller, LibnxKeyState::Down, 0xFFFF_FFFFu32).len() == 32,
        forall|k: int|
            0 <= k < 32 ==> #[trigger] decoded(controller, LibnxKeyState::Down, 0xFFFF_FFFFu32)[k]
                == key_event(controller, LibnxKeyState::Down, (k + 1) as u8),
{
    lemma_full_prefix(controller, LibnxKeyState::Down, 32);
}

} // verus!
