//! Mapping from backend button codes and axis values to the snapshot.
//!
//! Button codes 0..=6 select the seven normal-button bits B1..=B7 and codes
//! 8..=11 the four option-button bits E1..=E4, one bit per code and in
//! order; every other code is unmapped and changes nothing. The axis value
//! keeps the raw joystick convention: the backend reports the 8-bit raw
//! position in the high byte of a signed 16-bit value, and the scratch
//! position doubles it, wrapping modulo 255.

use vstd::prelude::*;

use crate::device::Event;
use crate::input_state::KeyInput;

verus! {

/// The normal-button bit selected by a backend code: codes 0..=6 map to
/// bits B1..=B7 in order, every other code is unmapped.
pub open spec fn normal_button_spec(code: u8) -> Option<u8> {
    match code {
        0u8 => Some(0x01u8),
        1u8 => Some(0x02u8),
        2u8 => Some(0x04u8),
        3u8 => Some(0x08u8),
        4u8 => Some(0x10u8),
        5u8 => Some(0x20u8),
        6u8 => Some(0x40u8),
        _ => None,
    }
}

/// The option-button bit selected by a backend code: codes 8..=11 map to
/// bits E1..=E4 in order, every other code is unmapped.
pub open spec fn option_button_spec(code: u8) -> Option<u8> {
    match code {
        8u8 => Some(0x01u8),
        9u8 => Some(0x02u8),
        10u8 => Some(0x04u8),
        11u8 => Some(0x08u8),
        _ => None,
    }
}

/// Look up the normal-button bit for a backend code.
pub fn normal_button(code: u8) -> (r: Option<u8>)
    ensures
        r == normal_button_spec(code),
{
    match code {
        0 => Some(0x01),
        1 => Some(0x02),
        2 => Some(0x04),
        3 => Some(0x08),
        4 => Some(0x10),
        5 => Some(0x20),
        6 => Some(0x40),
        _ => None,
    }
}

/// Look up the option-button bit for a backend code.
pub fn option_button(code: u8) -> (r: Option<u8>)
    ensures
        r == option_button_spec(code),
{
    match code {
        8 => Some(0x01),
        9 => Some(0x02),
        10 => Some(0x04),
        11 => Some(0x08),
        _ => None,
    }
}

/// The raw 8-bit position carried in the high byte of a signed 16-bit axis
/// value, read as 0..=255.
pub open spec fn high_byte(value: i16) -> int {
    ((value as int) % 0x10000) / 0x100
}

/// The scratch position for a 16-bit axis value: the high byte doubled for
/// sensitivity, wrapping modulo 255.
pub open spec fn scratch_spec(value: i16) -> u8 {
    ((high_byte(value) * 2) % 255) as u8
}

/// Convert a 16-bit axis value to the 8-bit scratch position: take the high
/// byte (the backend's raw position) and double it, wrapping modulo 255.
pub fn convert_scratch(value: i16) -> (r: u8)
    ensures
        r == scratch_spec(value),
{
    let masked: i16 = (value >> 8) & 0xFF;
    proof {
        assert(0 <= (value >> 8) & 0xFF < 256 && ((value >> 8) & 0xFF) as int == ((
        value as int) % 0x10000) / 0x100) by (bit_vector);
    }
    let hi: u8 = masked as u8;
    let doubled: u16 = (hi as u16) * 2;
    (doubled % 0xFF) as u8
}

/// The snapshot after one device event: a button press sets the mapped bit,
/// a release clears it, an unmapped code changes nothing, and an axis change
/// replaces the scratch position.
pub open spec fn update_spec(s: KeyInput, e: Event) -> KeyInput {
    match e {
        Event::ButtonPressed(code) => {
            let s1 = match normal_button_spec(code) {
                Some(mask) => KeyInput { normal_button: s.normal_button | mask, ..s },
                None => s,
            };
            match option_button_spec(code) {
                Some(mask) => KeyInput { option_button: s1.option_button | mask, ..s1 },
                None => s1,
            }
        },
        Event::ButtonReleased(code) => {
            let s1 = match normal_button_spec(code) {
                Some(mask) => KeyInput { normal_button: s.normal_button & !mask, ..s },
                None => s,
            };
            match option_button_spec(code) {
                Some(mask) => KeyInput { option_button: s1.option_button & !mask, ..s1 },
                None => s1,
            }
        },
        Event::AxisChanged(_axis, value) => KeyInput { scratch: scratch_spec(value), ..s },
        _ => s,
    }
}

/// Fold one device event into the working snapshot. Disconnect and error
/// events never reach this function: the read loop ends on them instead.
pub fn update_key_input(key_input: &mut KeyInput, event: Event)
    requires
        !(event is Disconnected),
        !(event is Error),
    ensures
        *final(key_input) == update_spec(*old(key_input), event),
{
    match event {
        Event::ButtonPressed(code) => {
            match normal_button(code) {
                Some(mask) => {
                    key_input.normal_button = key_input.normal_button | mask;
                },
                None => {},
            }
            match option_button(code) {
                Some(mask) => {
                    key_input.option_button = key_input.option_button | mask;
                },
                None => {},
            }
        },
        Event::ButtonReleased(code) => {
            match normal_button(code) {
                Some(mask) => {
                    key_input.normal_button = key_input.normal_button & !mask;
                },
                None => {},
            }
            match option_button(code) {
                Some(mask) => {
                    key_input.option_button = key_input.option_button & !mask;
                },
                None => {},
            }
        },
        Event::AxisChanged(_axis, value) => {
            key_input.scratch = convert_scratch(value);
        },
        Event::Disconnected => {},
        Event::Error(_) => {},
    }
}

/// A button bit set holds exactly one of the eight bits.
pub open spec fn single_bit(mask: u8) -> bool {
    mask == 0x01 || mask == 0x02 || mask == 0x04 || mask == 0x08 || mask == 0x10 || mask == 0x20
        || mask == 0x40 || mask == 0x80
}

/// The button mapping is injective over its defined domain: each of the
/// codes 0..=6 selects one distinct normal-button bit, each of the codes
/// 8..=11 one distinct option-button bit, and every code outside those
/// ranges is unmapped, so pressing or releasing it leaves the snapshot
/// unchanged.
pub proof fn lemma_button_mapping_injective()
    ensures
        forall|code: u8|
            code <= 6 ==> ((#[trigger] normal_button_spec(code)) matches Some(mask)
                && single_bit(mask)),
        forall|code: u8|
            8 <= code <= 11 ==> ((#[trigger] option_button_spec(code)) matches Some(mask)
                && single_bit(mask)),
        forall|c1: u8, c2: u8|
            c1 <= 6 && c2 <= 6 && c1 != c2 ==> #[trigger] normal_button_spec(c1)
                != #[trigger] normal_button_spec(c2),
        forall|c1: u8, c2: u8|
            8 <= c1 <= 11 && 8 <= c2 <= 11 && c1 != c2 ==> #[trigger] option_button_spec(c1)
                != #[trigger] option_button_spec(c2),
        forall|code: u8| code > 6 ==> (#[trigger] normal_button_spec(code)) is None,
        forall|code: u8|
            !(8 <= code <= 11) ==> (#[trigger] option_button_spec(code)) is None,
        forall|s: KeyInput, code: u8|
            code > 6 && !(8 <= code <= 11) ==> #[trigger] update_spec(
                s,
                Event::ButtonPressed(code),
            ) == s && update_spec(s, Event::ButtonReleased(code)) == s,
{
}

} // verus!
