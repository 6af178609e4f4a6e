//! The canonical controller snapshot and the notification payload codec.
//!
//! A [`KeyInput`] value captures the turntable position (`scratch`) and the
//! two digital button groups as bit sets: seven "normal" buttons in
//! `normal_button` (bits 0..=6) and four "option" buttons in `option_button`
//! (bits 0..=3). The payload codec turns one snapshot plus an 8-bit rolling
//! counter into the fixed 10-byte frame that the characteristic notifies.

use vstd::prelude::*;

verus! {

/// One snapshot of the controller: analog scratch position plus the two
/// button bit sets. Copied by value on every hand-off; there is no partially
/// written state to observe.
#[derive(Clone, Copy, Debug, PartialEq, Eq, Structural)]
pub struct KeyInput {
    /// Analog turntable position, 0..=255.
    pub scratch: u8,
    /// Normal buttons B1..=B7, one bit each in bits 0..=6.
    pub normal_button: u8,
    /// Option buttons E1..=E4, one bit each in bits 0..=3.
    pub option_button: u8,
}

/// The all-released, centered snapshot every run starts from.
pub open spec fn init_state() -> KeyInput {
    KeyInput { scratch: 0, normal_button: 0, option_button: 0 }
}

/// The 10-byte notification frame for a snapshot `s` and rolling counter
/// `counter`: the same snapshot twice (two legacy strobe rows), the first row
/// carrying `counter` and the second `counter + 1` modulo 256.
pub open spec fn payload_spec(s: KeyInput, counter: u8) -> Seq<u8> {
    seq![
        s.scratch,
        0u8,
        s.normal_button,
        s.option_button,
        counter,
        s.scratch,
        0u8,
        s.normal_button,
        s.option_button,
        (((counter as int) + 1) % 256) as u8,
    ]
}

impl KeyInput {
    /// The snapshot used at startup: scratch centered at zero, every button
    /// released.
    pub fn init() -> (r: Self)
        ensures
            r == init_state(),
    {
        Self { scratch: 0x00, normal_button: 0, option_button: 0 }
    }

    /// Encode this snapshot into the 10-byte notification frame for the
    /// given rolling counter. The counter byte of the second row wraps
    /// modulo 256, so a counter of 255 is followed by 0.
    pub fn to_payload(&self, counter: u8) -> (r: [u8; 10])
        ensures
            r@ == payload_spec(*self, counter),
    {
        let second_counter: u8 = if counter == 255 { 0 } else { counter + 1 };
        let r: [u8; 10] = [
            self.scratch,
            0x00,
            self.normal_button,
            self.option_button,
            counter,
            self.scratch,
            0x00,
            self.normal_button,
            self.option_button,
            second_counter,
        ];
        proof {
            assert(r@ =~= payload_spec(*self, counter));
        }
        r
    }
}

impl Default for KeyInput {
    /// The default snapshot equals the startup snapshot.
    fn default() -> (r: Self)
        ensures
            r == init_state(),
    {
        Self { scratch: 0, normal_button: 0, option_button: 0 }
    }
}

/// The two rows of a frame repeat the snapshot: bytes 0..=3 equal bytes
/// 5..=8, byte 4 is the rolling counter and byte 9 its successor modulo 256.
pub proof fn lemma_payload_rows(s: KeyInput, counter: u8)
    ensures
        payload_spec(s, counter).len() == 10,
        payload_spec(s, counter)[4] == counter,
        payload_spec(s, counter)[9] == ((counter as int) + 1) % 256,
        forall|i: int|
            0 <= i < 4 ==> #[trigger] payload_spec(s, counter)[i] == payload_spec(
                s,
                counter,
            )[i + 5],
{
}

} // verus!
