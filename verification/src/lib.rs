//! Bridge from a game controller's input state to a BLE GATT notification
//! stream.
//!
//! The crate models the canonical input snapshot ([`input_state::KeyInput`]),
//! the fixed wire frame pushed to subscribers, the button/axis mapping of the
//! Linux joystick backend, the single-slot atomic cell that hands snapshots
//! from the reader thread to the notifiers, and the per-characteristic
//! subscription state machine.

pub mod device;
pub mod input_state;
pub mod mapping;
pub mod notify;
pub mod shared_cell;

pub use input_state::KeyInput;
