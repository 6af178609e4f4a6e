//! The single-slot cell that hands snapshots from the device thread to the
//! notifier tasks.
//!
//! The device thread is the cell's sole writer; every notifier holds a
//! [`KeyInputReader`] and only loads. The cell replaces and returns whole
//! values: a load observes one prior store (or the initial value) in full,
//! never a mixture of two. Readers run concurrently with the writer, so
//! which store a load observes is not determined; [`cell_value`] tracks
//! what the writer last stored through its own exclusive handle.

use std::sync::Arc;

use crossbeam::atomic::AtomicCell;
use vstd::prelude::*;

use crate::input_state::{init_state, KeyInput};

verus! {

/// The writer's handle to the shared cell. It is the only handle that can
/// store, and it is not cloneable, so the cell's content is always the
/// writer's last store.
#[verifier::external_body]
pub struct KeyInputCell {
    inner: Arc<AtomicCell<KeyInput>>,
}

/// A reader's handle to the shared cell: it can only load.
#[verifier::external_body]
pub struct KeyInputReader {
    inner: Arc<AtomicCell<KeyInput>>,
}

impl Clone for KeyInputReader {
    /// Relies on `Arc::clone`: the new reader shares the same cell.
    #[verifier::external_body]
    fn clone(&self) -> (r: Self) {
        KeyInputReader { inner: Arc::clone(&self.inner) }
    }
}

/// What the cell behind a writer handle holds: the snapshot the writer last
/// stored, or the initial snapshot before any store.
pub uninterp spec fn cell_value(cell: KeyInputCell) -> KeyInput;

impl KeyInputCell {
    /// Relies on crossbeam's `AtomicCell::new`: the cell starts out holding
    /// the given snapshot.
    #[verifier::external_body]
    fn new(v: KeyInput) -> (r: KeyInputCell)
        ensures
            cell_value(r) == v,
    {
        KeyInputCell { inner: Arc::new(AtomicCell::new(v)) }
    }

    /// Relies on crossbeam's `AtomicCell::store`: it replaces the cell's
    /// content with the given snapshot, whole. No other handle stores, so
    /// the content is now this snapshot.
    #[verifier::external_body]
    pub fn store(&mut self, v: KeyInput)
        ensures
            cell_value(*final(self)) == v,
    {
        self.inner.store(v);
    }

    /// Relies on `Arc::clone`: the reader shares this writer's cell.
    #[verifier::external_body]
    pub fn reader(&self) -> (r: KeyInputReader) {
        KeyInputReader { inner: Arc::clone(&self.inner) }
    }
}

impl KeyInputReader {
    /// Relies on crossbeam's `AtomicCell::load`: it returns a copy of the
    /// cell's content, whole — one value some store put there, never bytes
    /// of two. Loads race with the writer, so nothing ties the copy to the
    /// writer handle's last store.
    #[verifier::external_body]
    pub fn load(&self) -> (r: KeyInput) {
        self.inner.load()
    }
}

/// Create the shared cell holding the startup snapshot, with one reader
/// handle for the notifiers.
pub fn create_state_cell() -> (r: (KeyInputCell, KeyInputReader))
    ensures
        cell_value(r.0) == init_state(),
{
    let cell = KeyInputCell::new(KeyInput::init());
    let reader = cell.reader();
    (cell, reader)
}

/// Fold one device event into the working snapshot and publish the result:
/// the device thread's step for every button or axis event it reads.
pub fn apply_device_event(
    cell: &mut KeyInputCell,
    working: &mut KeyInput,
    event: crate::device::Event,
)
    requires
        !(event is Disconnected),
        !(event is Error),
    ensures
        *final(working) == crate::mapping::update_spec(*old(working), event),
        cell_value(*final(cell)) == *final(working),
{
    crate::mapping::update_key_input(working, event);
    cell.store(*working);
}

} // verus!
