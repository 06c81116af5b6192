//! Scoped holder for the elevation secret.
//!
//! The secret is kept only long enough to feed a spawned child's stdin.
//! Every way of getting the secret out of the holder empties it in the
//! same step, so no exit path can leave it behind.

use vstd::prelude::*;

use crate::process::ProcessSignal;

verus! {

/// Elevation state: the secret and the control signal the elevation prompt
/// was opened for.
#[derive(Debug)]
pub struct SudoState {
    pub pass: String,
    pub signal: ProcessSignal,
}

impl SudoState {
    /// An empty holder with no pending signal.
    pub fn new() -> (r: Self)
        ensures
            r.pass@.len() == 0,
            r.signal == ProcessSignal::Idle,
    {
        SudoState { pass: String::new(), signal: ProcessSignal::Idle }
    }

    /// Whether the secret has been cleared.
    pub fn is_wiped(&self) -> (r: bool)
        ensures
            r == (self.pass@.len() == 0),
    {
        self.pass.as_str().is_empty()
    }

    /// Clears the secret, keeping the signal.
    pub fn wipe(&mut self)
        ensures
            final(self).pass@.len() == 0,
            final(self).signal == old(self).signal,
    {
        self.pass = String::new();
    }

    /// Hands the secret out for one use and clears the holder in the same
    /// step, so the caller cannot forget to wipe it.
    pub fn take_pass(&mut self) -> (r: String)
        ensures
            r@ == old(self).pass@,
            final(self).pass@.len() == 0,
            final(self).signal == old(self).signal,
    {
        let mut taken = String::new();
        core::mem::swap(&mut taken, &mut self.pass);
        taken
    }
}

} // verus!
