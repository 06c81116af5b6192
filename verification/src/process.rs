//! Per-worker lifecycle model: the state a watchdog publishes, the signal a
//! control surface writes, and the record that owns both together with the
//! worker's output buffers and queued input.

use vstd::prelude::*;

verus! {

/// Lifecycle state of one worker process. Exactly one value holds at any
/// time; only the worker's own watchdog mutates it.
#[derive(Clone, Copy, Debug, PartialEq, Eq, Structural)]
pub enum ProcessState {
    Alive,
    Dead,
    Failed,
    Syncing,
    Waiting,
    Middle,
    NotMining,
    OfflineNodesAll,
}

/// Pending control signal for one worker. The control surface writes it;
/// the watchdog consumes and resets it.
#[derive(Clone, Copy, Debug, PartialEq, Eq, Structural)]
pub enum ProcessSignal {
    Idle,
    Start,
    Stop,
    Restart,
}

/// One worker's control record: lifecycle state, pending signal, start
/// timestamp, queued input lines, and the two output buffers (a parse
/// buffer drained every cycle and a display buffer kept for presentation).
#[derive(Debug)]
pub struct Process {
    pub state: ProcessState,
    pub signal: ProcessSignal,
    /// Timestamp (milliseconds, driver-supplied clock) of the last start.
    pub start_ms: u64,
    /// Lines queued for the child's stdin.
    pub input: Vec<String>,
    /// Buffer consumed by marker matching, cleared every cycle.
    pub output_parse: String,
    /// Buffer retained for presentation, truncated past a size ceiling.
    pub output_pub: String,
}

impl Process {
    /// A fresh record: no child yet, nothing queued, nothing captured.
    pub fn new() -> (r: Self)
        ensures
            r.state == ProcessState::Dead,
            r.signal == ProcessSignal::Idle,
            r.start_ms == 0,
            r.input@.len() == 0,
            r.output_parse@.len() == 0,
            r.output_pub@.len() == 0,
    {
        Process {
            state: ProcessState::Dead,
            signal: ProcessSignal::Idle,
            start_ms: 0,
            input: Vec::new(),
            output_parse: String::new(),
            output_pub: String::new(),
        }
    }

    /// Whether a start/stop/restart transition is in flight for this worker.
    pub fn is_waiting(&self) -> (r: bool)
        ensures
            r == (self.state == ProcessState::Middle || self.state == ProcessState::Waiting),
    {
        self.state == ProcessState::Middle || self.state == ProcessState::Waiting
    }

    /// Whether the worker currently owns a running child.
    pub fn is_alive(&self) -> (r: bool)
        ensures
            r == (self.state == ProcessState::Alive || self.state == ProcessState::Middle
                || self.state == ProcessState::Syncing || self.state == ProcessState::NotMining
                || self.state == ProcessState::OfflineNodesAll),
    {
        self.state == ProcessState::Alive || self.state == ProcessState::Middle
            || self.state == ProcessState::Syncing || self.state == ProcessState::NotMining
            || self.state == ProcessState::OfflineNodesAll
    }
}

impl Process {
    /// Drains the queued input lines for delivery to the child's stdin.
    pub fn take_input(&mut self) -> (r: Vec<String>)
        ensures
            r == old(self).input,
            final(self).input@.len() == 0,
            final(self).state == old(self).state,
            final(self).signal == old(self).signal,
            final(self).start_ms == old(self).start_ms,
            final(self).output_parse == old(self).output_parse,
            final(self).output_pub == old(self).output_pub,
    {
        let mut taken: Vec<String> = Vec::new();
        core::mem::swap(&mut taken, &mut self.input);
        taken
    }

    /// Queues one line for the child's stdin.
    pub fn queue_input(&mut self, line: String)
        ensures
            final(self).input@ == old(self).input@.push(line),
            final(self).state == old(self).state,
            final(self).signal == old(self).signal,
            final(self).start_ms == old(self).start_ms,
            final(self).output_parse == old(self).output_parse,
            final(self).output_pub == old(self).output_pub,
    {
        self.input.push(line);
    }
}

/// A worker is never in two lifecycle states at once: in particular it is
/// never simultaneously `Alive` and `Failed`, since `state` is one enum
/// value.
pub proof fn lemma_state_exclusive(s: ProcessState)
    ensures
        !(s == ProcessState::Alive && s == ProcessState::Failed),
{
}

} // verus!
