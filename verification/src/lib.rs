//! Process-supervision and watchdog engine for a set of long-running
//! external worker processes (a node, a pool coordinator, hashing engines,
//! and a pool-distribution client).
//!
//! The crate holds the decision logic of the engine: the per-worker
//! lifecycle state machine, output-marker matching, launch-argument
//! construction, status-schema normalization, and the pool-distribution
//! rules. The surrounding I/O (pseudo-terminals, HTTP polling, privileged
//! kills) is performed by a thin unverified driver that feeds plain values
//! into these functions and carries their decisions out.

pub mod digits;
pub mod matcher;
pub mod process;
pub mod pty;
pub mod status;
pub mod sudo;
pub mod tokens;
pub mod xmrig;
pub mod xvb;
