//! Read-only presentation decisions: the health classification each
//! worker's lifecycle state maps to, which control actions are usable,
//! and the syntax check on a distribution-service token.
//!
//! The rendering itself (panels, labels, hover text) belongs to the
//! excluded presentation layer; what it shows is decided here.

use vstd::prelude::*;

use crate::digits::{all_digits, spec_all_digits};
use crate::process::ProcessState;

verus! {

/// Health classification of a worker for the status row: green is
/// healthy, gray stopped, red failed, orange degraded, yellow in
/// transition.
#[derive(Clone, Copy, Debug, PartialEq, Eq, Structural)]
pub enum StatusColor {
    Green,
    Gray,
    Red,
    Orange,
    Yellow,
}

/// Classifies the node worker's state.
pub fn status_node(state: ProcessState) -> (c: StatusColor)
    ensures
        c == (match state {
            ProcessState::Alive => StatusColor::Green,
            ProcessState::Dead => StatusColor::Gray,
            ProcessState::Failed => StatusColor::Red,
            ProcessState::Syncing => StatusColor::Orange,
            _ => StatusColor::Yellow,
        }),
{
    match state {
        ProcessState::Alive => StatusColor::Green,
        ProcessState::Dead => StatusColor::Gray,
        ProcessState::Failed => StatusColor::Red,
        ProcessState::Syncing => StatusColor::Orange,
        _ => StatusColor::Yellow,
    }
}

/// Classifies the pool coordinator's state.
pub fn status_p2pool(state: ProcessState) -> (c: StatusColor)
    ensures
        c == (match state {
            ProcessState::Alive => StatusColor::Green,
            ProcessState::Dead => StatusColor::Gray,
            ProcessState::Failed => StatusColor::Red,
            ProcessState::Syncing => StatusColor::Orange,
            _ => StatusColor::Yellow,
        }),
{
    match state {
        ProcessState::Alive => StatusColor::Green,
        ProcessState::Dead => StatusColor::Gray,
        ProcessState::Failed => StatusColor::Red,
        ProcessState::Syncing => StatusColor::Orange,
        _ => StatusColor::Yellow,
    }
}

/// Classifies the hashing engine's state: an engine that is up but not
/// mining is degraded, not merely in transition.
pub fn status_xmrig(state: ProcessState) -> (c: StatusColor)
    ensures
        c == (match state {
            ProcessState::Alive => StatusColor::Green,
            ProcessState::Dead => StatusColor::Gray,
            ProcessState::Failed => StatusColor::Red,
            ProcessState::NotMining | ProcessState::OfflineNodesAll => StatusColor::Orange,
            _ => StatusColor::Yellow,
        }),
{
    match state {
        ProcessState::Alive => StatusColor::Green,
        ProcessState::Dead => StatusColor::Gray,
        ProcessState::Failed => StatusColor::Red,
        ProcessState::NotMining | ProcessState::OfflineNodesAll => StatusColor::Orange,
        _ => StatusColor::Yellow,
    }
}

/// Classifies the proxy worker's state, as for the hashing engine.
pub fn status_xp(state: ProcessState) -> (c: StatusColor)
    ensures
        c == (match state {
            ProcessState::Alive => StatusColor::Green,
            ProcessState::Dead => StatusColor::Gray,
            ProcessState::Failed => StatusColor::Red,
            ProcessState::NotMining | ProcessState::OfflineNodesAll => StatusColor::Orange,
            _ => StatusColor::Yellow,
        }),
{
    match state {
        ProcessState::Alive => StatusColor::Green,
        ProcessState::Dead => StatusColor::Gray,
        ProcessState::Failed => StatusColor::Red,
        ProcessState::NotMining | ProcessState::OfflineNodesAll => StatusColor::Orange,
        _ => StatusColor::Yellow,
    }
}

/// Classifies the distribution client's state: a client running on
/// public stats alone is degraded.
pub fn status_xvb(state: ProcessState) -> (c: StatusColor)
    ensures
        c == (match state {
            ProcessState::Alive => StatusColor::Green,
            ProcessState::Dead => StatusColor::Gray,
            ProcessState::Failed => StatusColor::Red,
            ProcessState::NotMining | ProcessState::Syncing | ProcessState::OfflineNodesAll
                => StatusColor::Orange,
            _ => StatusColor::Yellow,
        }),
{
    match state {
        ProcessState::Alive => StatusColor::Green,
        ProcessState::Dead => StatusColor::Gray,
        ProcessState::Failed => StatusColor::Red,
        ProcessState::NotMining | ProcessState::Syncing | ProcessState::OfflineNodesAll
            => StatusColor::Orange,
        _ => StatusColor::Yellow,
    }
}

/// Which control actions are usable for a worker: none while a
/// transition is in flight, restart and stop while a child is owned,
/// only start otherwise.
#[derive(Clone, Copy, Debug, PartialEq, Eq, Structural)]
pub struct RunActionGate {
    pub restart: bool,
    pub stop: bool,
    pub start: bool,
}

/// Gates the control actions on the worker's transition and liveness
/// flags.
pub fn run_action_gate(is_waiting: bool, is_alive: bool) -> (g: RunActionGate)
    ensures
        is_waiting ==> !g.restart && !g.stop && !g.start,
        !is_waiting && is_alive ==> g.restart && g.stop && !g.start,
        !is_waiting && !is_alive ==> !g.restart && !g.stop && g.start,
{
    if is_waiting {
        RunActionGate { restart: false, stop: false, start: false }
    } else if is_alive {
        RunActionGate { restart: true, stop: true, start: false }
    } else {
        RunActionGate { restart: false, stop: false, start: true }
    }
}

/// A distribution-service token is nine decimal digits.
pub open spec fn spec_token_ok(s: Seq<char>) -> bool {
    s.len() == 9 && spec_all_digits(s)
}

/// Checks the syntax of a distribution-service token: exactly nine
/// decimal digits (so its value always fits a 32-bit integer).
pub fn xvb_token_ok(token: &str) -> (r: bool)
    ensures
        r == spec_token_ok(token@),
{
    token.unicode_len() == 9 && all_digits(token)
}

/// The start gate of the distribution client: the account address must
/// be well-formed (checked by the excluded presentation layer's address
/// validator) and the token syntax must hold.
pub fn xvb_start_ready(address_ok: bool, token: &str) -> (r: bool)
    ensures
        r == (address_ok && spec_token_ok(token@)),
{
    address_ok && xvb_token_ok(token)
}

} // verus!
