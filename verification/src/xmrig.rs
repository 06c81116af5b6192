//! The hashing-engine worker: its configuration, its normalized status
//! snapshot, the wire schema of its local status endpoint, and the
//! watchdog decisions that drive its lifecycle.
//!
//! The watchdog loop itself lives in an unverified driver; every decision
//! it takes — exit classification, stop/restart handling, marker-derived
//! transitions, schema normalization, pacing — is a function here with an
//! exact contract.

use vstd::prelude::*;

use crate::digits::{spec_decimal, u64_to_string};
use crate::matcher::{contains_str, is_match, lemma_empty_buffer_no_match, str_eq};
use crate::process::{Process, ProcessSignal, ProcessState};
use crate::tokens::{spec_tokens, split_ascii_whitespace, views_of};

verus! {

/// Target cadence of one watchdog cycle, in milliseconds.
pub const WATCHDOG_CADENCE_MS: u64 = 900;

/// Timeout of one status-endpoint request, in milliseconds.
pub const API_TIMEOUT_MS: u64 = 500;

/// Ceiling on the retained display buffer, in characters.
pub const GUI_OUTPUT_CEILING: usize = 500000;

/// Per-worker settings read at start time from the excluded configuration
/// collaborator, handed in as plain values.
#[derive(Clone, Debug)]
pub struct Xmrig {
    pub simple: bool,
    pub simple_rig: String,
    pub arguments: String,
    pub address: String,
    pub ip: String,
    pub port: String,
    pub rig: String,
    pub api_ip: String,
    pub api_port: String,
    pub tls: bool,
    pub keepalive: bool,
    pub pause: u8,
    pub current_threads: usize,
}

/// The launch image shown for the worker: the settings its child was
/// actually started with.
#[derive(Clone, Debug)]
pub struct ImgXmrig {
    pub threads: String,
    pub url: String,
}

impl ImgXmrig {
    pub fn new() -> (r: Self)
        ensures
            r.threads@ == "???"@,
            r.url@ == "???"@,
    {
        ImgXmrig { threads: String::from_str("???"), url: String::from_str("???") }
    }
}

impl Default for ImgXmrig {
    fn default() -> (r: Self)
        ensures
            r.threads@ == "???"@,
            r.url@ == "???"@,
    {
        ImgXmrig::new()
    }
}

/// Normalized public snapshot of the worker: rebuilt wholesale on each
/// successful schema fetch, partially updated (output, uptime) every
/// cycle. Numeric fields are raw values; rendering them is the excluded
/// presentation layer's business. An absent numeric leaf stays `None`,
/// the "unknown" sentinel.
#[derive(Clone, Debug)]
pub struct PubXmrigApi {
    pub output: String,
    pub uptime_ms: u64,
    pub worker_id: String,
    pub load_average: [Option<u64>; 3],
    pub hashrate_total: [Option<u64>; 3],
    pub diff: u128,
    pub accepted: u128,
    pub rejected: u128,
    pub hashrate_raw: u64,
}

/// The field values a freshly reset snapshot holds.
pub open spec fn spec_pub_reset(p: PubXmrigApi) -> bool {
    &&& p.output@.len() == 0
    &&& p.uptime_ms == 0
    &&& p.worker_id@ == "???"@
    &&& p.load_average@ =~= seq![Option::<u64>::None, Option::<u64>::None, Option::<u64>::None]
    &&& p.hashrate_total@ =~= seq![Option::<u64>::None, Option::<u64>::None, Option::<u64>::None]
    &&& p.diff == 0
    &&& p.accepted == 0
    &&& p.rejected == 0
    &&& p.hashrate_raw == 0
}

impl PubXmrigApi {
    pub fn new() -> (r: Self)
        ensures
            spec_pub_reset(r),
    {
        PubXmrigApi {
            output: String::new(),
            uptime_ms: 0,
            worker_id: String::from_str("???"),
            load_average: [None, None, None],
            hashrate_total: [None, None, None],
            diff: 0,
            accepted: 0,
            rejected: 0,
            hashrate_raw: 0,
        }
    }

    /// Hands the accumulated snapshot over to the presentation copy:
    /// output text is appended to what the presentation copy still holds,
    /// every other field replaces it, and the working snapshot is reset.
    pub fn combine_gui_pub_api(gui_api: &mut PubXmrigApi, pub_api: &mut PubXmrigApi)
        ensures
            final(gui_api).output@ == old(gui_api).output@ + old(pub_api).output@,
            final(gui_api).uptime_ms == old(pub_api).uptime_ms,
            final(gui_api).worker_id == old(pub_api).worker_id,
            final(gui_api).load_average == old(pub_api).load_average,
            final(gui_api).hashrate_total == old(pub_api).hashrate_total,
            final(gui_api).diff == old(pub_api).diff,
            final(gui_api).accepted == old(pub_api).accepted,
            final(gui_api).rejected == old(pub_api).rejected,
            final(gui_api).hashrate_raw == old(pub_api).hashrate_raw,
            spec_pub_reset(*final(pub_api)),
    {
        let mut out = String::new();
        core::mem::swap(&mut out, &mut gui_api.output);
        out.append(pub_api.output.as_str());
        let mut fresh = PubXmrigApi::new();
        core::mem::swap(pub_api, &mut fresh);
        *gui_api = fresh;
        gui_api.output = out;
    }

    /// Merges the captured output buffers into the snapshot and applies
    /// marker-derived lifecycle transitions: the display buffer is folded
    /// into the snapshot's output, the uptime refreshed, the parse buffer
    /// matched against the known markers and then discarded.
    pub fn update_from_output(public: &mut PubXmrigApi, process: &mut Process, elapsed_ms: u64)
        ensures
            final(public).output@ == old(public).output@ + old(process).output_pub@,
            final(public).uptime_ms == elapsed_ms,
            final(public).worker_id == old(public).worker_id,
            final(public).load_average == old(public).load_average,
            final(public).hashrate_total == old(public).hashrate_total,
            final(public).diff == old(public).diff,
            final(public).accepted == old(public).accepted,
            final(public).rejected == old(public).rejected,
            final(public).hashrate_raw == old(public).hashrate_raw,
            final(process).state == spec_marker_state(
                old(process).output_parse@,
                old(process).state,
            ),
            final(process).signal == old(process).signal,
            final(process).start_ms == old(process).start_ms,
            final(process).input == old(process).input,
            final(process).output_parse@.len() == 0,
            final(process).output_pub@.len() == 0,
    {
        public.output.append(process.output_pub.as_str());
        process.output_pub = String::new();
        public.uptime_ms = elapsed_ms;
        if contains_str(process.output_parse.as_str(), "new job") {
            process.state = ProcessState::Alive;
        } else if contains_str(process.output_parse.as_str(), "no active pools, stop mining") {
            process.state = ProcessState::NotMining;
        }
        process.output_parse = String::new();
    }

    /// Rebuilds the snapshot's derived numeric fields from one fetched
    /// schema, carrying the accumulated output and uptime forward. A
    /// missing first hashrate entry resolves the raw hashrate to zero.
    pub fn update_from_priv(public: &mut PubXmrigApi, private: PrivXmrigApi)
        ensures
            final(public).worker_id == private.worker_id,
            final(public).load_average == private.resources.load_average,
            final(public).hashrate_total == private.hashrate.total,
            final(public).diff == private.connection.diff,
            final(public).accepted == private.connection.accepted,
            final(public).rejected == private.connection.rejected,
            final(public).hashrate_raw == spec_first_or_zero(private.hashrate.total@),
            final(public).output == old(public).output,
            final(public).uptime_ms == old(public).uptime_ms,
    {
        let hashrate_raw: u64 = match private.hashrate.total[0] {
            Some(h) => h,
            None => 0,
        };
        public.worker_id = private.worker_id;
        public.load_average = private.resources.load_average;
        public.hashrate_total = private.hashrate.total;
        public.diff = private.connection.diff;
        public.accepted = private.connection.accepted;
        public.rejected = private.connection.rejected;
        public.hashrate_raw = hashrate_raw;
    }
}

impl Default for PubXmrigApi {
    fn default() -> (r: Self)
        ensures
            spec_pub_reset(r),
    {
        PubXmrigApi::new()
    }
}

/// The first entry of a hashrate triple, or zero where the worker has not
/// initialized it.
pub open spec fn spec_first_or_zero(total: Seq<Option<u64>>) -> u64 {
    if total.len() > 0 && total[0] is Some {
        total[0]->0
    } else {
        0
    }
}

/// Wire-exact mirror of the worker's JSON status endpoint, as plain
/// values: numeric leaves the endpoint reports as `null` arrive as `None`
/// and are never a parse failure.
#[derive(Clone, Debug)]
pub struct PrivXmrigApi {
    pub worker_id: String,
    pub resources: Resources,
    pub connection: Connection,
    pub hashrate: Hashrate,
}

impl PrivXmrigApi {
    pub fn new() -> (r: Self)
        ensures
            r.worker_id@.len() == 0,
            r.resources.load_average@ =~= seq![Some(0u64), Some(0u64), Some(0u64)],
            r.connection.diff == 0,
            r.connection.accepted == 0,
            r.connection.rejected == 0,
            r.hashrate.total@ =~= seq![Some(0u64), Some(0u64), Some(0u64)],
    {
        PrivXmrigApi {
            worker_id: String::new(),
            resources: Resources::new(),
            connection: Connection::new(),
            hashrate: Hashrate::new(),
        }
    }
}

/// Load-average leaves of the status schema.
#[derive(Clone, Copy, Debug)]
pub struct Resources {
    pub load_average: [Option<u64>; 3],
}

impl Resources {
    pub fn new() -> (r: Self)
        ensures
            r.load_average@ =~= seq![Some(0u64), Some(0u64), Some(0u64)],
    {
        Resources { load_average: [Some(0), Some(0), Some(0)] }
    }
}

/// Pool-connection counters of the status schema.
#[derive(Clone, Copy, Debug)]
pub struct Connection {
    pub diff: u128,
    pub accepted: u128,
    pub rejected: u128,
}

impl Connection {
    pub fn new() -> (r: Self)
        ensures
            r.diff == 0,
            r.accepted == 0,
            r.rejected == 0,
    {
        Connection { diff: 0, accepted: 0, rejected: 0 }
    }
}

/// Hashrate triple of the status schema.
#[derive(Clone, Copy, Debug)]
pub struct Hashrate {
    pub total: [Option<u64>; 3],
}

impl Hashrate {
    pub fn new() -> (r: Self)
        ensures
            r.total@ =~= seq![Some(0u64), Some(0u64), Some(0u64)],
    {
        Hashrate { total: [Some(0), Some(0), Some(0)] }
    }
}

/// The lifecycle state the parse buffer's markers dictate: a "new job"
/// line means the worker is mining, an inactive-pools line means it is
/// not, and a buffer with neither leaves the state alone.
pub open spec fn spec_marker_state(parse: Seq<char>, prev: ProcessState) -> ProcessState {
    if is_match(parse, "new job"@) {
        ProcessState::Alive
    } else if is_match(parse, "no active pools, stop mining"@) {
        ProcessState::NotMining
    } else {
        prev
    }
}

/// A cycle that captured no output applies no marker transition.
pub proof fn lemma_no_output_no_transition(prev: ProcessState)
    ensures
        spec_marker_state(Seq::<char>::empty(), prev) == prev,
{
    reveal_strlit("new job");
    reveal_strlit("no active pools, stop mining");
    lemma_empty_buffer_no_match("new job"@);
    lemma_empty_buffer_no_match("no active pools, stop mining"@);
}

/// The lifecycle state after `n` watchdog cycles in which the worker
/// emitted no output, whatever each cycle's status poll returned.
pub open spec fn spec_quiet_cycles(prev: ProcessState, n: nat) -> ProcessState
    decreases n,
{
    if n == 0 {
        prev
    } else {
        spec_marker_state(Seq::<char>::empty(), spec_quiet_cycles(prev, (n - 1) as nat))
    }
}

/// Status polling never moves the lifecycle state: over any number of
/// consecutive cycles without fresh output — in particular over any run of
/// status-endpoint timeouts — the state stays exactly what output markers
/// last made it.
pub proof fn lemma_quiet_cycles_preserve_state(prev: ProcessState, n: nat)
    ensures
        spec_quiet_cycles(prev, n) == prev,
    decreases n,
{
    if n > 0 {
        lemma_quiet_cycles_preserve_state(prev, (n - 1) as nat);
        lemma_no_output_no_transition(prev);
    }
}

/// Time left of the cycle's cadence window after `elapsed_ms` of work.
pub fn remaining_sleep(elapsed_ms: u64) -> (r: u64)
    ensures
        elapsed_ms < WATCHDOG_CADENCE_MS ==> r == WATCHDOG_CADENCE_MS - elapsed_ms,
        elapsed_ms >= WATCHDOG_CADENCE_MS ==> r == 0,
{
    if elapsed_ms < WATCHDOG_CADENCE_MS {
        WATCHDOG_CADENCE_MS - elapsed_ms
    } else {
        0
    }
}

/// Two worker records agree on everything but state and signal.
pub open spec fn spec_same_process_io(a: Process, b: Process) -> bool {
    &&& a.start_ms == b.start_ms
    &&& a.input == b.input
    &&& a.output_parse == b.output_parse
    &&& a.output_pub == b.output_pub
}

/// Two snapshots agree on everything but the accumulated output text.
pub open spec fn spec_same_pub_except_output(a: PubXmrigApi, b: PubXmrigApi) -> bool {
    &&& a.uptime_ms == b.uptime_ms
    &&& a.worker_id == b.worker_id
    &&& a.load_average == b.load_average
    &&& a.hashrate_total == b.hashrate_total
    &&& a.diff == b.diff
    &&& a.accepted == b.accepted
    &&& a.rejected == b.rejected
    &&& a.hashrate_raw == b.hashrate_raw
}

/// The state a watchdog run concludes in: a restart parks the worker in
/// `Waiting` for the restart supervisor; a stop records how the child
/// exited, `Dead` on a clean exit and `Failed` otherwise.
pub open spec fn spec_conclude_state(signal: ProcessSignal, exit: Option<bool>) -> ProcessState {
    if signal == ProcessSignal::Restart {
        ProcessState::Waiting
    } else if exit == Some(true) {
        ProcessState::Dead
    } else {
        ProcessState::Failed
    }
}

/// Explicit registry of the worker-control handles the engine owns,
/// passed by reference: the hashing-engine worker record, its launch
/// image, and the working and presentation copies of its snapshot.
#[derive(Debug)]
pub struct Helper {
    pub xmrig: Process,
    pub img_xmrig: ImgXmrig,
    pub pub_api_xmrig: PubXmrigApi,
    pub gui_api_xmrig: PubXmrigApi,
}

impl Helper {
    pub fn new() -> (r: Self)
        ensures
            r.xmrig.state == ProcessState::Dead,
            r.xmrig.signal == ProcessSignal::Idle,
            spec_pub_reset(r.pub_api_xmrig),
            spec_pub_reset(r.gui_api_xmrig),
    {
        Helper {
            xmrig: Process::new(),
            img_xmrig: ImgXmrig::new(),
            pub_api_xmrig: PubXmrigApi::new(),
            gui_api_xmrig: PubXmrigApi::new(),
        }
    }

    /// Asks the watchdog to stop its worker: the stop signal is raised and
    /// the state parked in `Middle` until the watchdog concludes. On a
    /// worker that is already dead this is a no-op: nothing changes.
    pub fn stop_xmrig(&mut self)
        ensures
            old(self).xmrig.state == ProcessState::Dead ==> *final(self) == *old(self),
            old(self).xmrig.state != ProcessState::Dead ==> ({
                &&& final(self).xmrig.state == ProcessState::Middle
                &&& final(self).xmrig.signal == ProcessSignal::Stop
                &&& spec_same_process_io(final(self).xmrig, old(self).xmrig)
                &&& final(self).img_xmrig == old(self).img_xmrig
                &&& final(self).pub_api_xmrig == old(self).pub_api_xmrig
                &&& final(self).gui_api_xmrig == old(self).gui_api_xmrig
            }),
    {
        if self.xmrig.state == ProcessState::Dead {
            return;
        }
        self.xmrig.signal = ProcessSignal::Stop;
        self.xmrig.state = ProcessState::Middle;
    }

    /// Asks the watchdog to restart its worker: the restart signal is
    /// raised and the state parked in `Middle`. The restart supervisor
    /// (outside this crate) then waits until `restart_should_start`
    /// passes before starting the replacement.
    pub fn restart_xmrig(&mut self)
        ensures
            final(self).xmrig.state == ProcessState::Middle,
            final(self).xmrig.signal == ProcessSignal::Restart,
            spec_same_process_io(final(self).xmrig, old(self).xmrig),
            final(self).img_xmrig == old(self).img_xmrig,
            final(self).pub_api_xmrig == old(self).pub_api_xmrig,
            final(self).gui_api_xmrig == old(self).gui_api_xmrig,
    {
        self.xmrig.signal = ProcessSignal::Restart;
        self.xmrig.state = ProcessState::Middle;
    }

    /// The restart supervisor's gate: a replacement child may be spawned
    /// only once the prior watchdog has parked its worker in `Waiting`.
    pub fn restart_should_start(state: ProcessState) -> (r: bool)
        ensures
            r == (state == ProcessState::Waiting),
    {
        state == ProcessState::Waiting
    }

    /// A restart never yields two live children for one worker: while the
    /// prior watchdog still runs, the worker sits in `Middle` (raised by
    /// `restart_xmrig`), which `restart_should_start` rejects; concluding
    /// the restart is the only step that parks it in `Waiting`, and only
    /// that lets the supervisor spawn the replacement.
    pub proof fn lemma_restart_handoff(exit: Option<bool>)
        ensures
            spec_conclude_state(ProcessSignal::Restart, exit) == ProcessState::Waiting,
            ProcessState::Middle != ProcessState::Waiting,
    {
    }

    /// Records a freshly spawned child: the worker enters the watchdog in
    /// `NotMining` with no pending signal, the start timestamp is taken,
    /// and both snapshot copies are reset.
    pub fn init_watchdog(&mut self, now_ms: u64)
        ensures
            final(self).xmrig.state == ProcessState::NotMining,
            final(self).xmrig.signal == ProcessSignal::Idle,
            final(self).xmrig.start_ms == now_ms,
            final(self).xmrig.input == old(self).xmrig.input,
            final(self).xmrig.output_parse == old(self).xmrig.output_parse,
            final(self).xmrig.output_pub == old(self).xmrig.output_pub,
            spec_pub_reset(final(self).pub_api_xmrig),
            spec_pub_reset(final(self).gui_api_xmrig),
            final(self).img_xmrig == old(self).img_xmrig,
    {
        self.xmrig.state = ProcessState::NotMining;
        self.xmrig.signal = ProcessSignal::Idle;
        self.xmrig.start_ms = now_ms;
        self.pub_api_xmrig = PubXmrigApi::new();
        self.gui_api_xmrig = PubXmrigApi::new();
    }

    /// Classifies a child that exited on its own: `Dead` on a clean exit,
    /// `Failed` otherwise; the pending signal is cleared and the supplied
    /// summary line appended to the display output.
    pub fn handle_exit(&mut self, exit_success: bool, summary: &str)
        ensures
            final(self).xmrig.state == (if exit_success {
                ProcessState::Dead
            } else {
                ProcessState::Failed
            }),
            final(self).xmrig.signal == ProcessSignal::Idle,
            spec_same_process_io(final(self).xmrig, old(self).xmrig),
            final(self).gui_api_xmrig.output@ == old(self).gui_api_xmrig.output@ + summary@
                + "\n"@,
            spec_same_pub_except_output(final(self).gui_api_xmrig, old(self).gui_api_xmrig),
            final(self).pub_api_xmrig == old(self).pub_api_xmrig,
            final(self).img_xmrig == old(self).img_xmrig,
    {
        if exit_success {
            self.xmrig.state = ProcessState::Dead;
        } else {
            self.xmrig.state = ProcessState::Failed;
        }
        self.xmrig.signal = ProcessSignal::Idle;
        self.gui_api_xmrig.output.append(summary);
        self.gui_api_xmrig.output.append("\n");
    }

    /// Concludes a stop or restart after the child was terminated and
    /// awaited: on stop, the exit outcome is recorded (`Dead` on a clean
    /// exit, `Failed` otherwise) and the signal cleared; on restart the
    /// worker is parked in `Waiting` for the supervisor, signal untouched.
    /// `exit` is `None` where awaiting the child itself failed. The
    /// supplied summary line is appended to the display output.
    pub fn conclude_stop_restart(&mut self, exit: Option<bool>, summary: &str)
        requires
            old(self).xmrig.signal == ProcessSignal::Stop || old(self).xmrig.signal
                == ProcessSignal::Restart,
        ensures
            final(self).xmrig.state == spec_conclude_state(old(self).xmrig.signal, exit),
            final(self).xmrig.signal == (if old(self).xmrig.signal == ProcessSignal::Stop {
                ProcessSignal::Idle
            } else {
                old(self).xmrig.signal
            }),
            spec_same_process_io(final(self).xmrig, old(self).xmrig),
            final(self).gui_api_xmrig.output@ == old(self).gui_api_xmrig.output@ + summary@
                + "\n"@,
            spec_same_pub_except_output(final(self).gui_api_xmrig, old(self).gui_api_xmrig),
            final(self).pub_api_xmrig == old(self).pub_api_xmrig,
            final(self).img_xmrig == old(self).img_xmrig,
    {
        if self.xmrig.signal == ProcessSignal::Restart {
            self.xmrig.state = ProcessState::Waiting;
        } else {
            match exit {
                Some(true) => {
                    self.xmrig.state = ProcessState::Dead;
                }
                _ => {
                    self.xmrig.state = ProcessState::Failed;
                }
            }
            self.xmrig.signal = ProcessSignal::Idle;
        }
        self.gui_api_xmrig.output.append(summary);
        self.gui_api_xmrig.output.append("\n");
    }

    /// Truncates a display buffer that has outgrown its ceiling, leaving
    /// a short notice in its place; a buffer within bounds is untouched.
    /// Either way the buffer never exceeds the ceiling afterwards.
    pub fn check_reset_gui_output(output: &mut String)
        ensures
            old(output)@.len() <= GUI_OUTPUT_CEILING ==> final(output)@ == old(output)@,
            old(output)@.len() > GUI_OUTPUT_CEILING ==> final(output)@
                == "Display buffer is full, resetting...\n"@,
            final(output)@.len() <= GUI_OUTPUT_CEILING,
    {
        proof {
            reveal_strlit("Display buffer is full, resetting...\n");
        }
        if output.as_str().unicode_len() > GUI_OUTPUT_CEILING {
            *output = String::from_str("Display buffer is full, resetting...\n");
        }
    }

    /// One quiet-path watchdog cycle: fold the captured output into the
    /// snapshot, apply marker transitions, then overwrite the derived
    /// numeric fields where the status poll succeeded. The lifecycle
    /// state depends on the output markers alone — a poll miss (or any
    /// poll outcome) never moves it, and a miss retains every prior
    /// numeric value.
    pub fn watchdog_cycle(&mut self, elapsed_ms: u64, poll: Option<PrivXmrigApi>)
        ensures
            final(self).xmrig.state == spec_marker_state(
                old(self).xmrig.output_parse@,
                old(self).xmrig.state,
            ),
            final(self).xmrig.signal == old(self).xmrig.signal,
            final(self).xmrig.start_ms == old(self).xmrig.start_ms,
            final(self).xmrig.input == old(self).xmrig.input,
            final(self).xmrig.output_parse@.len() == 0,
            final(self).xmrig.output_pub@.len() == 0,
            final(self).pub_api_xmrig.output@ == old(self).pub_api_xmrig.output@ + old(
                self,
            ).xmrig.output_pub@,
            final(self).pub_api_xmrig.uptime_ms == elapsed_ms,
            poll is None ==> spec_same_pub_except_output(
                PubXmrigApi { uptime_ms: 0, ..final(self).pub_api_xmrig },
                PubXmrigApi { uptime_ms: 0, ..old(self).pub_api_xmrig },
            ),
            poll is Some ==> ({
                &&& final(self).pub_api_xmrig.worker_id == poll->0.worker_id
                &&& final(self).pub_api_xmrig.load_average == poll->0.resources.load_average
                &&& final(self).pub_api_xmrig.hashrate_total == poll->0.hashrate.total
                &&& final(self).pub_api_xmrig.diff == poll->0.connection.diff
                &&& final(self).pub_api_xmrig.accepted == poll->0.connection.accepted
                &&& final(self).pub_api_xmrig.rejected == poll->0.connection.rejected
                &&& final(self).pub_api_xmrig.hashrate_raw == spec_first_or_zero(
                    poll->0.hashrate.total@,
                )
            }),
            final(self).gui_api_xmrig == old(self).gui_api_xmrig,
            final(self).img_xmrig == old(self).img_xmrig,
    {
        PubXmrigApi::update_from_output(&mut self.pub_api_xmrig, &mut self.xmrig, elapsed_ms);
        match poll {
            Some(p) => {
                PubXmrigApi::update_from_priv(&mut self.pub_api_xmrig, p);
            }
            None => {}
        }
    }
}

/// The status-endpoint URI for the worker's bound address and port; a
/// missing trailing slash is supplied.
pub open spec fn spec_api_uri(ip_port: Seq<char>) -> Seq<char> {
    if ip_port.len() > 0 && ip_port.last() == '/' {
        "http://"@ + ip_port + "1/summary"@
    } else {
        "http://"@ + ip_port + "/"@ + "1/summary"@
    }
}

/// Builds the status-endpoint URI from the bound address and port.
pub fn build_api_uri(api_ip_port: &str) -> (r: String)
    ensures
        r@ == spec_api_uri(api_ip_port@),
{
    let n = api_ip_port.unicode_len();
    let mut s = String::from_str("http://");
    s.append(api_ip_port);
    if !(n > 0 && api_ip_port.get_char(n - 1) == '/') {
        s.append("/");
    }
    s.append("1/summary");
    s
}

/// An address the worker cannot resolve is rewritten to the loopback
/// address; anything else passes through.
pub open spec fn spec_subst_localhost(s: Seq<char>) -> Seq<char> {
    if s == "localhost"@ {
        "127.0.0.1"@
    } else {
        s
    }
}

fn subst_localhost(arg: &str) -> (r: String)
    ensures
        r@ == spec_subst_localhost(arg@),
{
    if str_eq(arg, "localhost") {
        String::from_str("127.0.0.1")
    } else {
        arg.to_owned()
    }
}

/// On a Unix host the worker is launched through the elevation tool, so
/// the vector opens with an empty-prompt flag, the argument separator and
/// the worker binary's path; elsewhere the binary is launched directly.
pub open spec fn spec_unix_prefix(unix: bool, path: Seq<char>) -> Seq<Seq<char>> {
    if unix {
        seq!["--prompt="@, "--"@, path]
    } else {
        Seq::<Seq<char>>::empty()
    }
}

/// The rig name of the simple configuration: the configured name, or the
/// crate's own tag where none is set.
pub open spec fn spec_simple_rig(simple_rig: Seq<char>) -> Seq<char> {
    if simple_rig.len() == 0 {
        "Gupaxx_v0_1_0"@
    } else {
        simple_rig
    }
}

/// Argument vector of the simple configuration: the local pool, the
/// configured thread count and rig name, color stripped, the status API
/// bound to the default loopback endpoint, and the optional pause window.
pub open spec fn spec_simple_args(state: Xmrig) -> Seq<Seq<char>> {
    let base = seq![
        "--url"@,
        "127.0.0.1:3333"@,
        "--threads"@,
        spec_decimal(state.current_threads as int),
        "--user"@,
        spec_simple_rig(state.simple_rig@),
        "--no-color"@,
        "--http-host"@,
        "127.0.0.1"@,
        "--http-port"@,
        "18088"@,
    ];
    if state.pause != 0 {
        base + seq!["--pause-on-active"@, spec_decimal(state.pause as int)]
    } else {
        base
    }
}

/// The pool address of the advanced configuration, loopback where unset
/// or unresolvable.
pub open spec fn spec_adv_ip(state: Xmrig) -> Seq<char> {
    if state.ip@ == "localhost"@ || state.ip@.len() == 0 {
        "127.0.0.1"@
    } else {
        state.ip@
    }
}

/// The status-API address of the advanced configuration, loopback where
/// unset or unresolvable.
pub open spec fn spec_adv_api_ip(state: Xmrig) -> Seq<char> {
    if state.api_ip@ == "localhost"@ || state.api_ip@.len() == 0 {
        "127.0.0.1"@
    } else {
        state.api_ip@
    }
}

/// The status-API port of the advanced configuration, the default where
/// unset.
pub open spec fn spec_adv_api_port(state: Xmrig) -> Seq<char> {
    if state.api_port@.len() == 0 {
        "18088"@
    } else {
        state.api_port@
    }
}

/// The pool URL of the advanced configuration.
pub open spec fn spec_adv_url(state: Xmrig) -> Seq<char> {
    spec_adv_ip(state) + ":"@ + state.port@
}

/// Argument vector of the advanced configuration built from its fields:
/// wallet, threads, rig id, pool URL, status API endpoint, color
/// stripped, and the optional TLS, keepalive and pause flags.
pub open spec fn spec_adv_args(state: Xmrig) -> Seq<Seq<char>> {
    seq![
        "--user"@,
        state.address@,
        "--threads"@,
        spec_decimal(state.current_threads as int),
        "--rig-id"@,
        state.rig@,
        "--url"@,
        spec_adv_url(state),
        "--http-host"@,
        spec_adv_api_ip(state),
        "--http-port"@,
        spec_adv_api_port(state),
        "--no-color"@,
    ] + (if state.tls {
        seq!["--tls"@]
    } else {
        Seq::<Seq<char>>::empty()
    }) + (if state.keepalive {
        seq!["--keepalive"@]
    } else {
        Seq::<Seq<char>>::empty()
    }) + (if state.pause != 0 {
        seq!["--pause-on-active"@, spec_decimal(state.pause as int)]
    } else {
        Seq::<Seq<char>>::empty()
    })
}

/// Argument vector of an override argument line: every token passed
/// through in order, unresolvable addresses rewritten.
pub open spec fn spec_override_args(toks: Seq<Seq<char>>) -> Seq<Seq<char>> {
    toks.map_values(|t: Seq<char>| spec_subst_localhost(t))
}

/// The token following the last occurrence of `key` in the token stream,
/// if any: scanning assigns a value each time the previous token equals
/// `key`, so the last occurrence wins.
pub open spec fn spec_last_value_after(toks: Seq<Seq<char>>, key: Seq<char>) -> Option<Seq<char>>
    decreases toks.len(),
{
    if toks.len() < 2 {
        None
    } else if toks[toks.len() - 2] == key {
        Some(toks.last())
    } else {
        spec_last_value_after(toks.drop_last(), key)
    }
}

proof fn lemma_last_value_step(toks: Seq<Seq<char>>, k: int, key: Seq<char>)
    requires
        0 <= k < toks.len(),
    ensures
        spec_last_value_after(toks.take(k + 1), key) == (if k >= 1 && toks[k - 1] == key {
            Some(toks[k])
        } else {
            spec_last_value_after(toks.take(k), key)
        }),
{
    let t = toks.take(k + 1);
    if k == 0 {
        assert(t.len() == 1);
        assert(toks.take(0).len() == 0);
    } else {
        assert(t[t.len() - 2] == toks[k - 1]);
        assert(t.last() == toks[k]);
        if toks[k - 1] != key {
            assert(t.drop_last() =~= toks.take(k));
        }
    }
}

/// The full argument vector the worker is launched with, for each of the
/// three configurations.
pub open spec fn spec_built_args(state: Xmrig, path: Seq<char>, unix: bool) -> Seq<Seq<char>> {
    spec_unix_prefix(unix, path) + (if state.simple {
        spec_simple_args(state)
    } else if state.arguments@.len() > 0 {
        spec_override_args(spec_tokens(state.arguments@))
    } else {
        spec_adv_args(state)
    })
}

/// The `address:port` pair the status API is reachable at. An override
/// line that names no endpoint leaves either side empty.
pub open spec fn spec_built_api(state: Xmrig) -> Seq<char> {
    if state.simple {
        "127.0.0.1"@ + ":"@ + "18088"@
    } else if state.arguments@.len() > 0 {
        (match spec_last_value_after(spec_tokens(state.arguments@), "--http-host"@) {
            Some(v) => spec_subst_localhost(v),
            None => Seq::<char>::empty(),
        }) + ":"@ + (match spec_last_value_after(spec_tokens(state.arguments@), "--http-port"@) {
            Some(v) => v,
            None => Seq::<char>::empty(),
        })
    } else {
        spec_adv_api_ip(state) + ":"@ + spec_adv_api_port(state)
    }
}

/// The thread count recorded in the launch image; an override line that
/// never names one leaves the previous record standing.
pub open spec fn spec_built_threads(state: Xmrig, prev: Seq<char>) -> Seq<char> {
    if state.simple {
        spec_decimal(state.current_threads as int)
    } else if state.arguments@.len() > 0 {
        match spec_last_value_after(spec_tokens(state.arguments@), "--threads"@) {
            Some(v) => v,
            None => prev,
        }
    } else {
        spec_decimal(state.current_threads as int)
    }
}

/// The pool URL recorded in the launch image; an override line that never
/// names one leaves the previous record standing.
pub open spec fn spec_built_url(state: Xmrig, prev: Seq<char>) -> Seq<char> {
    if state.simple {
        "127.0.0.1:3333 (Local P2Pool)"@
    } else if state.arguments@.len() > 0 {
        match spec_last_value_after(spec_tokens(state.arguments@), "--url"@) {
            Some(v) => v,
            None => prev,
        }
    } else {
        spec_adv_url(state)
    }
}

fn push_arg(args: &mut Vec<String>, s: String)
    ensures
        views_of(final(args)@) == views_of(old(args)@).push(s@),
{
    let ghost pre = args@;
    args.push(s);
    proof {
        assert(views_of(args@) =~= views_of(pre).push(s@));
    }
}

impl Helper {
    /// Builds the actual launch-argument vector from the worker's
    /// configuration, records the settings used in the launch image, and
    /// returns the vector together with the `address:port` the status API
    /// will answer on.
    #[verifier::rlimit(100)]
    pub fn build_xmrig_args_and_mutate_img(&mut self, state: &Xmrig, path: &str, unix: bool) -> (r:
        (Vec<String>, String))
        ensures
            views_of(r.0@) == spec_built_args(*state, path@, unix),
            r.1@ == spec_built_api(*state),
            final(self).img_xmrig.threads@ == spec_built_threads(
                *state,
                old(self).img_xmrig.threads@,
            ),
            final(self).img_xmrig.url@ == spec_built_url(*state, old(self).img_xmrig.url@),
            final(self).xmrig == old(self).xmrig,
            final(self).pub_api_xmrig == old(self).pub_api_xmrig,
            final(self).gui_api_xmrig == old(self).gui_api_xmrig,
    {
        let mut args: Vec<String> = Vec::new();
        let ghost prefix = spec_unix_prefix(unix, path@);
        if unix {
            push_arg(&mut args, String::from_str("--prompt="));
            push_arg(&mut args, String::from_str("--"));
            push_arg(&mut args, path.to_owned());
        }
        proof {
            assert(views_of(args@) =~= prefix);
        }
        let api_ip: String;
        let api_port: String;
        if state.simple {
            push_arg(&mut args, String::from_str("--url"));
            push_arg(&mut args, String::from_str("127.0.0.1:3333"));
            push_arg(&mut args, String::from_str("--threads"));
            let threads = u64_to_string(state.current_threads as u64);
            push_arg(&mut args, threads.clone());
            push_arg(&mut args, String::from_str("--user"));
            if state.simple_rig.as_str().is_empty() {
                push_arg(&mut args, String::from_str("Gupaxx_v0_1_0"));
            } else {
                push_arg(&mut args, state.simple_rig.clone());
            }
            push_arg(&mut args, String::from_str("--no-color"));
            push_arg(&mut args, String::from_str("--http-host"));
            push_arg(&mut args, String::from_str("127.0.0.1"));
            push_arg(&mut args, String::from_str("--http-port"));
            push_arg(&mut args, String::from_str("18088"));
            if state.pause != 0 {
                push_arg(&mut args, String::from_str("--pause-on-active"));
                push_arg(&mut args, u64_to_string(state.pause as u64));
            }
            proof {
                assert(views_of(args@) =~= prefix + spec_simple_args(*state));
            }
            self.img_xmrig = ImgXmrig {
                threads,
                url: String::from_str("127.0.0.1:3333 (Local P2Pool)"),
            };
            api_ip = String::from_str("127.0.0.1");
            api_port = String::from_str("18088");
        } else if !state.arguments.as_str().is_empty() {
            let toks = split_ascii_whitespace(state.arguments.as_str());
            let ghost tv = spec_tokens(state.arguments@);
            let ghost threads0 = self.img_xmrig.threads@;
            let ghost url0 = self.img_xmrig.url@;
            let mut host: String = String::new();
            let mut port: String = String::new();
            let n = toks.len();
            let mut k: usize = 0;
            proof {
                assert(tv.take(0) =~= Seq::<Seq<char>>::empty());
                assert(spec_override_args(tv.take(0)) =~= Seq::<Seq<char>>::empty());
                assert(views_of(args@) =~= prefix + spec_override_args(tv.take(0)));
            }
            while k < n
                invariant
                    n == toks.len(),
                    views_of(toks@) == tv,
                    k <= n,
                    views_of(args@) =~= prefix + spec_override_args(tv.take(k as int)),
                    self.img_xmrig.threads@ == (match spec_last_value_after(
                        tv.take(k as int),
                        "--threads"@,
                    ) {
                        Some(v) => v,
                        None => threads0,
                    }),
                    self.img_xmrig.url@ == (match spec_last_value_after(
                        tv.take(k as int),
                        "--url"@,
                    ) {
                        Some(v) => v,
                        None => url0,
                    }),
                    host@ == (match spec_last_value_after(tv.take(k as int), "--http-host"@) {
                        Some(v) => spec_subst_localhost(v),
                        None => Seq::<char>::empty(),
                    }),
                    port@ == (match spec_last_value_after(tv.take(k as int), "--http-port"@) {
                        Some(v) => v,
                        None => Seq::<char>::empty(),
                    }),
                    self.xmrig == old(self).xmrig,
                    self.pub_api_xmrig == old(self).pub_api_xmrig,
                    self.gui_api_xmrig == old(self).gui_api_xmrig,
                decreases n - k,
            {
                proof {
                    reveal_strlit("--threads");
                    reveal_strlit("--url");
                    reveal_strlit("--http-host");
                    reveal_strlit("--http-port");
                    assert("--http-host"@[7] == 'h');
                    assert("--http-port"@[7] == 'p');
                    assert("--http-host"@ != "--http-port"@);
                    assert(views_of(toks@)[k as int] == toks@[k as int]@);
                    lemma_last_value_step(tv, k as int, "--threads"@);
                    lemma_last_value_step(tv, k as int, "--url"@);
                    lemma_last_value_step(tv, k as int, "--http-host"@);
                    lemma_last_value_step(tv, k as int, "--http-port"@);
                }
                if k >= 1 {
                    proof {
                        assert(views_of(toks@)[k as int - 1] == toks@[k as int - 1]@);
                    }
                    let prev = &toks[k - 1];
                    let arg = &toks[k];
                    if str_eq(prev.as_str(), "--threads") {
                        self.img_xmrig.threads = arg.clone();
                    } else if str_eq(prev.as_str(), "--url") {
                        self.img_xmrig.url = arg.clone();
                    } else if str_eq(prev.as_str(), "--http-host") {
                        host = subst_localhost(arg.as_str());
                    } else if str_eq(prev.as_str(), "--http-port") {
                        port = arg.clone();
                    }
                }
                let arg = &toks[k];
                push_arg(&mut args, subst_localhost(arg.as_str()));
                proof {
                    assert(spec_override_args(tv.take(k as int + 1)) =~= spec_override_args(
                        tv.take(k as int),
                    ).push(spec_subst_localhost(tv[k as int])));
                }
                k += 1;
            }
            proof {
                assert(tv.take(n as int) =~= tv);
            }
            api_ip = host;
            api_port = port;
        } else {
            push_arg(&mut args, String::from_str("--user"));
            push_arg(&mut args, state.address.clone());
            push_arg(&mut args, String::from_str("--threads"));
            let threads = u64_to_string(state.current_threads as u64);
            push_arg(&mut args, threads.clone());
            push_arg(&mut args, String::from_str("--rig-id"));
            push_arg(&mut args, state.rig.clone());
            push_arg(&mut args, String::from_str("--url"));
            let mut url: String;
            if str_eq(state.ip.as_str(), "localhost") || state.ip.as_str().is_empty() {
                url = String::from_str("127.0.0.1");
            } else {
                url = state.ip.clone();
            }
            url.append(":");
            url.append(state.port.as_str());
            push_arg(&mut args, url.clone());
            push_arg(&mut args, String::from_str("--http-host"));
            let ip: String;
            if str_eq(state.api_ip.as_str(), "localhost") || state.api_ip.as_str().is_empty() {
                ip = String::from_str("127.0.0.1");
            } else {
                ip = state.api_ip.clone();
            }
            push_arg(&mut args, ip.clone());
            push_arg(&mut args, String::from_str("--http-port"));
            let prt: String;
            if state.api_port.as_str().is_empty() {
                prt = String::from_str("18088");
            } else {
                prt = state.api_port.clone();
            }
            push_arg(&mut args, prt.clone());
            push_arg(&mut args, String::from_str("--no-color"));
            if state.tls {
                push_arg(&mut args, String::from_str("--tls"));
            }
            if state.keepalive {
                push_arg(&mut args, String::from_str("--keepalive"));
            }
            if state.pause != 0 {
                push_arg(&mut args, String::from_str("--pause-on-active"));
                push_arg(&mut args, u64_to_string(state.pause as u64));
            }
            proof {
                assert(views_of(args@) =~= prefix + spec_adv_args(*state));
            }
            self.img_xmrig = ImgXmrig { threads, url };
            api_ip = ip;
            api_port = prt;
        }
        let mut api = api_ip;
        api.append(":");
        api.append(api_port.as_str());
        (args, api)
    }

    /// Parks the worker in `Middle` and hands back the launch plan — the
    /// argument vector and the status API endpoint — for the driver to
    /// spawn the child and its watchdog with; the launch image records
    /// the settings used.
    pub fn start_xmrig(&mut self, state: &Xmrig, path: &str, unix: bool) -> (r: (
        Vec<String>,
        String,
    ))
        ensures
            final(self).xmrig.state == ProcessState::Middle,
            final(self).xmrig.signal == old(self).xmrig.signal,
            spec_same_process_io(final(self).xmrig, old(self).xmrig),
            views_of(r.0@) == spec_built_args(*state, path@, unix),
            r.1@ == spec_built_api(*state),
            final(self).img_xmrig.threads@ == spec_built_threads(
                *state,
                old(self).img_xmrig.threads@,
            ),
            final(self).img_xmrig.url@ == spec_built_url(*state, old(self).img_xmrig.url@),
            final(self).pub_api_xmrig == old(self).pub_api_xmrig,
            final(self).gui_api_xmrig == old(self).gui_api_xmrig,
    {
        self.xmrig.state = ProcessState::Middle;
        self.build_xmrig_args_and_mutate_img(state, path, unix)
    }
}

} // verus!
