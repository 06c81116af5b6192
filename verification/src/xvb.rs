//! The pool-distribution client: its private-account snapshot, the
//! classification of the distribution service's responses, the update of
//! worker state those responses dictate, and the donation-tier rules of
//! the distribution algorithm.
//!
//! The HTTP exchange itself happens in the unverified driver; the
//! response's status code and parsed body come back here as plain values
//! and every decision taken on them is verified.

use vstd::prelude::*;

use crate::process::{Process, ProcessState};

verus! {

/// Minimum sustained hashrate of the entry donation tier, in H/s.
pub const XVB_ROUND_DONOR_MIN_HR: u64 = 1000;

/// Minimum sustained hashrate of the VIP donation tier, in H/s.
pub const XVB_ROUND_DONOR_VIP_MIN_HR: u64 = 10000;

/// Minimum sustained hashrate of the whale donation tier, in H/s.
pub const XVB_ROUND_DONOR_WHALE_MIN_HR: u64 = 100000;

/// Minimum sustained hashrate of the mega donation tier, in H/s.
pub const XVB_ROUND_DONOR_MEGA_MIN_HR: u64 = 1000000;

/// The run mode the distribution algorithm operates under.
#[derive(Clone, Copy, Debug, PartialEq, Eq, Structural)]
pub enum RuntimeMode {
    Auto,
    ManualXvb,
    ManualP2pool,
    Hero,
    ManualDonationLevel,
}

impl Default for RuntimeMode {
    fn default() -> (r: Self)
        ensures
            r == RuntimeMode::Auto,
    {
        RuntimeMode::Auto
    }
}

/// The donation tier the algorithm holds the account to.
#[derive(Clone, Copy, Debug, PartialEq, Eq, Structural)]
pub enum RuntimeDonationLevel {
    Donor,
    DonorVIP,
    DonorWhale,
    DonorMega,
}

impl Default for RuntimeDonationLevel {
    fn default() -> (r: Self)
        ensures
            r == RuntimeDonationLevel::Donor,
    {
        RuntimeDonationLevel::Donor
    }
}

/// The minimum sustained hashrate each donation tier requires, in H/s.
pub open spec fn spec_min_hashrate(level: RuntimeDonationLevel) -> u64 {
    match level {
        RuntimeDonationLevel::Donor => XVB_ROUND_DONOR_MIN_HR,
        RuntimeDonationLevel::DonorVIP => XVB_ROUND_DONOR_VIP_MIN_HR,
        RuntimeDonationLevel::DonorWhale => XVB_ROUND_DONOR_WHALE_MIN_HR,
        RuntimeDonationLevel::DonorMega => XVB_ROUND_DONOR_MEGA_MIN_HR,
    }
}

impl RuntimeDonationLevel {
    /// The minimum sustained hashrate this tier requires, in H/s.
    pub fn get_hashrate(&self) -> (r: u64)
        ensures
            r == spec_min_hashrate(*self),
    {
        match self {
            RuntimeDonationLevel::Donor => XVB_ROUND_DONOR_MIN_HR,
            RuntimeDonationLevel::DonorVIP => XVB_ROUND_DONOR_VIP_MIN_HR,
            RuntimeDonationLevel::DonorWhale => XVB_ROUND_DONOR_WHALE_MIN_HR,
            RuntimeDonationLevel::DonorMega => XVB_ROUND_DONOR_MEGA_MIN_HR,
        }
    }
}

/// The donation tiers' thresholds rise strictly with the tier.
pub proof fn lemma_tiers_monotone()
    ensures
        spec_min_hashrate(RuntimeDonationLevel::Donor) < spec_min_hashrate(
            RuntimeDonationLevel::DonorVIP,
        ),
        spec_min_hashrate(RuntimeDonationLevel::DonorVIP) < spec_min_hashrate(
            RuntimeDonationLevel::DonorWhale,
        ),
        spec_min_hashrate(RuntimeDonationLevel::DonorWhale) < spec_min_hashrate(
            RuntimeDonationLevel::DonorMega,
        ),
{
}

/// The tier an average hashrate earns under automatic selection: the
/// highest tier whose threshold the average sustains, none below the
/// entry threshold.
pub open spec fn spec_auto_level(avg: u64) -> Option<RuntimeDonationLevel> {
    if avg >= XVB_ROUND_DONOR_MEGA_MIN_HR {
        Some(RuntimeDonationLevel::DonorMega)
    } else if avg >= XVB_ROUND_DONOR_WHALE_MIN_HR {
        Some(RuntimeDonationLevel::DonorWhale)
    } else if avg >= XVB_ROUND_DONOR_VIP_MIN_HR {
        Some(RuntimeDonationLevel::DonorVIP)
    } else if avg >= XVB_ROUND_DONOR_MIN_HR {
        Some(RuntimeDonationLevel::Donor)
    } else {
        None
    }
}

/// Selects the donation tier an average hashrate earns under automatic
/// selection.
pub fn auto_donation_level(avg_hashrate: u64) -> (r: Option<RuntimeDonationLevel>)
    ensures
        r == spec_auto_level(avg_hashrate),
{
    if avg_hashrate >= XVB_ROUND_DONOR_MEGA_MIN_HR {
        Some(RuntimeDonationLevel::DonorMega)
    } else if avg_hashrate >= XVB_ROUND_DONOR_WHALE_MIN_HR {
        Some(RuntimeDonationLevel::DonorWhale)
    } else if avg_hashrate >= XVB_ROUND_DONOR_VIP_MIN_HR {
        Some(RuntimeDonationLevel::DonorVIP)
    } else if avg_hashrate >= XVB_ROUND_DONOR_MIN_HR {
        Some(RuntimeDonationLevel::Donor)
    } else {
        None
    }
}

/// Automatic selection never hands out a tier the reported average does
/// not sustain: a selected tier's threshold is at or below the average,
/// so an average under the VIP threshold never selects the VIP tier.
pub proof fn lemma_tier_needs_hashrate(avg: u64)
    ensures
        spec_auto_level(avg) is Some ==> avg >= spec_min_hashrate(spec_auto_level(avg)->0),
        avg < XVB_ROUND_DONOR_VIP_MIN_HR ==> spec_auto_level(avg) != Some(
            RuntimeDonationLevel::DonorVIP,
        ),
{
}

/// Resolves the tier the algorithm holds the account to under each run
/// mode: automatic selection goes by the sustained average, the manual
/// donation mode fixes the configured tier directly, and the remaining
/// modes (hero and the two fixed-pool modes) bypass tier evaluation
/// altogether.
pub fn donation_level_for(
    mode: &RuntimeMode,
    manual_level: &RuntimeDonationLevel,
    avg_hashrate: u64,
) -> (r: Option<RuntimeDonationLevel>)
    ensures
        *mode == RuntimeMode::Auto ==> r == spec_auto_level(avg_hashrate),
        *mode == RuntimeMode::ManualDonationLevel ==> r == Some(*manual_level),
        *mode == RuntimeMode::Hero || *mode == RuntimeMode::ManualXvb || *mode
            == RuntimeMode::ManualP2pool ==> r is None,
{
    match mode {
        RuntimeMode::Auto => auto_donation_level(avg_hashrate),
        RuntimeMode::ManualDonationLevel => Some(*manual_level),
        _ => None,
    }
}

/// The run mode as the configuration collaborator stores it.
#[derive(Clone, Copy, Debug, PartialEq, Eq, Structural)]
pub enum XvbMode {
    Auto,
    ManualXvb,
    ManualP2pool,
    Hero,
    ManualDonationLevel,
}

/// The donation tier as the configuration collaborator stores it.
#[derive(Clone, Copy, Debug, PartialEq, Eq, Structural)]
pub enum ManualDonationLevel {
    Donor,
    DonorVIP,
    DonorWhale,
    DonorMega,
}

impl From<XvbMode> for RuntimeMode {
    /// Carries the configured run mode into the runtime, variant for
    /// variant.
    fn from(mode: XvbMode) -> (r: Self) {
        match mode {
            XvbMode::Auto => RuntimeMode::Auto,
            XvbMode::ManualXvb => RuntimeMode::ManualXvb,
            XvbMode::ManualP2pool => RuntimeMode::ManualP2pool,
            XvbMode::Hero => RuntimeMode::Hero,
            XvbMode::ManualDonationLevel => RuntimeMode::ManualDonationLevel,
        }
    }
}

impl vstd::std_specs::convert::FromSpecImpl<XvbMode> for RuntimeMode {
    open spec fn obeys_from_spec() -> bool {
        true
    }

    open spec fn from_spec(mode: XvbMode) -> Self {
        match mode {
            XvbMode::Auto => RuntimeMode::Auto,
            XvbMode::ManualXvb => RuntimeMode::ManualXvb,
            XvbMode::ManualP2pool => RuntimeMode::ManualP2pool,
            XvbMode::Hero => RuntimeMode::Hero,
            XvbMode::ManualDonationLevel => RuntimeMode::ManualDonationLevel,
        }
    }
}

impl From<ManualDonationLevel> for RuntimeDonationLevel {
    /// Carries the configured donation tier into the runtime, variant for
    /// variant.
    fn from(level: ManualDonationLevel) -> (r: Self) {
        match level {
            ManualDonationLevel::Donor => RuntimeDonationLevel::Donor,
            ManualDonationLevel::DonorVIP => RuntimeDonationLevel::DonorVIP,
            ManualDonationLevel::DonorWhale => RuntimeDonationLevel::DonorWhale,
            ManualDonationLevel::DonorMega => RuntimeDonationLevel::DonorMega,
        }
    }
}

impl vstd::std_specs::convert::FromSpecImpl<ManualDonationLevel> for RuntimeDonationLevel {
    open spec fn obeys_from_spec() -> bool {
        true
    }

    open spec fn from_spec(level: ManualDonationLevel) -> Self {
        match level {
            ManualDonationLevel::Donor => RuntimeDonationLevel::Donor,
            ManualDonationLevel::DonorVIP => RuntimeDonationLevel::DonorVIP,
            ManualDonationLevel::DonorWhale => RuntimeDonationLevel::DonorWhale,
            ManualDonationLevel::DonorMega => RuntimeDonationLevel::DonorMega,
        }
    }
}

/// The distribution round a participant is counted in.
#[derive(Clone, Copy, Debug, PartialEq, Eq, Structural)]
pub enum XvbRound {
    Vip,
    Donor,
    DonorVip,
    DonorWhale,
    DonorMega,
}

/// Private-account snapshot of the distribution service: recent average
/// hashrates, the consecutive-failure counter, round participation, the
/// active mode and donation selection, and the countdown to the next
/// reallocation boundary (not the round's own timer).
#[derive(Clone, Debug)]
pub struct XvbPrivStats {
    /// Consecutive failed fetches; persists across calls.
    pub fails: u8,
    /// Average hashrate over the last hour, in H/s.
    pub donor_1hr_avg: u64,
    /// Average hashrate over the last day, in H/s.
    pub donor_24hr_avg: u64,
    pub win_current: bool,
    pub round_participate: Option<XvbRound>,
    /// Time remaining before the next pool reallocation, in seconds.
    pub time_switch_node: u32,
    pub msg_indicator: String,
    pub runtime_mode: RuntimeMode,
    /// Manually configured hashrate amount, in H/s.
    pub runtime_manual_amount: u64,
    pub runtime_manual_donation_level: RuntimeDonationLevel,
}

impl XvbPrivStats {
    pub fn new() -> (r: Self)
        ensures
            r.fails == 0,
            r.donor_1hr_avg == 0,
            r.donor_24hr_avg == 0,
            r.win_current == false,
            r.round_participate is None,
            r.time_switch_node == 0,
            r.msg_indicator@.len() == 0,
            r.runtime_mode == RuntimeMode::Auto,
            r.runtime_manual_amount == 0,
            r.runtime_manual_donation_level == RuntimeDonationLevel::Donor,
    {
        XvbPrivStats {
            fails: 0,
            donor_1hr_avg: 0,
            donor_24hr_avg: 0,
            win_current: false,
            round_participate: None,
            time_switch_node: 0,
            msg_indicator: String::new(),
            runtime_mode: RuntimeMode::Auto,
            runtime_manual_amount: 0,
            runtime_manual_donation_level: RuntimeDonationLevel::Donor,
        }
    }
}

impl Default for XvbPrivStats {
    fn default() -> (r: Self)
        ensures
            r.fails == 0,
            r.donor_1hr_avg == 0,
            r.donor_24hr_avg == 0,
            r.win_current == false,
            r.round_participate is None,
            r.time_switch_node == 0,
            r.msg_indicator@.len() == 0,
            r.runtime_mode == RuntimeMode::Auto,
            r.runtime_manual_amount == 0,
            r.runtime_manual_donation_level == RuntimeDonationLevel::Donor,
    {
        XvbPrivStats::new()
    }
}

/// Public snapshot of the distribution client: accumulated output text
/// and the latest private-account snapshot.
#[derive(Clone, Debug)]
pub struct PubXvbApi {
    pub output: String,
    pub stats_priv: XvbPrivStats,
}

impl PubXvbApi {
    pub fn new() -> (r: Self)
        ensures
            r.output@.len() == 0,
            r.stats_priv.fails == 0,
    {
        PubXvbApi { output: String::new(), stats_priv: XvbPrivStats::new() }
    }
}

/// How a private-stats fetch can fail. An invalid token is terminal for
/// that credential; the other failures are retried on the next pass.
#[derive(Clone, Copy, Debug, PartialEq, Eq, Structural)]
pub enum XvbApiError {
    /// The service answered but the body did not deserialize.
    Undeserializable,
    /// The service rejected the token for this address (HTTP 422).
    InvalidToken,
    /// The service answered with an unexpected status.
    UnexpectedStatus,
}

impl XvbApiError {
    /// Whether a later pass may retry the same credential after this
    /// failure: everything but an invalid token is retried.
    pub fn is_retryable(&self) -> (r: bool)
        ensures
            r == (*self != XvbApiError::InvalidToken),
    {
        match self {
            XvbApiError::InvalidToken => false,
            _ => true,
        }
    }
}

/// What each response of the private-stats endpoint means: HTTP 200 with
/// a readable body succeeds, HTTP 200 with an unreadable body fails,
/// HTTP 422 rejects the token, anything else is an unexpected status.
pub open spec fn spec_classify(status: u16, body: Option<XvbPrivStats>) -> Result<
    XvbPrivStats,
    XvbApiError,
> {
    if status == 200 {
        match body {
            Some(s) => Ok(s),
            None => Err(XvbApiError::Undeserializable),
        }
    } else if status == 422 {
        Err(XvbApiError::InvalidToken)
    } else {
        Err(XvbApiError::UnexpectedStatus)
    }
}

impl XvbPrivStats {
    /// Classifies one response of the private-stats endpoint: its HTTP
    /// status and, for a 200, the deserialized body if the driver could
    /// read one.
    pub fn classify_response(status: u16, body: Option<XvbPrivStats>) -> (r: Result<
        XvbPrivStats,
        XvbApiError,
    >)
        ensures
            r == spec_classify(status, body),
    {
        if status == 200 {
            match body {
                Some(s) => Ok(s),
                None => Err(XvbApiError::Undeserializable),
            }
        } else if status == 422 {
            Err(XvbApiError::InvalidToken)
        } else {
            Err(XvbApiError::UnexpectedStatus)
        }
    }
}

/// A rejected token marks the fetch terminally failed: HTTP 422 always
/// classifies to the invalid-token error, and that error is the one
/// failure no later pass retries with the same credential.
pub proof fn lemma_invalid_token_terminal(body: Option<XvbPrivStats>)
    ensures
        spec_classify(422, body) == Err::<XvbPrivStats, XvbApiError>(XvbApiError::InvalidToken),
        XvbApiError::InvalidToken != XvbApiError::Undeserializable,
        XvbApiError::InvalidToken != XvbApiError::UnexpectedStatus,
{
}

/// `s` with its failure counter reset.
pub open spec fn spec_reset_fails(s: XvbPrivStats) -> XvbPrivStats {
    XvbPrivStats { fails: 0, ..s }
}

/// `s` with one more consecutive failure counted (saturating).
pub open spec fn spec_bump_fails(s: XvbPrivStats) -> XvbPrivStats {
    XvbPrivStats { fails: if s.fails == 255 { 255u8 } else { (s.fails + 1) as u8 }, ..s }
}

/// The text a failed fetch appends to the display output: a retry notice
/// on the first failure of a run, then the failure line itself.
pub open spec fn spec_fail_notice(prev: ProcessState) -> Seq<char> {
    (if prev != ProcessState::Failed {
        "Failure to retrieve private stats\nWill retry shortly...\n"@
    } else {
        Seq::<char>::empty()
    }) + "request to get private API failed\n"@
}

impl XvbPrivStats {
    /// Applies the outcome of one private-stats fetch. On success the
    /// fresh snapshot replaces the published one with its failure counter
    /// reset, and a worker that had failed passes through `Syncing` for
    /// one cycle before it may count as alive again. On any failure the
    /// worker is marked `Failed` at once — the algorithm cannot allocate
    /// safely without the private snapshot — the failure counter grows,
    /// and a notice lands in the display output.
    pub fn update_stats(
        result: Result<XvbPrivStats, XvbApiError>,
        pub_api: &mut PubXvbApi,
        gui_api: &mut PubXvbApi,
        process: &mut Process,
    )
        ensures
            final(process).signal == old(process).signal,
            final(process).start_ms == old(process).start_ms,
            final(process).input == old(process).input,
            final(process).output_parse == old(process).output_parse,
            final(process).output_pub == old(process).output_pub,
            final(gui_api).stats_priv == old(gui_api).stats_priv,
            final(pub_api).output == old(pub_api).output,
            result is Ok ==> ({
                &&& final(pub_api).stats_priv == spec_reset_fails(result->Ok_0)
                &&& (old(process).state == ProcessState::Failed ==> final(process).state
                    == ProcessState::Syncing && final(gui_api).output@ == old(gui_api).output@
                    + "requests for private API are now working\n"@)
                &&& (old(process).state != ProcessState::Failed ==> final(process).state == old(
                    process,
                ).state && final(gui_api).output == old(gui_api).output)
            }),
            result is Err ==> ({
                &&& final(process).state == ProcessState::Failed
                &&& final(pub_api).stats_priv == spec_bump_fails(old(pub_api).stats_priv)
                &&& final(gui_api).output@ == old(gui_api).output@ + spec_fail_notice(
                    old(process).state,
                )
            }),
    {
        match result {
            Ok(new_data) => {
                let mut fresh = new_data;
                fresh.fails = 0;
                pub_api.stats_priv = fresh;
                if process.state == ProcessState::Failed {
                    gui_api.output.append("requests for private API are now working\n");
                    process.state = ProcessState::Syncing;
                }
            }
            Err(_) => {
                if process.state != ProcessState::Failed {
                    gui_api.output.append(
                        "Failure to retrieve private stats\nWill retry shortly...\n",
                    );
                }
                gui_api.output.append("request to get private API failed\n");
                if pub_api.stats_priv.fails != 255 {
                    pub_api.stats_priv.fails = pub_api.stats_priv.fails + 1;
                }
                process.state = ProcessState::Failed;
            }
        }
    }

    /// Builds the private-stats query for an account: the service's
    /// bonus-history endpoint keyed by address and token.
    pub fn build_priv_url(address: &str, token: &str) -> (r: String)
        ensures
            r@ == "https://xmrvsbeast.com"@
                + "/cgi-bin/p2pool_bonus_history_gupaxx_api.cgi?address="@ + address@ + "&token="@
                + token@,
    {
        let mut s = String::from_str("https://xmrvsbeast.com");
        s.append("/cgi-bin/p2pool_bonus_history_gupaxx_api.cgi?address=");
        s.append(address);
        s.append("&token=");
        s.append(token);
        s
    }
}

} // verus!
