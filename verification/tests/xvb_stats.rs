//! Distribution-service response handling and donation-tier rules.

use gupaxx::process::{Process, ProcessState};
use gupaxx::xvb::{
    auto_donation_level, XvbMode, donation_level_for, ManualDonationLevel, PubXvbApi, RuntimeDonationLevel,
    RuntimeMode, XvbApiError, XvbPrivStats, XVB_ROUND_DONOR_MEGA_MIN_HR, XVB_ROUND_DONOR_MIN_HR,
    XVB_ROUND_DONOR_VIP_MIN_HR, XVB_ROUND_DONOR_WHALE_MIN_HR,
};

fn fresh_stats(avg_1hr: u64) -> XvbPrivStats {
    let mut s = XvbPrivStats::new();
    s.donor_1hr_avg = avg_1hr;
    s
}

#[test]
fn tier_thresholds_are_monotone() {
    assert!(XVB_ROUND_DONOR_MIN_HR < XVB_ROUND_DONOR_VIP_MIN_HR);
    assert!(XVB_ROUND_DONOR_VIP_MIN_HR < XVB_ROUND_DONOR_WHALE_MIN_HR);
    assert!(XVB_ROUND_DONOR_WHALE_MIN_HR < XVB_ROUND_DONOR_MEGA_MIN_HR);
    assert_eq!(RuntimeDonationLevel::Donor.get_hashrate(), 1_000);
    assert_eq!(RuntimeDonationLevel::DonorVIP.get_hashrate(), 10_000);
    assert_eq!(RuntimeDonationLevel::DonorWhale.get_hashrate(), 100_000);
    assert_eq!(RuntimeDonationLevel::DonorMega.get_hashrate(), 1_000_000);
}

#[test]
fn auto_selection_respects_thresholds() {
    assert_eq!(auto_donation_level(0), None);
    assert_eq!(auto_donation_level(999), None);
    assert_eq!(auto_donation_level(1_000), Some(RuntimeDonationLevel::Donor));
    assert_eq!(auto_donation_level(9_999), Some(RuntimeDonationLevel::Donor));
    assert_eq!(auto_donation_level(10_000), Some(RuntimeDonationLevel::DonorVIP));
    assert_eq!(auto_donation_level(100_000), Some(RuntimeDonationLevel::DonorWhale));
    assert_eq!(auto_donation_level(2_000_000), Some(RuntimeDonationLevel::DonorMega));
}

#[test]
fn sustained_average_below_vip_never_selects_vip() {
    // The VIP tier requires a sustained average of at least its
    // threshold; a private snapshot under it must not select VIP.
    let h = RuntimeDonationLevel::DonorVIP.get_hashrate();
    let stats = fresh_stats(h - 1);
    let picked = donation_level_for(
        &RuntimeMode::Auto,
        &stats.runtime_manual_donation_level,
        stats.donor_1hr_avg,
    );
    assert_ne!(picked, Some(RuntimeDonationLevel::DonorVIP));
    assert_eq!(picked, Some(RuntimeDonationLevel::Donor));
}

#[test]
fn manual_and_hero_modes_bypass_thresholds() {
    let manual = RuntimeDonationLevel::DonorWhale;
    assert_eq!(
        donation_level_for(&RuntimeMode::ManualDonationLevel, &manual, 0),
        Some(RuntimeDonationLevel::DonorWhale)
    );
    assert_eq!(donation_level_for(&RuntimeMode::Hero, &manual, 5_000_000), None);
    assert_eq!(donation_level_for(&RuntimeMode::ManualXvb, &manual, 5_000_000), None);
    assert_eq!(donation_level_for(&RuntimeMode::ManualP2pool, &manual, 5_000_000), None);
}

#[test]
fn responses_classify_by_status() {
    let body = fresh_stats(42);
    let ok = XvbPrivStats::classify_response(200, Some(body));
    assert!(matches!(ok, Ok(ref s) if s.donor_1hr_avg == 42));
    assert_eq!(
        XvbPrivStats::classify_response(200, None).unwrap_err(),
        XvbApiError::Undeserializable
    );
    assert_eq!(
        XvbPrivStats::classify_response(422, None).unwrap_err(),
        XvbApiError::InvalidToken
    );
    assert_eq!(
        XvbPrivStats::classify_response(500, None).unwrap_err(),
        XvbApiError::UnexpectedStatus
    );
    assert_eq!(
        XvbPrivStats::classify_response(404, Some(fresh_stats(1))).unwrap_err(),
        XvbApiError::UnexpectedStatus
    );
}

#[test]
fn invalid_token_is_terminal_for_the_credential() {
    // A 422 marks the worker Failed, and the error is the one failure
    // that must not be retried with the same token.
    let mut pub_api = PubXvbApi::new();
    let mut gui_api = PubXvbApi::new();
    let mut process = Process::new();
    process.state = ProcessState::Alive;
    let outcome = XvbPrivStats::classify_response(422, None);
    let err = *outcome.as_ref().unwrap_err();
    XvbPrivStats::update_stats(outcome, &mut pub_api, &mut gui_api, &mut process);
    assert_eq!(process.state, ProcessState::Failed);
    assert!(!err.is_retryable());
    assert!(XvbApiError::Undeserializable.is_retryable());
    assert!(XvbApiError::UnexpectedStatus.is_retryable());
}

#[test]
fn success_resets_failures_and_publishes_snapshot() {
    let mut pub_api = PubXvbApi::new();
    pub_api.stats_priv.fails = 3;
    let mut gui_api = PubXvbApi::new();
    let mut process = Process::new();
    process.state = ProcessState::Alive;
    let mut body = fresh_stats(123);
    body.fails = 9;
    XvbPrivStats::update_stats(Ok(body), &mut pub_api, &mut gui_api, &mut process);
    assert_eq!(pub_api.stats_priv.fails, 0);
    assert_eq!(pub_api.stats_priv.donor_1hr_avg, 123);
    assert_eq!(process.state, ProcessState::Alive);
    assert_eq!(gui_api.output, "");
}

#[test]
fn recovery_passes_through_syncing() {
    let mut pub_api = PubXvbApi::new();
    let mut gui_api = PubXvbApi::new();
    let mut process = Process::new();
    process.state = ProcessState::Failed;
    XvbPrivStats::update_stats(Ok(fresh_stats(5)), &mut pub_api, &mut gui_api, &mut process);
    assert_eq!(process.state, ProcessState::Syncing);
    assert_eq!(gui_api.output, "requests for private API are now working\n");
}

#[test]
fn failure_marks_failed_and_counts() {
    let mut pub_api = PubXvbApi::new();
    let mut gui_api = PubXvbApi::new();
    let mut process = Process::new();
    process.state = ProcessState::Alive;
    XvbPrivStats::update_stats(
        Err(XvbApiError::UnexpectedStatus),
        &mut pub_api,
        &mut gui_api,
        &mut process,
    );
    assert_eq!(process.state, ProcessState::Failed);
    assert_eq!(pub_api.stats_priv.fails, 1);
    assert_eq!(
        gui_api.output,
        "Failure to retrieve private stats\nWill retry shortly...\nrequest to get private API failed\n"
    );
    // A second failure in a row skips the retry notice but still counts.
    XvbPrivStats::update_stats(
        Err(XvbApiError::UnexpectedStatus),
        &mut pub_api,
        &mut gui_api,
        &mut process,
    );
    assert_eq!(pub_api.stats_priv.fails, 2);
    assert_eq!(
        gui_api.output,
        "Failure to retrieve private stats\nWill retry shortly...\nrequest to get private API failed\nrequest to get private API failed\n"
    );
}

#[test]
fn failure_counter_saturates() {
    let mut pub_api = PubXvbApi::new();
    pub_api.stats_priv.fails = 255;
    let mut gui_api = PubXvbApi::new();
    let mut process = Process::new();
    XvbPrivStats::update_stats(
        Err(XvbApiError::Undeserializable),
        &mut pub_api,
        &mut gui_api,
        &mut process,
    );
    assert_eq!(pub_api.stats_priv.fails, 255);
}

#[test]
fn private_url_is_keyed_by_address_and_token() {
    let url = XvbPrivStats::build_priv_url("4ABCD", "123456789");
    assert_eq!(
        url,
        "https://xmrvsbeast.com/cgi-bin/p2pool_bonus_history_gupaxx_api.cgi?address=4ABCD&token=123456789"
    );
}

#[test]
fn configured_modes_map_to_runtime_modes() {
    assert_eq!(RuntimeMode::from(XvbMode::Auto), RuntimeMode::Auto);
    assert_eq!(RuntimeMode::from(XvbMode::ManualXvb), RuntimeMode::ManualXvb);
    assert_eq!(RuntimeMode::from(XvbMode::ManualP2pool), RuntimeMode::ManualP2pool);
    assert_eq!(RuntimeMode::from(XvbMode::Hero), RuntimeMode::Hero);
    assert_eq!(
        RuntimeMode::from(XvbMode::ManualDonationLevel),
        RuntimeMode::ManualDonationLevel
    );
    assert_eq!(
        RuntimeDonationLevel::from(ManualDonationLevel::Donor),
        RuntimeDonationLevel::Donor
    );
    assert_eq!(
        RuntimeDonationLevel::from(ManualDonationLevel::DonorVIP),
        RuntimeDonationLevel::DonorVIP
    );
    assert_eq!(
        RuntimeDonationLevel::from(ManualDonationLevel::DonorWhale),
        RuntimeDonationLevel::DonorWhale
    );
    assert_eq!(
        RuntimeDonationLevel::from(ManualDonationLevel::DonorMega),
        RuntimeDonationLevel::DonorMega
    );
}

#[test]
fn fresh_private_stats_are_zeroed() {
    let s = XvbPrivStats::new();
    assert_eq!(s.fails, 0);
    assert_eq!(s.donor_1hr_avg, 0);
    assert_eq!(s.donor_24hr_avg, 0);
    assert!(!s.win_current);
    assert_eq!(s.round_participate, None);
    assert_eq!(s.time_switch_node, 0);
    assert_eq!(s.msg_indicator, "");
    assert_eq!(s.runtime_mode, RuntimeMode::Auto);
    assert_eq!(s.runtime_manual_amount, 0);
    assert_eq!(s.runtime_manual_donation_level, RuntimeDonationLevel::Donor);
}
