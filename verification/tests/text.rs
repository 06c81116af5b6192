//! Text utilities: marker matching, tokenization, decimal rendering,
//! PTY line ingestion, status classification and the secret holder.

use gupaxx::digits::{all_digits, u64_to_string};
use gupaxx::matcher::{contains_str, str_eq};
use gupaxx::process::{ProcessSignal, ProcessState};
use gupaxx::pty::ingest_output_line;
use gupaxx::status::{
    run_action_gate, status_node, status_p2pool, status_xmrig, status_xp, status_xvb,
    xvb_start_ready, xvb_token_ok, StatusColor,
};
use gupaxx::sudo::SudoState;
use gupaxx::tokens::split_ascii_whitespace;

#[test]
fn substring_matching_finds_markers() {
    assert!(contains_str("net: new job from pool", "new job"));
    assert!(!contains_str("net: old job from pool", "new job"));
    assert!(contains_str("new job", "new job"));
    assert!(!contains_str("", "new job"));
    assert!(contains_str("anything", ""));
    assert!(!contains_str("short", "much longer needle"));
}

#[test]
fn string_equality_is_character_exact() {
    assert!(str_eq("--threads", "--threads"));
    assert!(!str_eq("--threads", "--thread"));
    assert!(!str_eq("--http-host", "--http-port"));
    assert!(str_eq("", ""));
}

#[test]
fn whitespace_splitting_drops_empty_tokens() {
    assert_eq!(
        split_ascii_whitespace("--url localhost:3333 --threads 8"),
        vec!["--url", "localhost:3333", "--threads", "8"]
    );
    assert_eq!(split_ascii_whitespace("  a \t b \n c  "), vec!["a", "b", "c"]);
    assert_eq!(split_ascii_whitespace(""), Vec::<String>::new());
    assert_eq!(split_ascii_whitespace(" \t\n "), Vec::<String>::new());
    assert_eq!(split_ascii_whitespace("one"), vec!["one"]);
}

#[test]
fn decimal_rendering_is_exact() {
    assert_eq!(u64_to_string(0), "0");
    assert_eq!(u64_to_string(7), "7");
    assert_eq!(u64_to_string(30), "30");
    assert_eq!(u64_to_string(900), "900");
    assert_eq!(u64_to_string(18088), "18088");
    assert_eq!(u64_to_string(u64::MAX), "18446744073709551615");
}

#[test]
fn digit_scan_rejects_non_digits() {
    assert!(all_digits("123456789"));
    assert!(all_digits(""));
    assert!(!all_digits("12a45"));
    assert!(!all_digits("+1234"));
    assert!(!all_digits("12 34"));
}

#[test]
fn token_syntax_is_nine_digits() {
    assert!(xvb_token_ok("123456789"));
    assert!(xvb_token_ok("000000000"));
    assert!(!xvb_token_ok("12345678"));
    assert!(!xvb_token_ok("1234567890"));
    assert!(!xvb_token_ok("12345678a"));
    assert!(!xvb_token_ok("+23456789"));
    assert!(xvb_start_ready(true, "987654321"));
    assert!(!xvb_start_ready(false, "987654321"));
    assert!(!xvb_start_ready(true, "98765432"));
}

#[test]
fn ingested_lines_are_stripped_and_fanned_into_both_buffers() {
    let mut parse = String::new();
    let mut pub_buf = String::from("prior\n");
    ingest_output_line(&mut parse, &mut pub_buf, "\x1b[32mnew job\x1b[0m from pool");
    assert_eq!(parse, "new job from pool\n");
    assert_eq!(pub_buf, "prior\nnew job from pool\n");
    ingest_output_line(&mut parse, &mut pub_buf, "plain line");
    assert_eq!(parse, "new job from pool\nplain line\n");
    assert_eq!(pub_buf, "prior\nnew job from pool\nplain line\n");
}

#[test]
fn status_colors_classify_each_worker() {
    assert_eq!(status_p2pool(ProcessState::Alive), StatusColor::Green);
    assert_eq!(status_p2pool(ProcessState::Syncing), StatusColor::Orange);
    assert_eq!(status_p2pool(ProcessState::NotMining), StatusColor::Yellow);
    assert_eq!(status_node(ProcessState::Dead), StatusColor::Gray);
    assert_eq!(status_node(ProcessState::Failed), StatusColor::Red);
    assert_eq!(status_xmrig(ProcessState::NotMining), StatusColor::Orange);
    assert_eq!(status_xmrig(ProcessState::Syncing), StatusColor::Yellow);
    assert_eq!(status_xp(ProcessState::OfflineNodesAll), StatusColor::Orange);
    assert_eq!(status_xp(ProcessState::Middle), StatusColor::Yellow);
    assert_eq!(status_xvb(ProcessState::Syncing), StatusColor::Orange);
    assert_eq!(status_xvb(ProcessState::Waiting), StatusColor::Yellow);
    assert_eq!(status_xvb(ProcessState::Alive), StatusColor::Green);
}

#[test]
fn action_gate_follows_transition_and_liveness() {
    let waiting = run_action_gate(true, true);
    assert!(!waiting.restart && !waiting.stop && !waiting.start);
    let alive = run_action_gate(false, true);
    assert!(alive.restart && alive.stop && !alive.start);
    let stopped = run_action_gate(false, false);
    assert!(!stopped.restart && !stopped.stop && stopped.start);
}

#[test]
fn secret_holder_wipes_on_every_exit() {
    let mut sudo = SudoState::new();
    assert!(sudo.is_wiped());
    sudo.pass = "SECRET-REDACTED".to_string();
    sudo.signal = ProcessSignal::Start;
    assert!(!sudo.is_wiped());
    let pass = sudo.take_pass();
    assert_eq!(pass, "SECRET-REDACTED");
    assert!(sudo.is_wiped());
    assert_eq!(sudo.signal, ProcessSignal::Start);
    sudo.pass = "SECRET-REDACTED".to_string();
    sudo.wipe();
    assert!(sudo.is_wiped());
}
