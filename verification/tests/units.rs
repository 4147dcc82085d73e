//! The library's pure functions on concrete values.

use worktrunk_wip::config::{config_stage_mode, parse_stage_mode, resolve_stage_mode};
use worktrunk_wip::text::{parse_count, trim, CountError};
use worktrunk_wip::types::{PullOutcome, PushOutcome, StageMode};
use worktrunk_wip::util::{format_wip_message, resolve_remote, wip_message};

#[test]
fn wip_message_contract() {
    let _: fn() -> String = wip_message;
    let msg = wip_message();
    assert!(msg.starts_with("wip @ "), "got: {msg}");
    assert!(msg.contains(" — "), "got: {msg}");
}

#[test]
fn wip_message_ends_with_a_utc_timestamp() {
    let msg = wip_message();
    let ts = msg.rsplit(" — ").next().unwrap();
    assert_eq!(ts.len(), 20, "got: {ts}");
    assert!(ts.ends_with('Z'));
    assert_eq!(&ts[4..5], "-");
    assert_eq!(&ts[10..11], "T");
}

#[test]
fn format_wip_message_exact() {
    assert_eq!(
        format_wip_message("laptop", "2026-07-15T10:00:00Z"),
        "wip @ laptop — 2026-07-15T10:00:00Z"
    );
}

#[test]
fn outcome_serialization_contract() {
    assert_eq!(serde_json::to_string(PushOutcome::Pushed.wire_name()).unwrap(), "\"pushed\"");
    assert_eq!(serde_json::to_string(PushOutcome::UpToDate.wire_name()).unwrap(), "\"up-to-date\"");
    assert_eq!(
        serde_json::to_string(PullOutcome::FastForwarded.wire_name()).unwrap(),
        "\"fast-forwarded\""
    );
    assert_eq!(serde_json::to_string(PullOutcome::UpToDate.wire_name()).unwrap(), "\"up-to-date\"");
}

#[test]
fn resolve_remote_prefers_configured_push_remote() {
    assert_eq!(resolve_remote(Some("upstream".to_string())), "upstream");
    assert_eq!(resolve_remote(None), "origin");
}

#[test]
fn stage_flag_beats_config() {
    let (all, tr, none) = (StageMode::All, StageMode::TrackedOnly, StageMode::IndexOnly);
    assert_eq!(resolve_stage_mode(Some(all), Some(none), Some(tr)), all);
    assert_eq!(resolve_stage_mode(None, Some(none), Some(tr)), none);
    assert_eq!(resolve_stage_mode(None, None, Some(tr)), tr);
    assert_eq!(resolve_stage_mode(None, None, None), all);
}

#[test]
fn stage_names() {
    assert_eq!(parse_stage_mode("all"), Some(StageMode::All));
    assert_eq!(parse_stage_mode("tracked"), Some(StageMode::TrackedOnly));
    assert_eq!(parse_stage_mode("none"), Some(StageMode::IndexOnly));
    assert_eq!(parse_stage_mode("All"), None);
    assert_eq!(parse_stage_mode(""), None);
    assert_eq!(parse_stage_mode("nonesuch"), None);
}

#[test]
fn config_stage_reads_wip_table() {
    assert_eq!(config_stage_mode("[wip]\nstage = \"none\"\n"), Some(StageMode::IndexOnly));
    assert_eq!(
        config_stage_mode("worktree-path = \"x\"\n\n[wip]\nstage = \"tracked\"\n"),
        Some(StageMode::TrackedOnly)
    );
    assert_eq!(config_stage_mode("[wip]\nstage = 3\n"), None);
    assert_eq!(config_stage_mode("[sync]\nstage = \"none\"\n"), None);
    assert_eq!(config_stage_mode("[wip\n"), None);
    assert_eq!(config_stage_mode(""), None);
}

#[test]
fn trim_matches_str_trim() {
    for s in ["", "   ", "3\n", "\t 42 \r\n", "\u{a0}7\u{3000}", "a b", "\u{2028}x\u{85}"] {
        assert_eq!(trim(s), s.trim(), "on {s:?}");
    }
}

#[test]
fn parse_count_matches_usize_from_str() {
    assert_eq!(parse_count("0"), Ok(0));
    assert_eq!(parse_count("17"), Ok(17));
    assert_eq!(parse_count("+5"), Ok(5));
    assert_eq!(parse_count(""), Err(CountError::Empty));
    assert_eq!(parse_count("+"), Err(CountError::InvalidDigit));
    assert_eq!(parse_count("-1"), Err(CountError::InvalidDigit));
    assert_eq!(parse_count("1 2"), Err(CountError::InvalidDigit));
    assert_eq!(parse_count("18446744073709551615"), Ok(usize::MAX));
    assert_eq!(parse_count("18446744073709551616"), Err(CountError::PosOverflow));
    assert_eq!(parse_count("99999999999999999999x"), Err(CountError::PosOverflow));
    for s in ["0", "42", "+9", "", "+", "-3", "x", "007", "18446744073709551616"] {
        assert_eq!(parse_count(s).ok(), s.parse::<usize>().ok(), "on {s:?}");
    }
}

#[test]
fn count_errors_describe_like_parse_int_error() {
    assert_eq!(CountError::Empty.describe(), "".parse::<usize>().unwrap_err().to_string());
    assert_eq!(CountError::InvalidDigit.describe(), "x".parse::<usize>().unwrap_err().to_string());
    assert_eq!(
        CountError::PosOverflow.describe(),
        "99999999999999999999".parse::<usize>().unwrap_err().to_string()
    );
}
