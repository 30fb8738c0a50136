use camstream::join::{
    select_channel, AccessPointCandidate, JoinConfig, JoinError, JoinOutcome, NetworkJoiner,
    PollOutcome,
};

fn cand(ssid: &str, channel: u8, signal: i8) -> AccessPointCandidate {
    AccessPointCandidate {
        ssid: ssid.as_bytes().to_vec(),
        channel,
        signal,
    }
}

fn config(ssid: &str, password: &str) -> JoinConfig {
    JoinConfig::new(ssid.as_bytes().to_vec(), password.as_bytes().to_vec())
}

#[test]
fn unique_match_pins_channel() {
    let cands = vec![cand("other", 1, -40), cand("target", 6, -52)];
    let ssid = "target".as_bytes().to_vec();
    assert_eq!(select_channel(&cands, &ssid), Some(6));
}

#[test]
fn empty_scan_falls_back() {
    let cands: Vec<AccessPointCandidate> = Vec::new();
    let ssid = "target".as_bytes().to_vec();
    assert_eq!(select_channel(&cands, &ssid), None);
}

#[test]
fn no_match_falls_back() {
    let cands = vec![cand("alpha", 1, -40), cand("beta", 11, -60)];
    let ssid = "target".as_bytes().to_vec();
    assert_eq!(select_channel(&cands, &ssid), None);
}

#[test]
fn multiple_matches_first_wins() {
    let cands = vec![cand("target", 3, -70), cand("target", 9, -30)];
    let ssid = "target".as_bytes().to_vec();
    assert_eq!(select_channel(&cands, &ssid), Some(3));
    // Same candidate sequence, same choice.
    assert_eq!(select_channel(&cands, &ssid), select_channel(&cands, &ssid));
}

#[test]
fn config_defaults_are_twenty_seconds() {
    let c = config("target", "secret");
    assert_eq!(c.start_timeout_ms, 20000);
    assert_eq!(c.assoc_timeout_ms, 20000);
    assert_eq!(c.fallback_ap_ssid, "aptest".as_bytes().to_vec());
}

#[test]
fn scan_failure_yields_scan_failed() {
    let mut j = NetworkJoiner::new(config("target", "secret"));
    assert_eq!(j.on_scan_failed(), JoinError::ScanFailed);
}

#[test]
fn start_timeout_respected() {
    let mut j = NetworkJoiner::new(config("target", "secret"));
    let cands = vec![cand("target", 6, -52)];
    let settings = j.on_scan_results(&cands, 1000);
    assert_eq!(settings.client_channel, Some(6));
    // Strictly before the deadline the poll keeps waiting...
    assert_eq!(j.poll_started(false, 20999), PollOutcome::Wait);
    // ...and at the deadline it resolves instead of waiting forever.
    assert_eq!(
        j.poll_started(false, 21000),
        PollOutcome::Fail { error: JoinError::StartTimeout }
    );
}

#[test]
fn association_timeout_respected() {
    let mut j = NetworkJoiner::new(config("target", "secret"));
    let cands = vec![cand("target", 6, -52)];
    let _ = j.on_scan_results(&cands, 0);
    assert_eq!(j.poll_started(true, 5), PollOutcome::Proceed);
    j.on_connect_issued(10);
    assert_eq!(j.poll_association(false, 0, 10000), PollOutcome::Wait);
    assert_eq!(
        j.poll_association(false, 0, 20010),
        PollOutcome::Fail { error: JoinError::AssociationTimeout }
    );
}

#[test]
fn zero_lease_keeps_waiting() {
    let mut j = NetworkJoiner::new(config("target", "secret"));
    let cands = vec![cand("target", 6, -52)];
    let _ = j.on_scan_results(&cands, 0);
    assert_eq!(j.poll_started(true, 1), PollOutcome::Proceed);
    j.on_connect_issued(2);
    // Associated but still leased 0.0.0.0: the condition is not met yet.
    assert_eq!(j.poll_association(true, 0, 100), PollOutcome::Wait);
    assert_eq!(j.poll_association(true, 0x0A00_0002, 200), PollOutcome::Proceed);
}

#[test]
fn gateway_probe_failure_after_association() {
    let mut j = NetworkJoiner::new(config("target", "secret"));
    let cands = vec![cand("target", 6, -52)];
    let _ = j.on_scan_results(&cands, 0);
    assert_eq!(j.poll_started(true, 1), PollOutcome::Proceed);
    j.on_connect_issued(2);
    assert_eq!(j.poll_association(true, 0x0A00_0002, 50), PollOutcome::Proceed);
    let target = j.on_addresses(0x0A00_0002, 0x0A00_0001);
    assert_eq!(target, 0x0A00_0001);
    // Association succeeded, yet unanswered probes fail the join.
    assert_eq!(
        j.on_ping_result(4, 2),
        Err(JoinError::GatewayUnreachable)
    );
}

#[test]
fn end_to_end_join_pins_channel_and_carries_lease() {
    let mut j = NetworkJoiner::new(config("target", "secret"));
    let cands = vec![cand("other", 1, -40), cand("target", 6, -52)];
    let settings = j.on_scan_results(&cands, 0);
    assert_eq!(settings.client_channel, Some(6));
    assert_eq!(settings.ap_channel, 6);
    assert_eq!(settings.client_ssid, "target".as_bytes().to_vec());
    assert_eq!(j.poll_started(true, 100), PollOutcome::Proceed);
    j.on_connect_issued(150);
    let local = 0x0A00_0002u32;
    let gateway = 0x0A00_0001u32;
    assert_eq!(j.poll_association(true, local, 900), PollOutcome::Proceed);
    let target = j.on_addresses(local, gateway);
    assert_eq!(target, gateway);
    let outcome = j.on_ping_result(5, 5);
    match outcome {
        Ok(JoinOutcome::Joined { local_ip, gateway_ip }) => {
            assert_ne!(local_ip, 0);
            assert_eq!(local_ip, local);
            assert_eq!(gateway_ip, gateway);
        }
        other => panic!("unexpected outcome: {:?}", other),
    }
}

#[test]
fn fallback_join_reports_fallback_outcome() {
    let mut j = NetworkJoiner::new(config("target", "secret"));
    let cands = vec![cand("other", 1, -40)];
    let settings = j.on_scan_results(&cands, 0);
    assert_eq!(settings.client_channel, None);
    assert_eq!(settings.ap_channel, 1);
    assert_eq!(j.poll_started(true, 100), PollOutcome::Proceed);
    j.on_connect_issued(150);
    assert_eq!(j.poll_association(true, 7, 900), PollOutcome::Proceed);
    let _ = j.on_addresses(7, 8);
    assert_eq!(
        j.on_ping_result(3, 3),
        Ok(JoinOutcome::JoinedFallback { local_ip: 7, gateway_ip: 8 })
    );
}
