//! The network join state machine.
//!
//! Joining runs scan, select, associate, verify: scan the air, pin the
//! client channel to the first scan entry whose SSID matches the configured
//! credentials (or fall back to an unspecified channel when none matches),
//! apply the mixed client/access-point configuration, wait — bounded by a
//! wall-clock deadline — for the radio to start, associate and obtain a
//! non-zero lease, then probe the gateway with echo requests and fail the
//! join when any probe goes unanswered.
//!
//! The radio itself lives outside: the caller performs each radio call and
//! feeds the observed result back in. Every decision — which channel to
//! pin, whether a wait has expired, which error to surface — is made here,
//! and verified.

use vstd::prelude::*;
use vstd::string::StrSliceExecFns;

verus! {

/// Default bounded wait, in milliseconds, for both the radio-start poll and
/// the association poll.
pub const DEFAULT_JOIN_TIMEOUT_MS: u64 = 20000;

/// Default channel of the fallback access point when no scan entry matched.
pub const DEFAULT_AP_CHANNEL: u8 = 1;

/// One entry of a radio scan: SSID, channel, and the radio's reported
/// signal rank. Produced transiently; order is the radio's, never re-sorted.
pub struct AccessPointCandidate {
    pub ssid: Vec<u8>,
    pub channel: u8,
    pub signal: i8,
}

/// The credentials and timing the join runs with.
pub struct JoinConfig {
    /// SSID of the network to associate with.
    pub ssid: Vec<u8>,
    /// Password of that network.
    pub password: Vec<u8>,
    /// SSID the node's own fallback access point advertises, so the node
    /// stays reachable even if client association fails.
    pub fallback_ap_ssid: Vec<u8>,
    /// Bounded wait for the radio-start poll, in milliseconds.
    pub start_timeout_ms: u64,
    /// Bounded wait for the association poll, in milliseconds.
    pub assoc_timeout_ms: u64,
}

impl JoinConfig {
    /// A configuration with the given credentials and the default bounded
    /// waits and fallback access-point name.
    pub fn new(ssid: Vec<u8>, password: Vec<u8>) -> (c: JoinConfig)
        ensures
            c.ssid@ == ssid@,
            c.password@ == password@,
            c.start_timeout_ms == DEFAULT_JOIN_TIMEOUT_MS,
            c.assoc_timeout_ms == DEFAULT_JOIN_TIMEOUT_MS,
    {
        JoinConfig {
            ssid,
            password,
            fallback_ap_ssid: "aptest".as_bytes_vec(),
            start_timeout_ms: DEFAULT_JOIN_TIMEOUT_MS,
            assoc_timeout_ms: DEFAULT_JOIN_TIMEOUT_MS,
        }
    }
}

/// Why a join failed.
#[derive(Clone, Copy, PartialEq, Eq, Structural, Debug)]
pub enum JoinError {
    /// The radio never reported itself started within the bounded wait.
    StartTimeout,
    /// Association or the address lease never came within the bounded wait.
    AssociationTimeout,
    /// Association succeeded but some gateway probe went unanswered.
    GatewayUnreachable,
    /// The scan itself failed.
    ScanFailed,
}

/// A successful join: the leased addresses, tagged by whether the client
/// channel was pinned from a scan match or negotiated as a fallback.
#[derive(Clone, Copy, PartialEq, Eq, Structural, Debug)]
pub enum JoinOutcome {
    /// The configured SSID was seen in the scan; the join ran on its
    /// channel.
    Joined { local_ip: u32, gateway_ip: u32 },
    /// The configured SSID was not seen; the radio negotiated the channel,
    /// and the join still went through.
    JoinedFallback { local_ip: u32, gateway_ip: u32 },
}

/// What one poll of a bounded wait decided.
#[derive(Clone, Copy, PartialEq, Eq, Structural, Debug)]
pub enum PollOutcome {
    /// The awaited condition holds; move to the next join step.
    Proceed,
    /// Not yet, and the deadline has not passed: poll again.
    Wait,
    /// The deadline passed without the condition: the join has failed.
    Fail { error: JoinError },
}

/// The radio configuration to apply before starting: client side pinned to
/// the selected channel, plus the always-on fallback access point.
pub struct RadioSettings {
    pub client_ssid: Vec<u8>,
    pub client_password: Vec<u8>,
    /// Channel of the matched scan entry, or none to let the radio
    /// negotiate.
    pub client_channel: Option<u8>,
    pub ap_ssid: Vec<u8>,
    pub ap_channel: u8,
}

/// Where the join currently stands.
#[derive(Clone, Copy, PartialEq, Eq, Structural, Debug)]
pub enum JoinPhase {
    /// Waiting for the scan result.
    Scanning,
    /// Radio configured and told to start; polling for "started" until the
    /// deadline.
    WaitingStart { deadline_ms: u64 },
    /// Started; the associate request is being issued.
    Connecting,
    /// Polling for association plus a non-zero lease until the deadline.
    WaitingAssociation { deadline_ms: u64 },
    /// Associated; reading the leased local/gateway address pair.
    ReadingAddresses,
    /// Probing the gateway for reachability.
    Probing { local_ip: u32, gateway_ip: u32 },
    /// The join concluded successfully.
    Complete,
    /// The join concluded with an error.
    Failed { error: JoinError },
}

/// The channel selection rule: the channel of the first scan entry whose
/// SSID equals the configured one, or none when no entry matches.
pub open spec fn spec_selected_channel(cands: Seq<AccessPointCandidate>, ssid: Seq<u8>) -> Option<
    u8,
>
    decreases cands.len(),
{
    if cands.len() == 0 {
        None
    } else if cands[0].ssid@ == ssid {
        Some(cands[0].channel)
    } else {
        spec_selected_channel(cands.skip(1), ssid)
    }
}

/// What a bounded-wait poll decides from the observed condition and clock:
/// proceed when the condition holds, keep waiting strictly before the
/// deadline, fail with the step's error at or after it.
pub open spec fn spec_poll_outcome(
    condition: bool,
    now_ms: u64,
    deadline_ms: u64,
    error: JoinError,
) -> PollOutcome {
    if condition {
        PollOutcome::Proceed
    } else if now_ms < deadline_ms {
        PollOutcome::Wait
    } else {
        PollOutcome::Fail { error }
    }
}

/// Byte-for-byte equality of two byte strings.
fn bytes_eq(a: &Vec<u8>, b: &Vec<u8>) -> (r: bool)
    ensures
        r == (a@ == b@),
{
    if a.len() != b.len() {
        return false;
    }
    let mut i: usize = 0;
    while i < a.len()
        invariant
            i <= a@.len(),
            a@.len() == b@.len(),
            forall|j: int| 0 <= j < i ==> a@[j] == b@[j],
        decreases a@.len() - i,
    {
        if a[i] != b[i] {
            return false;
        }
        i += 1;
    }
    proof {
        assert(a@ =~= b@);
    }
    true
}

/// Find the channel to pin: the first scan entry matching `ssid`, in the
/// radio-reported order, first match wins.
pub fn select_channel(cands: &Vec<AccessPointCandidate>, ssid: &Vec<u8>) -> (r: Option<u8>)
    ensures
        r == spec_selected_channel(cands@, ssid@),
{
    let mut i: usize = 0;
    proof {
        assert(cands@.skip(0) =~= cands@);
    }
    while i < cands.len()
        invariant
            i <= cands@.len(),
            spec_selected_channel(cands@, ssid@) == spec_selected_channel(
                cands@.skip(i as int),
                ssid@,
            ),
        decreases cands@.len() - i,
    {
        proof {
            assert(cands@.skip(i as int)[0] == cands@[i as int]);
            assert(cands@.skip(i as int).skip(1) =~= cands@.skip(i + 1 as int));
        }
        if bytes_eq(&cands[i].ssid, ssid) {
            return Some(cands[i].channel);
        }
        i += 1;
    }
    None
}

/// The join state machine. The caller owns the radio; this owns every
/// decision.
pub struct NetworkJoiner {
    pub config: JoinConfig,
    pub phase: JoinPhase,
    /// The channel selected from the scan, once the scan has been consumed.
    pub matched_channel: Option<u8>,
}

impl NetworkJoiner {
    /// A joiner about to scan.
    pub fn new(config: JoinConfig) -> (j: NetworkJoiner)
        ensures
            j.phase == JoinPhase::Scanning,
            j.config.ssid@ == config.ssid@,
            j.config.password@ == config.password@,
            j.config.fallback_ap_ssid@ == config.fallback_ap_ssid@,
            j.config.start_timeout_ms == config.start_timeout_ms,
            j.config.assoc_timeout_ms == config.assoc_timeout_ms,
            j.matched_channel is None,
    {
        NetworkJoiner { config, phase: JoinPhase::Scanning, matched_channel: None }
    }

    /// The scan itself failed: the join is over.
    pub fn on_scan_failed(&mut self) -> (e: JoinError)
        requires
            old(self).phase == JoinPhase::Scanning,
        ensures
            e == JoinError::ScanFailed,
            final(self).phase == (JoinPhase::Failed { error: JoinError::ScanFailed }),
            final(self).config == old(self).config,
            final(self).matched_channel == old(self).matched_channel,
    {
        self.phase = JoinPhase::Failed { error: JoinError::ScanFailed };
        JoinError::ScanFailed
    }

    /// Consume the scan results: select the channel by the first-match
    /// rule, and hand back the mixed client/access-point settings to apply
    /// before starting the radio. The start deadline begins now.
    pub fn on_scan_results(
        &mut self,
        cands: &Vec<AccessPointCandidate>,
        now_ms: u64,
    ) -> (settings: RadioSettings)
        requires
            old(self).phase == JoinPhase::Scanning,
            now_ms + old(self).config.start_timeout_ms <= u64::MAX,
        ensures
            settings.client_channel == spec_selected_channel(cands@, old(self).config.ssid@),
            settings.client_ssid@ == old(self).config.ssid@,
            settings.client_password@ == old(self).config.password@,
            settings.ap_ssid@ == old(self).config.fallback_ap_ssid@,
            settings.ap_channel == (match spec_selected_channel(cands@, old(self).config.ssid@) {
                Some(c) => c,
                None => DEFAULT_AP_CHANNEL,
            }),
            final(self).matched_channel == spec_selected_channel(cands@, old(self).config.ssid@),
            final(self).phase == (JoinPhase::WaitingStart {
                deadline_ms: (now_ms + old(self).config.start_timeout_ms) as u64,
            }),
            final(self).config == old(self).config,
    {
        let channel = select_channel(cands, &self.config.ssid);
        self.matched_channel = channel;
        let ap_channel = match channel {
            Some(c) => c,
            None => DEFAULT_AP_CHANNEL,
        };
        self.phase = JoinPhase::WaitingStart {
            deadline_ms: now_ms + self.config.start_timeout_ms,
        };
        let client_ssid = clone_bytes(&self.config.ssid);
        let client_password = clone_bytes(&self.config.password);
        let ap_ssid = clone_bytes(&self.config.fallback_ap_ssid);
        RadioSettings { client_ssid, client_password, client_channel: channel, ap_ssid, ap_channel }
    }

    /// One poll of the bounded wait for the radio to report itself
    /// started. `started` is the radio's answer, `now_ms` the wall clock.
    pub fn poll_started(&mut self, started: bool, now_ms: u64) -> (r: PollOutcome)
        requires
            old(self).phase is WaitingStart,
        ensures
            r == spec_poll_outcome(
                started,
                now_ms,
                old(self).phase->WaitingStart_deadline_ms,
                JoinError::StartTimeout,
            ),
            r is Proceed ==> final(self).phase == JoinPhase::Connecting,
            r is Wait ==> final(self).phase == old(self).phase,
            r is Fail ==> final(self).phase == (JoinPhase::Failed {
                error: JoinError::StartTimeout,
            }),
            final(self).config == old(self).config,
            final(self).matched_channel == old(self).matched_channel,
    {
        let deadline_ms = match self.phase {
            JoinPhase::WaitingStart { deadline_ms } => deadline_ms,
            _ => 0,
        };
        if started {
            self.phase = JoinPhase::Connecting;
            PollOutcome::Proceed
        } else if now_ms < deadline_ms {
            PollOutcome::Wait
        } else {
            self.phase = JoinPhase::Failed { error: JoinError::StartTimeout };
            PollOutcome::Fail { error: JoinError::StartTimeout }
        }
    }

    /// The associate request has been issued; the association deadline
    /// begins now.
    pub fn on_connect_issued(&mut self, now_ms: u64)
        requires
            old(self).phase == JoinPhase::Connecting,
            now_ms + old(self).config.assoc_timeout_ms <= u64::MAX,
        ensures
            final(self).phase == (JoinPhase::WaitingAssociation {
                deadline_ms: (now_ms + old(self).config.assoc_timeout_ms) as u64,
            }),
            final(self).config == old(self).config,
            final(self).matched_channel == old(self).matched_channel,
    {
        self.phase = JoinPhase::WaitingAssociation {
            deadline_ms: now_ms + self.config.assoc_timeout_ms,
        };
    }

    /// One poll of the bounded wait for association: the awaited condition
    /// is an established association together with a non-zero leased
    /// address.
    pub fn poll_association(&mut self, connected: bool, local_ip: u32, now_ms: u64) -> (r:
        PollOutcome)
        requires
            old(self).phase is WaitingAssociation,
        ensures
            r == spec_poll_outcome(
                connected && local_ip != 0,
                now_ms,
                old(self).phase->WaitingAssociation_deadline_ms,
                JoinError::AssociationTimeout,
            ),
            r is Proceed ==> final(self).phase == JoinPhase::ReadingAddresses,
            r is Wait ==> final(self).phase == old(self).phase,
            r is Fail ==> final(self).phase == (JoinPhase::Failed {
                error: JoinError::AssociationTimeout,
            }),
            final(self).config == old(self).config,
            final(self).matched_channel == old(self).matched_channel,
    {
        let deadline_ms = match self.phase {
            JoinPhase::WaitingAssociation { deadline_ms } => deadline_ms,
            _ => 0,
        };
        if connected && local_ip != 0 {
            self.phase = JoinPhase::ReadingAddresses;
            PollOutcome::Proceed
        } else if now_ms < deadline_ms {
            PollOutcome::Wait
        } else {
            self.phase = JoinPhase::Failed { error: JoinError::AssociationTimeout };
            PollOutcome::Fail { error: JoinError::AssociationTimeout }
        }
    }

    /// Record the leased local/gateway pair; the returned address is the
    /// target the caller must send the echo probes to.
    pub fn on_addresses(&mut self, local_ip: u32, gateway_ip: u32) -> (target: u32)
        requires
            old(self).phase == JoinPhase::ReadingAddresses,
        ensures
            target == gateway_ip,
            final(self).phase == (JoinPhase::Probing { local_ip, gateway_ip }),
            final(self).config == old(self).config,
            final(self).matched_channel == old(self).matched_channel,
    {
        self.phase = JoinPhase::Probing { local_ip, gateway_ip };
        gateway_ip
    }

    /// Judge the gateway probe. Association has already succeeded by this
    /// phase; still, any unanswered probe fails the join with
    /// `GatewayUnreachable`. Equal counts conclude it, tagged by whether
    /// the channel came from a scan match.
    pub fn on_ping_result(&mut self, transmitted: u32, received: u32) -> (r: Result<
        JoinOutcome,
        JoinError,
    >)
        requires
            old(self).phase is Probing,
        ensures
            transmitted != received ==> r == Err::<JoinOutcome, JoinError>(
                JoinError::GatewayUnreachable,
            ) && final(self).phase == (JoinPhase::Failed { error: JoinError::GatewayUnreachable }),
            transmitted == received && old(self).matched_channel is Some ==> r == Ok::<
                JoinOutcome,
                JoinError,
            >(
                JoinOutcome::Joined {
                    local_ip: old(self).phase->Probing_local_ip,
                    gateway_ip: old(self).phase->Probing_gateway_ip,
                },
            ) && final(self).phase == JoinPhase::Complete,
            transmitted == received && old(self).matched_channel is None ==> r == Ok::<
                JoinOutcome,
                JoinError,
            >(
                JoinOutcome::JoinedFallback {
                    local_ip: old(self).phase->Probing_local_ip,
                    gateway_ip: old(self).phase->Probing_gateway_ip,
                },
            ) && final(self).phase == JoinPhase::Complete,
            final(self).config == old(self).config,
            final(self).matched_channel == old(self).matched_channel,
    {
        let (local_ip, gateway_ip) = match self.phase {
            JoinPhase::Probing { local_ip, gateway_ip } => (local_ip, gateway_ip),
            _ => (0, 0),
        };
        if transmitted != received {
            self.phase = JoinPhase::Failed { error: JoinError::GatewayUnreachable };
            Err(JoinError::GatewayUnreachable)
        } else {
            self.phase = JoinPhase::Complete;
            match self.matched_channel {
                Some(_) => Ok(JoinOutcome::Joined { local_ip, gateway_ip }),
                None => Ok(JoinOutcome::JoinedFallback { local_ip, gateway_ip }),
            }
        }
    }
}

/// The first-match rule, characterized: whenever entry `i` matches the
/// configured SSID and no earlier entry does, the selection is exactly that
/// entry's channel — whether or not later entries also match. Selection is a
/// function of the candidate sequence alone, so the same scan result always
/// yields the same choice.
pub proof fn lemma_first_match_pins_channel(
    cands: Seq<AccessPointCandidate>,
    ssid: Seq<u8>,
    i: int,
)
    requires
        0 <= i < cands.len(),
        cands[i].ssid@ == ssid,
        forall|j: int| 0 <= j < i ==> cands[j].ssid@ != ssid,
    ensures
        spec_selected_channel(cands, ssid) == Some(cands[i].channel),
    decreases i,
{
    if i > 0 {
        assert(cands[0].ssid@ != ssid);
        assert(cands.skip(1)[i - 1] == cands[i]);
        assert forall|j: int| 0 <= j < i - 1 implies cands.skip(1)[j].ssid@ != ssid by {
            assert(cands.skip(1)[j] == cands[j + 1]);
        }
        lemma_first_match_pins_channel(cands.skip(1), ssid, i - 1);
    }
}

/// When the configured SSID appears exactly once in the scan result, the
/// joiner pins that candidate's channel and never falls back to the
/// unspecified-channel mode.
pub proof fn lemma_unique_match_pins_channel(
    cands: Seq<AccessPointCandidate>,
    ssid: Seq<u8>,
    i: int,
)
    requires
        0 <= i < cands.len(),
        cands[i].ssid@ == ssid,
        forall|j: int| 0 <= j < cands.len() && j != i ==> cands[j].ssid@ != ssid,
    ensures
        spec_selected_channel(cands, ssid) == Some(cands[i].channel),
        spec_selected_channel(cands, ssid) is Some,
{
    lemma_first_match_pins_channel(cands, ssid, i);
}

/// When no scan entry matches the configured SSID — the empty scan result
/// included — the selection is the fallback: no pinned channel, the radio
/// negotiates.
pub proof fn lemma_no_match_falls_back(cands: Seq<AccessPointCandidate>, ssid: Seq<u8>)
    requires
        forall|j: int| 0 <= j < cands.len() ==> cands[j].ssid@ != ssid,
    ensures
        spec_selected_channel(cands, ssid) is None,
    decreases cands.len(),
{
    if cands.len() > 0 {
        assert(cands[0].ssid@ != ssid);
        assert forall|j: int| 0 <= j < cands.skip(1).len() implies cands.skip(1)[j].ssid@
            != ssid by {
            assert(cands.skip(1)[j] == cands[j + 1]);
        }
        lemma_no_match_falls_back(cands.skip(1), ssid);
    }
}

/// The bounded waits are respected: once the wall clock reaches a poll's
/// deadline, the poll never asks to keep waiting — it either proceeds (the
/// condition finally held) or fails with that step's timeout error, so a
/// join whose awaited condition never becomes true returns at its first
/// poll past the deadline rather than waiting indefinitely.
pub proof fn lemma_deadline_resolves(
    condition: bool,
    now_ms: u64,
    deadline_ms: u64,
    error: JoinError,
)
    requires
        now_ms >= deadline_ms,
    ensures
        spec_poll_outcome(condition, now_ms, deadline_ms, error) != PollOutcome::Wait,
{
}

/// Copy a byte string.
fn clone_bytes(v: &Vec<u8>) -> (r: Vec<u8>)
    ensures
        r@ == v@,
{
    let r = v.clone();
    proof {
        assert(r@ =~= v@);
    }
    r
}

} // verus!
