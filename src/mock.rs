use vstd::prelude::*;
use crate::packet::EegPayload;

verus! {

/// Length, in seconds, of each of the two alternating mock profiles.
pub const MOCK_PHASE_SECS: u64 = 5;

/// A beta-dominant record, which a trained model reads as focused.
pub open spec fn focused_profile() -> EegPayload {
    EegPayload {
        delta: 150_000,
        theta: 80_000,
        low_alpha: 60_000,
        high_alpha: 50_000,
        low_beta: 300_000,
        high_beta: 250_000,
        low_gamma: 40_000,
        mid_gamma: 30_000,
        attention: 75,
        meditation: 40,
        poor_signal_level: 0,
    }
}

/// A low-alpha-dominant record, which a trained model reads as unfocused.
pub open spec fn unfocused_profile() -> EegPayload {
    EegPayload {
        delta: 200_000,
        theta: 90_000,
        low_alpha: 350_000,
        high_alpha: 300_000,
        low_beta: 80_000,
        high_beta: 70_000,
        low_gamma: 30_000,
        mid_gamma: 20_000,
        attention: 35,
        meditation: 65,
        poor_signal_level: 0,
    }
}

/// The mock record for a moment, in whole seconds since the Unix epoch: the
/// focused profile in even five-second windows, the unfocused one in odd ones.
pub open spec fn mock_payload_of(secs: u64) -> EegPayload {
    if (secs / MOCK_PHASE_SECS) % 2 == 0 {
        focused_profile()
    } else {
        unfocused_profile()
    }
}

/// The mock record for a given moment, in whole seconds since the Unix epoch.
pub fn mock_payload_at(secs: u64) -> (r: EegPayload)
    ensures
        r == mock_payload_of(secs),
{
    if (secs / MOCK_PHASE_SECS) % 2 == 0 {
        EegPayload {
            delta: 150_000,
            theta: 80_000,
            low_alpha: 60_000,
            high_alpha: 50_000,
            low_beta: 300_000,
            high_beta: 250_000,
            low_gamma: 40_000,
            mid_gamma: 30_000,
            attention: 75,
            meditation: 40,
            poor_signal_level: 0,
        }
    } else {
        EegPayload {
            delta: 200_000,
            theta: 90_000,
            low_alpha: 350_000,
            high_alpha: 300_000,
            low_beta: 80_000,
            high_beta: 70_000,
            low_gamma: 30_000,
            mid_gamma: 20_000,
            attention: 35,
            meditation: 65,
            poor_signal_level: 0,
        }
    }
}

/// Relies on std::time::SystemTime::now: whole seconds since the Unix epoch,
/// 0 for a clock set before it. Nothing is known of the value.
#[verifier::external_body]
fn unix_time_secs() -> (r: u64) {
    match std::time::SystemTime::now().duration_since(std::time::UNIX_EPOCH) {
        Ok(d) => d.as_secs(),
        Err(_) => 0,
    }
}

/// A synthetic record, so that both labels can be reached without a headset:
/// it alternates between the two profiles every five seconds of wall-clock time.
pub fn mock_eeg_payload() -> (r: EegPayload)
    ensures
        r == focused_profile() || r == unfocused_profile(),
{
    let secs = unix_time_secs();
    mock_payload_at(secs)
}

} // verus!
