use vstd::prelude::*;

verus! {

/// Poor-signal level used when a packet carries none: no contact, the worst case.
pub const NO_CONTACT_SIGNAL_LEVEL: u8 = 200;

/// The eight absolute band powers of a bridge `eegPower` object, as named on the wire.
#[derive(Clone, Copy, Debug, PartialEq, Eq, Structural)]
pub struct RawEegPower {
    pub delta: u32,
    pub theta: u32,
    pub low_alpha: u32,
    pub high_alpha: u32,
    pub low_beta: u32,
    pub high_beta: u32,
    pub low_gamma: u32,
    pub high_gamma: u32,
}

/// The attention/meditation object of a bridge packet; either score may be absent.
#[derive(Clone, Copy, Debug, PartialEq, Eq, Structural)]
pub struct RawESense {
    pub attention: Option<u8>,
    pub meditation: Option<u8>,
}

/// One decoded line of the bridge stream. Every part is optional: each packet
/// type carries only the fields of its own update.
#[derive(Clone, Copy, Debug, PartialEq, Eq, Structural)]
pub struct TgcPacket {
    pub eeg_power: Option<RawEegPower>,
    pub e_sense: Option<RawESense>,
    pub poor_signal_level: Option<u8>,
}

/// A data-bearing telemetry record: band powers (the wire's high gamma is
/// called mid gamma here), the two eSense scores and the signal quality.
#[derive(Clone, Copy, Debug, PartialEq, Eq, Structural)]
pub struct EegPayload {
    pub delta: u32,
    pub theta: u32,
    pub low_alpha: u32,
    pub high_alpha: u32,
    pub low_beta: u32,
    pub high_beta: u32,
    pub low_gamma: u32,
    pub mid_gamma: u32,
    pub attention: u8,
    pub meditation: u8,
    pub poor_signal_level: u8,
}

/// The value of an optional score, zero when absent.
pub open spec fn score_or_zero(s: Option<u8>) -> u8 {
    match s {
        Some(v) => v,
        None => 0,
    }
}

/// The record that a decoded packet stands for: none without a band-power
/// object; otherwise the powers, with absent scores read as zero and an absent
/// signal level read as no contact.
pub open spec fn payload_of(packet: TgcPacket) -> Option<EegPayload> {
    match packet.eeg_power {
        None => None,
        Some(p) => {
            let (attention, meditation) = match packet.e_sense {
                Some(s) => (score_or_zero(s.attention), score_or_zero(s.meditation)),
                None => (0u8, 0u8),
            };
            Some(
                EegPayload {
                    delta: p.delta,
                    theta: p.theta,
                    low_alpha: p.low_alpha,
                    high_alpha: p.high_alpha,
                    low_beta: p.low_beta,
                    high_beta: p.high_beta,
                    low_gamma: p.low_gamma,
                    mid_gamma: p.high_gamma,
                    attention,
                    meditation,
                    poor_signal_level: match packet.poor_signal_level {
                        Some(l) => l,
                        None => NO_CONTACT_SIGNAL_LEVEL,
                    },
                },
            )
        },
    }
}

/// What one line of the stream yields: nothing for an empty line or one that
/// did not decode, else the record of the decoded packet.
pub open spec fn parse_result(line: Seq<char>, decoded: Option<TgcPacket>) -> Option<EegPayload> {
    if line.len() == 0 {
        None
    } else {
        match decoded {
            None => None,
            Some(packet) => payload_of(packet),
        }
    }
}

fn score_or_default(s: Option<u8>) -> (r: u8)
    ensures
        r == score_or_zero(s),
{
    match s {
        Some(v) => v,
        None => 0,
    }
}

/// Turns a decoded packet into a telemetry record, if it carries band powers.
pub fn payload_from_packet(packet: &TgcPacket) -> (r: Option<EegPayload>)
    ensures
        r == payload_of(*packet),
{
    let poor_signal_level = match packet.poor_signal_level {
        Some(l) => l,
        None => NO_CONTACT_SIGNAL_LEVEL,
    };
    let (attention, meditation) = match packet.e_sense {
        Some(s) => (score_or_default(s.attention), score_or_default(s.meditation)),
        None => (0u8, 0u8),
    };
    match packet.eeg_power {
        None => None,
        Some(p) => Some(
            EegPayload {
                delta: p.delta,
                theta: p.theta,
                low_alpha: p.low_alpha,
                high_alpha: p.high_alpha,
                low_beta: p.low_beta,
                high_beta: p.high_beta,
                low_gamma: p.low_gamma,
                mid_gamma: p.high_gamma,
                attention,
                meditation,
                poor_signal_level,
            },
        ),
    }
}

/// Reads one line of the stream. `decoded` is the line decoded as a bridge
/// packet, `None` where it is not one (malformed or of another shape). Heartbeat
/// and status packets, which carry no band powers, yield `None`, as do empty
/// and undecodable lines: none of them is an error.
pub fn parse_packet(line: &str, decoded: Option<TgcPacket>) -> (r: Option<EegPayload>)
    ensures
        r == parse_result(line@, decoded),
{
    if line.unicode_len() == 0 {
        return None;
    }
    match decoded {
        None => None,
        Some(packet) => payload_from_packet(&packet),
    }
}

/// A packet without a band-power object never yields a record.
pub proof fn lemma_no_power_no_record(line: Seq<char>, packet: TgcPacket)
    requires
        packet.eeg_power is None,
    ensures
        payload_of(packet) is None,
        parse_result(line, Some(packet)) is None,
{
}

/// A record's mid gamma is the packet's high gamma, unchanged; the other seven
/// powers are carried over unchanged as well.
pub proof fn lemma_mid_gamma_is_high_gamma(line: Seq<char>, packet: TgcPacket)
    requires
        line.len() > 0,
        packet.eeg_power is Some,
    ensures
        parse_result(line, Some(packet)) is Some,
        parse_result(line, Some(packet))->0.mid_gamma == packet.eeg_power->0.high_gamma,
        parse_result(line, Some(packet))->0.delta == packet.eeg_power->0.delta,
        parse_result(line, Some(packet))->0.low_gamma == packet.eeg_power->0.low_gamma,
{
}

/// A power packet without an eSense object or a signal level reads as
/// attention 0, meditation 0 and no contact.
pub proof fn lemma_power_only_defaults(line: Seq<char>, power: RawEegPower)
    requires
        line.len() > 0,
    ensures
        parse_result(line, Some(TgcPacket { eeg_power: Some(power), e_sense: None, poor_signal_level: None }))
            == Some(
            EegPayload {
                delta: power.delta,
                theta: power.theta,
                low_alpha: power.low_alpha,
                high_alpha: power.high_alpha,
                low_beta: power.low_beta,
                high_beta: power.high_beta,
                low_gamma: power.low_gamma,
                mid_gamma: power.high_gamma,
                attention: 0,
                meditation: 0,
                poor_signal_level: NO_CONTACT_SIGNAL_LEVEL,
            },
        ),
{
}

} // verus!
