use cerebro::packet::{parse_packet, payload_from_packet, EegPayload, RawESense, RawEegPower, TgcPacket};

fn powers() -> RawEegPower {
    RawEegPower {
        delta: 1,
        theta: 2,
        low_alpha: 3,
        high_alpha: 4,
        low_beta: 5,
        high_beta: 6,
        low_gamma: 7,
        high_gamma: 8,
    }
}

// Decodes a bridge line the way the host does, through serde_json's value tree.
fn decode(line: &str) -> Option<TgcPacket> {
    let v: serde_json::Value = serde_json::from_str(line).ok()?;
    let obj = v.as_object()?;
    let byte = |x: &serde_json::Value| x.as_u64().map(|n| n as u8);
    let eeg_power = match obj.get("eegPower") {
        None | Some(serde_json::Value::Null) => None,
        Some(p) => {
            let f = |k: &str| p.get(k).and_then(|x| x.as_u64()).map(|n| n as u32);
            Some(RawEegPower {
                delta: f("delta")?,
                theta: f("theta")?,
                low_alpha: f("lowAlpha")?,
                high_alpha: f("highAlpha")?,
                low_beta: f("lowBeta")?,
                high_beta: f("highBeta")?,
                low_gamma: f("lowGamma")?,
                high_gamma: f("highGamma")?,
            })
        }
    };
    let e_sense = obj.get("eSense").map(|s| RawESense {
        attention: s.get("attention").and_then(byte),
        meditation: s.get("meditation").and_then(byte),
    });
    let poor_signal_level = obj.get("poorSignalLevel").and_then(byte);
    Some(TgcPacket { eeg_power, e_sense, poor_signal_level })
}

#[test]
fn packet_without_power_yields_nothing() {
    let heartbeat = TgcPacket { eeg_power: None, e_sense: None, poor_signal_level: Some(0) };
    assert_eq!(payload_from_packet(&heartbeat), None);
    let status = TgcPacket {
        eeg_power: None,
        e_sense: Some(RawESense { attention: Some(50), meditation: Some(60) }),
        poor_signal_level: Some(26),
    };
    assert_eq!(parse_packet("{\"eSense\":{}}", Some(status)), None);
    let line = "{\"poorSignalLevel\":0}";
    assert_eq!(parse_packet(line, decode(line)), None);
}

#[test]
fn mid_gamma_is_wire_high_gamma() {
    let mut p = powers();
    p.high_gamma = 4_000_000_000;
    p.low_gamma = 12;
    let packet = TgcPacket { eeg_power: Some(p), e_sense: None, poor_signal_level: Some(0) };
    let r = payload_from_packet(&packet).unwrap();
    assert_eq!(r.mid_gamma, 4_000_000_000);
    assert_eq!(r.low_gamma, 12);
}

#[test]
fn power_only_line_gets_defaults() {
    let line = "{\"eegPower\":{\"delta\":10,\"theta\":20,\"lowAlpha\":30,\"highAlpha\":40,\
                \"lowBeta\":50,\"highBeta\":60,\"lowGamma\":70,\"highGamma\":80}}";
    let r = parse_packet(line, decode(line)).unwrap();
    assert_eq!(
        r,
        EegPayload {
            delta: 10,
            theta: 20,
            low_alpha: 30,
            high_alpha: 40,
            low_beta: 50,
            high_beta: 60,
            low_gamma: 70,
            mid_gamma: 80,
            attention: 0,
            meditation: 0,
            poor_signal_level: 200,
        }
    );
}

#[test]
fn full_packet_keeps_scores_and_signal() {
    let packet = TgcPacket {
        eeg_power: Some(powers()),
        e_sense: Some(RawESense { attention: Some(61), meditation: None }),
        poor_signal_level: Some(0),
    };
    let r = parse_packet("x", Some(packet)).unwrap();
    assert_eq!(r.attention, 61);
    assert_eq!(r.meditation, 0);
    assert_eq!(r.poor_signal_level, 0);
    assert_eq!(r.delta, 1);
    assert_eq!(r.mid_gamma, 8);
}

#[test]
fn empty_or_malformed_lines_yield_nothing() {
    let packet = TgcPacket { eeg_power: Some(powers()), e_sense: None, poor_signal_level: None };
    assert_eq!(parse_packet("", Some(packet)), None);
    let bad = "{\"eegPower\": not json";
    assert_eq!(parse_packet(bad, decode(bad)), None);
}
