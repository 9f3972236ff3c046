use ta_agi_doorbell::auth::{
    challenge_expression, create_nonce, expected_digest, AuthError, SHA1DigestOverAGI,
};
use ta_agi_doorbell::config::{
    AgiConfigData, CmiConfig, CmiConfigData, Config, ConfigData, ConfigError, DoorMapping,
    DoorMappingData, Ipv4Address, DEFAULT_AGI_PORT, DEFAULT_CMI_PORT,
};
use ta_agi_doorbell::pulse::{
    encode_on_off_frame, OpenDoorHandler, PulseAction, PulseError, PulseEvent, PulseState,
    RequestError, HOLD_SECONDS,
};

use sha1::Digest;

fn mapping_data(name: &str, addr: Ipv4Address, port: Option<u16>, node: u8, pdo: u8) -> DoorMappingData {
    DoorMappingData {
        door_name: name.to_owned(),
        cmi_address: addr,
        cmi_port: port,
        virtual_node: node,
        pdo,
    }
}

fn front_config() -> CmiConfig {
    let data = CmiConfigData {
        door_mappings: vec![mapping_data("front", Ipv4Address::new(10, 0, 0, 5), None, 2, 3)],
    };
    CmiConfig::from_data(data).expect("front config is valid")
}

/// Drive one actuation to completion, recording every frame that would go on
/// the wire; every channel operation succeeds.
fn run_pulse_recording(mapping: &DoorMapping) -> (PulseState, Vec<(String, Vec<u8>)>) {
    let mut state = PulseState::Idle;
    let mut sends: Vec<(String, Vec<u8>)> = vec![];
    loop {
        match state.action(mapping) {
            None => break,
            Some(PulseAction::OpenChannel) => state = state.step(PulseEvent::BindOk),
            Some(PulseAction::SendFrame { host, frame }) => {
                sends.push((host, frame));
                state = state.step(PulseEvent::SendOk);
            }
            Some(PulseAction::Hold { seconds }) => {
                assert_eq!(seconds, HOLD_SECONDS);
                state = state.step(PulseEvent::HoldElapsed);
            }
            Some(PulseAction::Report) => state = state.step(PulseEvent::Reported),
        }
    }
    (state, sends)
}

#[test]
fn one_based_index_becomes_zero_based() {
    for p in 1..=255u8 {
        let d = mapping_data("door", Ipv4Address::new(192, 168, 1, 9), Some(5422), 7, p);
        let m = DoorMapping::from_data(d).expect("nonzero pdo converts");
        assert_eq!(m.pdo, p - 1);
        assert_eq!(m.virtual_node, 7);
        assert_eq!(m.cmi_port, 5422);
    }
}

#[test]
fn zero_index_rejected_at_load() {
    let d = mapping_data("door", Ipv4Address::new(192, 168, 1, 9), None, 7, 0);
    assert!(DoorMapping::from_data(d).is_err());

    let config = ConfigData {
        agi: AgiConfigData {
            listen_address: Ipv4Address::new(127, 0, 0, 1),
            listen_port: None,
            digest_secret: "s".to_owned(),
        },
        cmi: CmiConfigData {
            door_mappings: vec![
                mapping_data("a", Ipv4Address::new(10, 0, 0, 1), None, 1, 1),
                mapping_data("b", Ipv4Address::new(10, 0, 0, 2), None, 1, 0),
            ],
        },
    };
    let err = Config::from_data(config).expect_err("zero pdo must fail");
    assert!(err.is_pdo_zero());
}

#[test]
fn listen_string_defaults_port() {
    let config = ConfigData {
        agi: AgiConfigData {
            listen_address: Ipv4Address::new(1, 2, 3, 4),
            listen_port: None,
            digest_secret: "top_secret".to_owned(),
        },
        cmi: CmiConfigData { door_mappings: vec![] },
    };
    let c = Config::from_data(config).expect("valid");
    assert_eq!(c.agi.listen_port, DEFAULT_AGI_PORT);
    assert_eq!(c.agi_listen_string(), "1.2.3.4:4573");
    assert_eq!(c.agi_digest_secret(), "top_secret");
}

#[test]
fn listen_string_explicit_port() {
    let config = ConfigData {
        agi: AgiConfigData {
            listen_address: Ipv4Address::new(192, 168, 178, 20),
            listen_port: Some(8080),
            digest_secret: "s".to_owned(),
        },
        cmi: CmiConfigData { door_mappings: vec![] },
    };
    let c = Config::from_data(config).expect("valid");
    assert_eq!(c.agi_listen_string(), "192.168.178.20:8080");
}

#[test]
fn cmi_host_default_and_explicit_port() {
    let m1 = DoorMapping::from_data(mapping_data(
        "x",
        Ipv4Address::new(10, 0, 0, 5),
        None,
        2,
        3,
    ))
    .unwrap();
    assert_eq!(m1.cmi_port, DEFAULT_CMI_PORT);
    assert_eq!(m1.cmi_host(), "10.0.0.5:5442");

    let m2 = DoorMapping::from_data(mapping_data(
        "x",
        Ipv4Address::new(10, 0, 0, 5),
        Some(5422),
        2,
        3,
    ))
    .unwrap();
    assert_eq!(m2.cmi_host(), "10.0.0.5:5422");
}

#[test]
fn resolver_first_match_wins() {
    let data = CmiConfigData {
        door_mappings: vec![
            mapping_data("front", Ipv4Address::new(10, 0, 0, 5), None, 2, 3),
            mapping_data("front", Ipv4Address::new(10, 0, 0, 6), None, 4, 5),
        ],
    };
    let c = CmiConfig::from_data(data).unwrap();
    let m = c.get_cmi_for_door("front").expect("front is configured");
    assert_eq!(m.virtual_node, 2);
}

#[test]
fn resolver_is_case_sensitive_and_exact() {
    let c = front_config();
    assert!(c.get_cmi_for_door("front").is_some());
    assert!(c.get_cmi_for_door("Front").is_none());
    assert!(c.get_cmi_for_door("front ").is_none());
    assert!(c.get_cmi_for_door("").is_none());
}

#[test]
fn auth_accepts_correct_digest() {
    let secret = "top_secret";
    let auth = SHA1DigestOverAGI::new(secret);
    let nonce = create_nonce();

    let mut message = Vec::new();
    message.extend_from_slice(secret.as_bytes());
    message.push(b':');
    message.extend_from_slice(nonce.as_bytes());
    let response = hex::encode(sha1::Sha1::digest(&message));

    assert_eq!(auth.verify_response(&nonce, Some(&response)), Ok(()));
}

#[test]
fn auth_rejects_wrong_digest() {
    let auth = SHA1DigestOverAGI::new("top_secret");
    let nonce = create_nonce();
    let wrong = "0".repeat(40);
    assert_eq!(
        auth.verify_response(&nonce, Some(&wrong)),
        Err(AuthError::WrongDigest)
    );
}

#[test]
fn auth_rejects_undecodable_response() {
    let auth = SHA1DigestOverAGI::new("top_secret");
    let nonce = create_nonce();
    let not_hex = "z".repeat(40);
    assert_eq!(
        auth.verify_response(&nonce, Some(&not_hex)),
        Err(AuthError::DigestDecode)
    );
    let odd = "abc".to_owned();
    assert_eq!(
        auth.verify_response(&nonce, Some(&odd)),
        Err(AuthError::DigestDecode)
    );
}

#[test]
fn auth_rejects_missing_response() {
    let auth = SHA1DigestOverAGI::new("top_secret");
    let nonce = create_nonce();
    assert_eq!(auth.verify_response(&nonce, None), Err(AuthError::MissingSecret));
}

#[test]
fn expected_digest_matches_reference_sha1() {
    let r = expected_digest("abc", "00ff");
    assert_eq!(r, sha1::Sha1::digest(b"abc:00ff").to_vec());
    assert_eq!(r.len(), 20);
}

#[test]
fn nonces_are_distinct_and_well_shaped() {
    let mut seen: Vec<String> = Vec::new();
    for _ in 0..100 {
        let n = create_nonce();
        assert_eq!(n.len(), 40);
        assert!(n
            .chars()
            .all(|c| c.is_ascii_digit() || ('a'..='f').contains(&c)));
        let raw = hex::decode(&n).expect("a nonce is hex");
        assert_eq!(raw.len(), 20);
        assert!(!seen.contains(&n), "nonces must not repeat");
        seen.push(n);
    }
}

#[test]
fn unknown_door_sends_nothing() {
    let handler = OpenDoorHandler { config: front_config() };
    let name = "side".to_owned();
    let mut sends: Vec<(String, Vec<u8>)> = vec![];
    match handler.resolve(Some(&name)) {
        Ok(m) => {
            let (_, s) = run_pulse_recording(m);
            sends = s;
        }
        Err(e) => assert_eq!(e, RequestError::UnknownDoor),
    }
    assert_eq!(sends.len(), 0, "a failed resolution must send no frames");
}

#[test]
fn missing_capture_is_rejected() {
    let handler = OpenDoorHandler { config: front_config() };
    assert_eq!(
        handler.resolve(None).map(|_| ()),
        Err(RequestError::NoCapture)
    );
}

#[test]
fn front_scenario_full_pulse() {
    let handler = OpenDoorHandler { config: front_config() };
    let name = "front".to_owned();
    let mapping = handler.resolve(Some(&name)).expect("front resolves");
    assert_eq!(mapping.cmi_host(), "10.0.0.5:5442");

    let mut state = PulseState::Idle;
    assert!(matches!(state.action(mapping), Some(PulseAction::OpenChannel)));
    state = state.step(PulseEvent::BindOk);
    assert_eq!(state, PulseState::ChannelOpen);

    let (host_on, frame_on) = match state.action(mapping) {
        Some(PulseAction::SendFrame { host, frame }) => (host, frame),
        other => panic!("expected the on frame, got {:?}", other),
    };
    assert_eq!(host_on, "10.0.0.5:5442");
    let packet = coe::Packet::try_from(&frame_on[..]).expect("the codec parses its own frame");
    assert_eq!(packet.len(), 1);
    let payload = packet.iter().next().unwrap();
    assert_eq!(payload.node(), 2);
    assert_eq!(payload.pdo_index(), 2);
    assert_eq!(
        payload.value(),
        coe::COEValue::Digital(coe::DigitalCOEValue::OnOff(true))
    );

    state = state.step(PulseEvent::SendOk);
    assert_eq!(state, PulseState::PulseOn);
    match state.action(mapping) {
        Some(PulseAction::Hold { seconds }) => assert_eq!(seconds, 15),
        other => panic!("expected the hold, got {:?}", other),
    }
    state = state.step(PulseEvent::HoldElapsed);
    assert_eq!(state, PulseState::Holding);

    let (host_off, frame_off) = match state.action(mapping) {
        Some(PulseAction::SendFrame { host, frame }) => (host, frame),
        other => panic!("expected the off frame, got {:?}", other),
    };
    assert_eq!(host_off, "10.0.0.5:5442");
    let packet = coe::Packet::try_from(&frame_off[..]).expect("the codec parses its own frame");
    let payload = packet.iter().next().unwrap();
    assert_eq!(payload.node(), 2);
    assert_eq!(payload.pdo_index(), 2);
    assert_eq!(
        payload.value(),
        coe::COEValue::Digital(coe::DigitalCOEValue::OnOff(false))
    );

    state = state.step(PulseEvent::SendOk);
    assert_eq!(state, PulseState::PulseOff);
    assert!(matches!(state.action(mapping), Some(PulseAction::Report)));
    state = state.step(PulseEvent::Reported);
    assert_eq!(state, PulseState::Done);
    assert!(state.action(mapping).is_none());
}

#[test]
fn back_request_fails_and_sends_no_frames() {
    let handler = OpenDoorHandler { config: front_config() };
    let name = "back".to_owned();
    let r = handler.resolve(Some(&name));
    assert_eq!(r.map(|_| ()), Err(RequestError::UnknownDoor));
}

#[test]
fn concurrent_requests_each_send_their_own_pair() {
    let handler = OpenDoorHandler { config: front_config() };
    let name = "front".to_owned();

    // Two in-flight requests each hold their own state; nothing deduplicates
    // or serializes them.
    let m1 = handler.resolve(Some(&name)).unwrap();
    let m2 = handler.resolve(Some(&name)).unwrap();
    let (s1, sends1) = run_pulse_recording(m1);
    let (s2, sends2) = run_pulse_recording(m2);

    assert_eq!(s1, PulseState::Done);
    assert_eq!(s2, PulseState::Done);
    assert_eq!(sends1.len(), 2);
    assert_eq!(sends2.len(), 2);
    assert_eq!(sends1, sends2, "both requests pulse the same target");
}

#[test]
fn bind_failure_is_terminal() {
    let mut state = PulseState::Idle;
    state = state.step(PulseEvent::BindFailed);
    assert_eq!(state, PulseState::Failed(PulseError::ChannelBind));
    for ev in [
        PulseEvent::BindOk,
        PulseEvent::SendOk,
        PulseEvent::SendFailed,
        PulseEvent::HoldElapsed,
        PulseEvent::Reported,
    ] {
        state = state.step(ev);
        assert_eq!(state, PulseState::Failed(PulseError::ChannelBind));
    }
}

#[test]
fn send_failures_are_distinct_and_terminal() {
    let on_fail = PulseState::Idle
        .step(PulseEvent::BindOk)
        .step(PulseEvent::SendFailed);
    assert_eq!(on_fail, PulseState::Failed(PulseError::SendOn));

    let off_fail = PulseState::Idle
        .step(PulseEvent::BindOk)
        .step(PulseEvent::SendOk)
        .step(PulseEvent::HoldElapsed)
        .step(PulseEvent::SendFailed);
    assert_eq!(off_fail, PulseState::Failed(PulseError::SendOff));
    assert_eq!(off_fail.step(PulseEvent::SendOk), off_fail);
}

#[test]
fn frame_encoding_is_the_codec_wire_format() {
    let frame = encode_on_off_frame(58, 1, true);
    assert_eq!(frame, vec![2, 0, 12, 1, 58, 1, 0, 43, 1, 0, 0, 0]);
    let frame = encode_on_off_frame(3, 0, false);
    assert_eq!(frame, vec![2, 0, 12, 1, 3, 0, 0, 43, 0, 0, 0, 0]);
}

#[test]
fn challenge_expression_wraps_the_nonce() {
    let expr = challenge_expression("00ff");
    assert_eq!(expr, "${SHA1(${BLAZING_AGI_DIGEST_SECRET}:00ff)}");
}

#[test]
fn error_messages_are_exact() {
    assert_eq!(
        ConfigError::PdoZero.message(),
        "One of the PDO indices is zero. They need to be one-based."
    );
    assert_eq!(
        ConfigError::Io("gone".to_owned()).message(),
        "Error reading from file /etc/ta-agi-doorbell/config.toml: gone"
    );
    assert_eq!(
        ConfigError::Toml("bad".to_owned()).message(),
        "Error parsing config file as toml: bad"
    );
    assert_eq!(
        AuthError::DigestDecode.message(),
        "The returned digest was not decodable as u8"
    );
    assert_eq!(AuthError::WrongDigest.message(), "The returned digest is false");
    assert_eq!(
        AuthError::MissingSecret.message(),
        "Expected BLAZING_AGI_DIGEST_SECRET to be set, but it is not"
    );
    assert_eq!(
        PulseError::ChannelBind.message(),
        "Unable to bind an outbound UDP socket"
    );
    assert_eq!(PulseError::SendOn.message(), "Unable to send the CoE on frame");
    assert_eq!(
        PulseError::SendOff.message(),
        "Unable to send the CoE off frame; the door may be left open"
    );
}
