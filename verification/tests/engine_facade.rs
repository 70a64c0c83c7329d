//! Facade scenarios against the real decode engine, on synthetic replay
//! buffers built byte by byte with valid checksums.

use rl_replay::{BoxcarsParser, DecodeErrorKind, InternalCrcCheck, InternalNetworkParse};

fn push_i32(out: &mut Vec<u8>, x: i32) {
    out.extend_from_slice(&x.to_le_bytes());
}

fn push_u32(out: &mut Vec<u8>, x: u32) {
    out.extend_from_slice(&x.to_le_bytes());
}

/// A length-prefixed, NUL-terminated string as the replay format writes it.
fn push_str(out: &mut Vec<u8>, s: &str) {
    push_i32(out, s.len() as i32 + 1);
    out.extend_from_slice(s.as_bytes());
    out.push(0);
}

/// The header section: versions, game type, then the given integer
/// properties in order, closed by the `None` key.
fn header_bytes(props: &[(&str, i32)]) -> Vec<u8> {
    let mut h = Vec::new();
    push_i32(&mut h, 105); // major version
    push_i32(&mut h, 10); // minor version (no net version at this pair)
    push_str(&mut h, "TAGame.Replay_Soccar_TA");
    for (key, value) in props {
        push_str(&mut h, key);
        push_str(&mut h, "IntProperty");
        push_u32(&mut h, 4); // declared property size (ignored by the engine)
        push_u32(&mut h, 0); // reserved bytes
        push_i32(&mut h, *value);
    }
    push_str(&mut h, "None");
    h
}

/// The content section: empty lists everywhere and no network data.
fn content_bytes() -> Vec<u8> {
    let mut c = Vec::new();
    push_i32(&mut c, 0); // levels
    push_i32(&mut c, 0); // keyframes
    push_i32(&mut c, 0); // network data size
    push_i32(&mut c, 0); // debug info
    push_i32(&mut c, 0); // tick marks
    push_i32(&mut c, 0); // packages
    push_i32(&mut c, 0); // objects
    push_i32(&mut c, 0); // names
    push_i32(&mut c, 0); // class indices
    push_i32(&mut c, 0); // net cache
    c
}

fn replay_bytes(props: &[(&str, i32)], corrupt_content_crc: bool) -> Vec<u8> {
    let h = header_bytes(props);
    let c = content_bytes();
    let mut out = Vec::new();
    push_i32(&mut out, h.len() as i32);
    push_u32(&mut out, boxcars::crc::calc_crc(&h));
    out.extend_from_slice(&h);
    push_i32(&mut out, c.len() as i32);
    let mut crc = boxcars::crc::calc_crc(&c);
    if corrupt_content_crc {
        crc ^= 0xDEAD_BEEF;
    }
    push_u32(&mut out, crc);
    out.extend_from_slice(&c);
    out
}

#[test]
fn minimal_replay_round_trip_with_network_never() {
    let data = replay_bytes(&[("TeamSize", 3)], false);
    let parser = BoxcarsParser::new(data).set_network_parse(InternalNetworkParse::Never);
    let doc = parser.parse().expect("a well-formed replay must decode");
    let v: serde_json::Value = serde_json::from_str(&doc).expect("the document is JSON");
    assert_eq!(v["properties"]["TeamSize"], serde_json::Value::from(3));
    assert!(v["network_frames"].is_null());
    assert_eq!(v["major_version"], serde_json::Value::from(105));
}

#[test]
fn corrupted_content_crc_fails_only_under_always() {
    let data = replay_bytes(&[("TeamSize", 3)], true);

    let strict = BoxcarsParser::new(data.clone()).set_crc_check(InternalCrcCheck::Always);
    let err = strict.parse().expect_err("a corrupted checksum must fail under the strict mode");
    assert_eq!(err.kind, DecodeErrorKind::ChecksumMismatch);
    assert!(!err.detail.is_empty());

    let lenient = BoxcarsParser::new(data.clone()).set_crc_check(InternalCrcCheck::Never);
    assert!(lenient.parse().is_ok());

    // The primary decode path tolerates the corruption, so the on-error
    // mode never consults the checksum and succeeds.
    let on_error = BoxcarsParser::new(data).set_crc_check(InternalCrcCheck::OnError);
    assert!(on_error.parse().is_ok());
}

#[test]
fn truncated_network_section_fails_only_under_always() {
    // The header promises ten frames while the network section is empty.
    let data = replay_bytes(&[("TeamSize", 3), ("NumFrames", 10)], false);

    let strict = BoxcarsParser::new(data.clone())
        .set_network_parse(InternalNetworkParse::Always);
    let err = strict.parse().expect_err("a truncated network section must fail when mandatory");
    assert_eq!(err.kind, DecodeErrorKind::NetworkDecodeFailure);

    let skipped = BoxcarsParser::new(data.clone())
        .set_network_parse(InternalNetworkParse::Never);
    let doc = skipped.parse().expect("skipping the network section must succeed");
    let v: serde_json::Value = serde_json::from_str(&doc).expect("the document is JSON");
    assert!(v["network_frames"].is_null());

    let lenient = BoxcarsParser::new(data)
        .set_network_parse(InternalNetworkParse::IgnoreOnError);
    let doc = lenient.parse().expect("the lenient mode absorbs the network failure");
    let v: serde_json::Value = serde_json::from_str(&doc).expect("the document is JSON");
    assert!(v["network_frames"].is_null());
}

#[test]
fn same_bytes_same_configuration_same_document() {
    let data = replay_bytes(&[("TeamSize", 3), ("MaxChannels", 1023)], false);
    let first = BoxcarsParser::new(data.clone())
        .set_crc_check(InternalCrcCheck::Always)
        .set_network_parse(InternalNetworkParse::Never)
        .parse()
        .expect("decode succeeds");
    let second = BoxcarsParser::new(data)
        .set_crc_check(InternalCrcCheck::Always)
        .set_network_parse(InternalNetworkParse::Never)
        .parse()
        .expect("decode succeeds");
    assert_eq!(first, second);
}

#[test]
fn property_declaration_order_and_duplicates_survive_decode() {
    // Duplicate keys are legal in the header and must both survive, in
    // declaration order, in the emitted document text.
    let data = replay_bytes(&[("TeamSize", 3), ("MaxChannels", 1023), ("TeamSize", 5)], false);
    let doc = BoxcarsParser::new(data)
        .set_network_parse(InternalNetworkParse::Never)
        .parse()
        .expect("decode succeeds");
    let team_first = doc.find("\"TeamSize\"").expect("first key present");
    let channels = doc.find("\"MaxChannels\"").expect("middle key present");
    let team_last = doc.rfind("\"TeamSize\"").expect("duplicate key present");
    assert!(team_first < channels, "declaration order must be preserved");
    assert!(channels < team_last, "the duplicate key must follow, not be merged");
}

#[test]
fn unknown_property_kind_is_unsupported() {
    // A header declaring a property kind outside the engine's known range
    // is surfaced as the unsupported-content failure, not guessed at.
    let h = {
        let mut h = Vec::new();
        push_i32(&mut h, 105);
        push_i32(&mut h, 10);
        push_str(&mut h, "TAGame.Replay_Soccar_TA");
        push_str(&mut h, "TeamSize");
        push_str(&mut h, "FutureProperty");
        push_u32(&mut h, 4);
        push_u32(&mut h, 0);
        push_i32(&mut h, 3);
        push_str(&mut h, "None");
        h
    };
    let c = content_bytes();
    let mut data = Vec::new();
    push_i32(&mut data, h.len() as i32);
    push_u32(&mut data, boxcars::crc::calc_crc(&h));
    data.extend_from_slice(&h);
    push_i32(&mut data, c.len() as i32);
    push_u32(&mut data, boxcars::crc::calc_crc(&c));
    data.extend_from_slice(&c);

    let err = BoxcarsParser::new(data)
        .parse()
        .expect_err("an unknown property kind must be surfaced");
    assert_eq!(err.kind, DecodeErrorKind::UnsupportedVersion);
}

#[test]
fn garbage_bytes_are_malformed_input() {
    let err = BoxcarsParser::new(vec![1, 2, 3])
        .parse()
        .expect_err("three bytes are not a replay container");
    assert_eq!(err.kind, DecodeErrorKind::MalformedInput);
}

#[test]
fn engine_defaults_stay_in_force_without_overrides() {
    // With no override the engine's documented defaults apply: checksum
    // checked only on error, network decode attempted and discarded on
    // failure. A corrupted checksum with a decodable body therefore
    // succeeds, and a truncated network section is absorbed.
    let data = replay_bytes(&[("TeamSize", 3), ("NumFrames", 10)], true);
    let doc = BoxcarsParser::new(data).parse().expect("the defaults are lenient");
    let v: serde_json::Value = serde_json::from_str(&doc).expect("the document is JSON");
    assert!(v["network_frames"].is_null());
    assert_eq!(v["properties"]["TeamSize"], serde_json::Value::from(3));
}
