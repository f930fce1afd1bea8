use vscu_pipeline::codec::{
    lookup_seal_deterministic, lookup_seal_round_trip, opaque_seal_round_trip, LookupCodec,
    LookupSealed, OpaqueCodec,
};

fn lookup_codec() -> LookupCodec {
    LookupCodec::new(vec![42u8; 32]).unwrap()
}

fn opaque_codec() -> OpaqueCodec {
    OpaqueCodec::new(vec![43u8; 32]).unwrap()
}

#[test]
fn codec_rejects_short_keys() {
    assert!(LookupCodec::new(vec![1u8; 16]).is_none());
    assert!(OpaqueCodec::new(vec![1u8; 33]).is_none());
    assert!(LookupCodec::new(vec![1u8; 32]).is_some());
}

#[test]
fn lookup_seal_round_trips() {
    let codec = lookup_codec();
    assert_eq!(
        lookup_seal_round_trip(&codec, "P051234567X").as_deref(),
        Some("P051234567X")
    );
    assert_eq!(lookup_seal_round_trip(&codec, "").as_deref(), Some(""));
}

#[test]
fn lookup_seal_is_deterministic() {
    let codec = lookup_codec();
    assert!(lookup_seal_deterministic(&codec, "device-serial-0001"));
    let first = codec.seal_lookup("device-serial-0001");
    let second = codec.seal_lookup("device-serial-0001");
    assert_eq!(first.data, second.data);
}

#[test]
fn lookup_seal_actually_transforms_its_input() {
    let codec = lookup_codec();
    let sealed = codec.seal_lookup("plain value");
    assert_ne!(sealed.data, "plain value");
}

#[test]
fn opaque_seal_round_trips() {
    let codec = opaque_codec();
    assert_eq!(
        opaque_seal_round_trip(&codec, "branch-01").as_deref(),
        Some("branch-01")
    );
}

#[test]
fn opaque_seal_is_randomized() {
    let codec = opaque_codec();
    let first = codec.seal("same plaintext");
    let second = codec.seal("same plaintext");
    assert_ne!(first.data, second.data);
    assert_eq!(codec.open(&first).as_deref(), Some("same plaintext"));
    assert_eq!(codec.open(&second).as_deref(), Some("same plaintext"));
}

#[test]
fn opening_under_the_wrong_key_fails() {
    let codec = lookup_codec();
    let other = LookupCodec::new(vec![44u8; 32]).unwrap();
    let sealed = codec.seal_lookup("secret");
    assert!(other.open_lookup(&sealed).is_none());
}

#[test]
fn opening_garbage_fails() {
    let codec = lookup_codec();
    let garbage = LookupSealed {
        data: "not base64 at all!!!".to_string(),
    };
    assert!(codec.open_lookup(&garbage).is_none());
}
