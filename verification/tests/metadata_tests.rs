use empress::{
    get_metadata_property, prop_cast, Metadata, MprisError, Player, PropValue,
};

fn player() -> Player {
    let services = vec!["org.mpris.MediaPlayer2.cmus".to_string()];
    Player::try_new("cmus", &services).unwrap()
}

fn sample_metadata() -> Metadata {
    let mut m = Metadata::new();
    m.insert(
        "mpris:trackid".to_string(),
        PropValue::ObjectPath("/org/mpris/MediaPlayer2/Track/7".to_string()),
    );
    m.insert("xesam:title".to_string(), PropValue::Str("Some Song".to_string()));
    m.insert("mpris:length".to_string(), PropValue::Int64(240_000_000));
    m
}

#[test]
fn get_returns_inserted_values() {
    let m = sample_metadata();
    assert_eq!(
        m.get("xesam:title"),
        Some(&PropValue::Str("Some Song".to_string()))
    );
    assert_eq!(m.get("mpris:length"), Some(&PropValue::Int64(240_000_000)));
    assert_eq!(m.get("xesam:album"), None);
}

#[test]
fn later_insert_shadows_earlier() {
    let mut m = sample_metadata();
    m.insert("xesam:title".to_string(), PropValue::Str("Renamed".to_string()));
    assert_eq!(m.get("xesam:title"), Some(&PropValue::Str("Renamed".to_string())));
}

#[test]
fn missing_key_is_a_missing_property() {
    // The map lacks the track identifier: the failure names the missing
    // property, not the transport.
    let m = Metadata::new();
    let r = get_metadata_property(&m, "mpris:trackid");
    assert!(matches!(r, Err(MprisError::MissingProperty)));
}

#[test]
fn present_key_is_returned() {
    let m = sample_metadata();
    let v = get_metadata_property(&m, "mpris:trackid").unwrap();
    assert_eq!(
        v,
        &PropValue::ObjectPath("/org/mpris/MediaPlayer2/Track/7".to_string())
    );
}

#[test]
fn prop_cast_finds_title() {
    let m = sample_metadata();
    let title = match prop_cast(&m, "xesam:title").and_then(|v| v.as_str()) {
        Some(t) => t.to_string(),
        None => "Unknown title".to_string(),
    };
    assert_eq!(title, "Some Song");
}

#[test]
fn prop_cast_of_absent_key_is_none() {
    let m = sample_metadata();
    assert_eq!(prop_cast(&m, "xesam:artist"), None);
}

#[test]
fn accessors_match_variants() {
    assert_eq!(PropValue::Str("a".to_string()).as_str(), Some(&"a".to_string()));
    assert_eq!(PropValue::Str("a".to_string()).as_i64(), None);
    assert_eq!(
        PropValue::ObjectPath("/p".to_string()).as_object_path(),
        Some(&"/p".to_string())
    );
    assert_eq!(PropValue::Int64(-4).as_i64(), Some(-4));
    assert_eq!(PropValue::UInt64(9).as_u64(), Some(9));
    assert_eq!(PropValue::Bool(false).as_bool(), Some(false));
    assert_eq!(
        PropValue::StrList(vec!["x".to_string()]).as_str_list(),
        Some(&vec!["x".to_string()])
    );
    assert_eq!(PropValue::Bool(true).as_str(), None);
}

#[test]
fn set_position_sends_fetched_track_and_position() {
    // The two-step protocol: first the metadata fetch...
    let p = player();
    let fetch = p.get_metadata();
    assert_eq!(fetch.property, "Metadata");
    // ...then, from its outcome, the position-set call carrying the
    // fetched track identifier and the requested position, in that order.
    let call = p.set_position(Ok(sample_metadata()), 456).unwrap();
    assert_eq!(call.member, "SetPosition");
    assert_eq!(
        call.args,
        vec![
            PropValue::ObjectPath("/org/mpris/MediaPlayer2/Track/7".to_string()),
            PropValue::Int64(456),
        ]
    );
    assert_eq!(call.destination, "org.mpris.MediaPlayer2.cmus");
}

#[test]
fn set_position_accepts_string_track_id() {
    let mut m = Metadata::new();
    m.insert("mpris:trackid".to_string(), PropValue::Str("/Track/9".to_string()));
    let call = player().set_position(Ok(m), 0).unwrap();
    assert_eq!(
        call.args,
        vec![PropValue::ObjectPath("/Track/9".to_string()), PropValue::Int64(0)]
    );
}

#[test]
fn set_position_propagates_failed_fetch() {
    // The fetch failed: the failure comes back as-is, and no position-set
    // call is ever produced.
    let r = player().set_position(Err(MprisError::Transport("timeout".to_string())), 456);
    match r {
        Err(MprisError::Transport(msg)) => assert_eq!(msg, "timeout"),
        other => panic!("expected a transport failure, got {:?}", other),
    }
}

#[test]
fn set_position_without_track_id_is_missing_property() {
    let r = player().set_position(Ok(Metadata::new()), 1);
    assert!(matches!(r, Err(MprisError::MissingProperty)));
}

#[test]
fn set_position_with_odd_track_id_is_type_mismatch() {
    let mut m = Metadata::new();
    m.insert("mpris:trackid".to_string(), PropValue::Bool(true));
    let r = player().set_position(Ok(m), 1);
    assert!(matches!(r, Err(MprisError::TypeMismatch)));
}
