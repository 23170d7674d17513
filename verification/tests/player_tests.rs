use empress::{MethodCall, MprisError, Player, PropValue};

fn services() -> Vec<String> {
    vec![
        "org.freedesktop.DBus".to_string(),
        "org.mpris.MediaPlayer2.cmus".to_string(),
        ":1.42".to_string(),
        "org.mpris.MediaPlayer2.vlc".to_string(),
    ]
}

fn cmus() -> Player {
    Player::try_new("cmus", &services()).unwrap()
}

#[test]
fn test_init() {
    let player = cmus();
    assert_eq!(player.name, "cmus");
}

#[test]
fn try_new_accepts_every_active_player() {
    let vlc = Player::try_new("vlc", &services()).unwrap();
    assert_eq!(vlc.name, "vlc");
    let player = Player::try_new("cmus", &services()).unwrap();
    assert_eq!(player.name, "cmus");
}

#[test]
fn try_new_rejects_absent_player() {
    let r = Player::try_new("spotify", &services());
    assert!(matches!(r, Err(MprisError::InvalidPlayer)));
}

#[test]
fn try_new_rejects_empty_name() {
    // Even when a malformed enumeration result carries the bare service
    // prefix — whose stripped player name is empty — the empty candidate
    // is rejected: a constructed handle always has a non-empty name.
    let mut listed = services();
    listed.push("org.mpris.MediaPlayer2.".to_string());
    let r = Player::try_new("", &listed);
    assert!(matches!(r, Err(MprisError::InvalidPlayer)));
}

#[test]
fn try_new_does_not_match_unprefixed_service() {
    // A bus name without the MPRIS prefix is no player, even when the
    // candidate equals it outright.
    let r = Player::try_new("org.freedesktop.DBus", &services());
    assert!(matches!(r, Err(MprisError::InvalidPlayer)));
}

#[test]
fn destination_is_prefixed_name() {
    assert_eq!(cmus().destination(), "org.mpris.MediaPlayer2.cmus");
}

#[test]
fn get_proxy_addresses_the_player() {
    let proxy = cmus().get_proxy();
    assert_eq!(proxy.destination, "org.mpris.MediaPlayer2.cmus");
    assert_eq!(proxy.path, "/org/mpris/MediaPlayer2");
    assert_eq!(proxy.timeout_ms, 5000);
}

fn check_control(call: &MethodCall, member: &str) {
    assert_eq!(call.destination, "org.mpris.MediaPlayer2.cmus");
    assert_eq!(call.path, "/org/mpris/MediaPlayer2");
    assert_eq!(call.interface, "org.mpris.MediaPlayer2.Player");
    assert_eq!(call.member, member);
    assert!(call.args.is_empty());
    assert_eq!(call.timeout_ms, 5000);
}

#[test]
fn test_methods() {
    let player = cmus();
    check_control(&player.next(), "Next");
    check_control(&player.previous(), "Previous");
    check_control(&player.pause(), "Pause");
    check_control(&player.play(), "Play");
    check_control(&player.play_pause(), "PlayPause");
    check_control(&player.stop(), "Stop");
}

#[test]
fn free_functions_match_player_methods() {
    let player = cmus();
    assert_eq!(empress::methods::next(&player), player.next());
    assert_eq!(empress::methods::stop(&player), player.stop());
    assert_eq!(empress::methods::seek(&player, 7), player.seek(7));
    assert_eq!(empress::methods::open_uri(&player, "file:///a.mp3"), player.open_uri("file:///a.mp3"));
}

#[test]
fn seek_carries_signed_offset() {
    let call = cmus().seek(-1_500_000);
    assert_eq!(call.member, "Seek");
    assert_eq!(call.args, vec![PropValue::Int64(-1_500_000)]);
}

#[test]
fn seek_reverse_equals_seek_of_negated_offset() {
    let player = cmus();
    let d: i64 = 15_000_000;
    assert_eq!(player.seek_reverse(d), player.seek(-d));
    assert_eq!(player.seek_reverse(-3), player.seek(3));
    assert_eq!(player.seek_reverse(0), player.seek(0));
}

#[test]
fn open_uri_passes_uri_verbatim() {
    let call = cmus().open_uri("file:///tmp/song.flac");
    assert_eq!(call.member, "OpenUri");
    assert_eq!(call.args, vec![PropValue::Str("file:///tmp/song.flac".to_string())]);
}

#[test]
fn get_metadata_reads_the_metadata_property() {
    let get = cmus().get_metadata();
    assert_eq!(get.destination, "org.mpris.MediaPlayer2.cmus");
    assert_eq!(get.path, "/org/mpris/MediaPlayer2");
    assert_eq!(get.interface, "org.mpris.MediaPlayer2.Player");
    assert_eq!(get.property, "Metadata");
    assert_eq!(get.timeout_ms, 5000);
}

#[test]
fn get_property_names_the_property() {
    let get = cmus().get_property("PlaybackStatus");
    assert_eq!(get.property, "PlaybackStatus");
    assert_eq!(get.interface, "org.mpris.MediaPlayer2.Player");
}

#[test]
fn set_property_carries_the_value() {
    let set = cmus().set_property("Shuffle", PropValue::Bool(true));
    assert_eq!(set.property, "Shuffle");
    assert_eq!(set.value, PropValue::Bool(true));
    assert_eq!(set.destination, "org.mpris.MediaPlayer2.cmus");
}
