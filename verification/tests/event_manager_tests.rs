use empress::{classify_method_error, classify_property_error, EventManager, EventType, MprisError};

#[test]
fn filter_rule_for_properties_changed() {
    // The rule shape that makes the bus deliver property-change events
    // from every player: matched by member and by the shared object path.
    let rule = EventType::PropertiesChanged.filter_rule();
    assert_eq!(rule.member, "PropertiesChanged");
    assert_eq!(rule.path, "/org/mpris/MediaPlayer2");
}

#[test]
fn filter_rule_for_seeked() {
    let rule = EventType::Seeked.filter_rule();
    assert_eq!(rule.member, "Seeked");
    assert_eq!(rule.path, "/org/mpris/MediaPlayer2");
}

#[test]
fn granted_registration_is_tracked_and_returned() {
    let mut manager = EventManager::new();
    assert!(manager.tracked_handles().is_empty());
    let handle = manager.add_callback(Some(11)).unwrap();
    assert_eq!(handle, 11);
    assert_eq!(manager.tracked_handles(), &vec![11]);
}

#[test]
fn rejected_registration_records_nothing() {
    let mut manager = EventManager::new();
    manager.add_callback(Some(3)).unwrap();
    let r = manager.add_callback(None);
    assert!(matches!(r, Err(MprisError::FilterRegistration)));
    // The manager is unchanged: no tracked-but-unregistered entry leaks.
    assert_eq!(manager.tracked_handles(), &vec![3]);
}

#[test]
fn test_evt_mgr() {
    // Register, then clear at once: with every removal accepted, zero
    // filters stay registered.
    let mut manager = EventManager::new();
    manager.add_callback(Some(5)).unwrap();
    manager.add_callback(Some(6)).unwrap();
    let removed = vec![true, true];
    manager.clear_callbacks(&removed).unwrap();
    assert!(manager.tracked_handles().is_empty());

    // A second clearing with nothing tracked succeeds trivially.
    let none: Vec<bool> = Vec::new();
    manager.clear_callbacks(&none).unwrap();
    assert!(manager.tracked_handles().is_empty());
}

#[test]
fn failed_removals_surface_as_partial_cleanup() {
    let mut manager = EventManager::new();
    manager.add_callback(Some(1)).unwrap();
    manager.add_callback(Some(2)).unwrap();
    manager.add_callback(Some(3)).unwrap();
    // The bus refuses to drop the second subscription.
    let removed = vec![true, false, true];
    let r = manager.clear_callbacks(&removed);
    match r {
        Err(MprisError::PartialCleanup(still)) => assert_eq!(still, vec![2]),
        other => panic!("expected a partial cleanup, got {:?}", other),
    }
    // The refused handle stays tracked; success was not reported.
    assert_eq!(manager.tracked_handles(), &vec![2]);
}

#[test]
fn several_failed_removals_are_all_identified() {
    let mut manager = EventManager::new();
    manager.add_callback(Some(1)).unwrap();
    manager.add_callback(Some(2)).unwrap();
    manager.add_callback(Some(3)).unwrap();
    let removed = vec![false, false, true];
    match manager.clear_callbacks(&removed) {
        Err(MprisError::PartialCleanup(still)) => assert_eq!(still, vec![1, 2]),
        other => panic!("expected a partial cleanup, got {:?}", other),
    }
    assert_eq!(manager.tracked_handles(), &vec![1, 2]);
}

#[test]
fn method_errors_split_transport_from_remote() {
    let r = classify_method_error(
        "org.freedesktop.DBus.Error.NoReply",
        "no reply within the timeout".to_string(),
    );
    match r {
        MprisError::Transport(msg) => assert_eq!(msg, "no reply within the timeout"),
        other => panic!("expected a transport failure, got {:?}", other),
    }
    let r = classify_method_error(
        "org.freedesktop.DBus.Error.ServiceUnknown",
        "the player has exited".to_string(),
    );
    match r {
        MprisError::RemoteMethod(msg) => assert_eq!(msg, "the player has exited"),
        other => panic!("expected a remote-method failure, got {:?}", other),
    }
    assert!(matches!(
        classify_method_error("org.freedesktop.DBus.Error.Disconnected", "gone".to_string()),
        MprisError::Transport(_)
    ));
}

#[test]
fn property_errors_split_unknown_property_from_transport() {
    assert!(matches!(
        classify_property_error(
            "org.freedesktop.DBus.Error.InvalidArgs",
            "no such property".to_string()
        ),
        MprisError::UnknownProperty
    ));
    assert!(matches!(
        classify_property_error(
            "org.freedesktop.DBus.Error.UnknownProperty",
            "no such property".to_string()
        ),
        MprisError::UnknownProperty
    ));
    match classify_property_error("org.freedesktop.DBus.Error.NoReply", "timed out".to_string()) {
        MprisError::Transport(msg) => assert_eq!(msg, "timed out"),
        other => panic!("expected a transport failure, got {:?}", other),
    }
}

#[test]
fn error_kinds_have_fixed_messages() {
    assert_eq!(
        MprisError::InvalidPlayer.kind_message(),
        "The provided player was invalid."
    );
    assert_eq!(
        MprisError::Transport("x".to_string()).kind_message(),
        "The connection to the bus failed."
    );
    assert_eq!(
        MprisError::RemoteMethod("x".to_string()).kind_message(),
        "The remote player rejected the call."
    );
    assert_eq!(
        MprisError::MissingProperty.kind_message(),
        "The metadata did not hold that key."
    );
    assert_eq!(
        MprisError::UnknownProperty.kind_message(),
        "The player does not know that property."
    );
    assert_eq!(
        MprisError::TypeMismatch.kind_message(),
        "The value did not have the requested type."
    );
    assert_eq!(
        MprisError::FilterRegistration.kind_message(),
        "The bus rejected the filter rule."
    );
    assert_eq!(
        MprisError::PartialCleanup(vec![4]).kind_message(),
        "Some filters could not be removed."
    );
}
