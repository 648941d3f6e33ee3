use collab_ui::{
    is_channels_feature_enabled, toggle_deafen, toggle_mute, toggle_screen_sharing, CallEvent,
    Dispatch, RoomCommand,
};

#[test]
fn screen_sharing_without_a_room_does_nothing() {
    assert_eq!(toggle_screen_sharing(None), None);
}

#[test]
fn screen_sharing_starts_when_the_room_is_not_sharing() {
    let expected = Dispatch {
        event: Some(CallEvent::EnableScreenShare),
        command: RoomCommand::ShareScreen,
    };
    assert_eq!(toggle_screen_sharing(Some(false)), Some(expected));
}

#[test]
fn screen_sharing_stops_when_the_room_is_sharing() {
    let expected = Dispatch {
        event: Some(CallEvent::DisableScreenShare),
        command: RoomCommand::UnshareScreen,
    };
    assert_eq!(toggle_screen_sharing(Some(true)), Some(expected));
}

#[test]
fn mute_without_a_room_does_nothing() {
    assert_eq!(toggle_mute(None), None);
}

#[test]
fn mute_of_a_muted_room_enables_the_microphone() {
    let expected = Dispatch {
        event: Some(CallEvent::EnableMicrophone),
        command: RoomCommand::ToggleMute,
    };
    assert_eq!(toggle_mute(Some(true)), Some(expected));
}

#[test]
fn mute_of_an_unmuted_room_disables_the_microphone() {
    let expected = Dispatch {
        event: Some(CallEvent::DisableMicrophone),
        command: RoomCommand::ToggleMute,
    };
    assert_eq!(toggle_mute(Some(false)), Some(expected));
}

#[test]
fn deafen_without_a_room_does_nothing() {
    assert_eq!(toggle_deafen(false), None);
}

#[test]
fn deafen_toggles_and_reports_nothing() {
    let expected = Dispatch { event: None, command: RoomCommand::ToggleDeafen };
    assert_eq!(toggle_deafen(true), Some(expected));
}

#[test]
fn events_are_reported_under_their_operation_names() {
    assert_eq!(CallEvent::EnableScreenShare.operation(), "enable screen share");
    assert_eq!(CallEvent::DisableScreenShare.operation(), "disable screen share");
    assert_eq!(CallEvent::EnableMicrophone.operation(), "enable microphone");
    assert_eq!(CallEvent::DisableMicrophone.operation(), "disable microphone");
}

#[test]
fn channels_are_for_staff_and_for_holders_of_the_flag() {
    assert!(is_channels_feature_enabled(true, false));
    assert!(is_channels_feature_enabled(false, true));
    assert!(is_channels_feature_enabled(true, true));
    assert!(!is_channels_feature_enabled(false, false));
}
