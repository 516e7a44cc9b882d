use wlan_engine::wlan_enums::{
    check_encryption, check_security, check_wlan_interface_state,
    convert_connection_notification, convert_msm_notification, convert_msm_notification_reason,
    convert_wlan_interface_state, ConnectionNotifcation, EncryptionAlgorithm, NetworkSecurity,
    NotificationState, WlanInterfaceState,
};

#[test]
fn security_kinds_from_algorithm_codes() {
    assert_eq!(check_security(false, 1), (false, NetworkSecurity::Open));
    assert_eq!(check_security(true, 3), (true, NetworkSecurity::WPA));
    assert_eq!(check_security(true, 4), (true, NetworkSecurity::WPAPSK));
    assert_eq!(check_security(true, 6), (true, NetworkSecurity::WPA2));
    assert_eq!(check_security(true, 7), (true, NetworkSecurity::WPA2PSK));
}

#[test]
fn unknown_algorithm_codes_give_unknown_security() {
    assert_eq!(check_security(true, 0), (true, NetworkSecurity::Unknown));
    assert_eq!(check_security(true, 2), (true, NetworkSecurity::Unknown));
    assert_eq!(check_security(false, 9), (false, NetworkSecurity::Unknown));
    assert_eq!(check_security(true, -1), (true, NetworkSecurity::Unknown));
}

#[test]
fn security_flag_is_handed_on_as_it_is() {
    assert_eq!(check_security(true, 1), (true, NetworkSecurity::Open));
    assert_eq!(check_security(false, 7), (false, NetworkSecurity::WPA2PSK));
}

#[test]
fn encryption_kinds_from_cipher_codes() {
    assert_eq!(check_encryption(4), EncryptionAlgorithm::AES);
    assert_eq!(check_encryption(2), EncryptionAlgorithm::TKIP);
    assert_eq!(check_encryption(0), EncryptionAlgorithm::NONE);
    assert_eq!(check_encryption(1), EncryptionAlgorithm::NONE);
    assert_eq!(check_encryption(5), EncryptionAlgorithm::NONE);
    assert_eq!(check_encryption(-7), EncryptionAlgorithm::NONE);
}

#[test]
fn names_in_a_profile_document() {
    assert_eq!(NetworkSecurity::Open.convert_to_string(), "Open");
    assert_eq!(NetworkSecurity::WPA.convert_to_string(), "WPA");
    assert_eq!(NetworkSecurity::WPA2.convert_to_string(), "WPA2");
    assert_eq!(NetworkSecurity::WPAPSK.convert_to_string(), "WPAPSK");
    assert_eq!(NetworkSecurity::WPA2PSK.convert_to_string(), "WPA2PSK");
    assert_eq!(NetworkSecurity::Unknown.convert_to_string(), "Unknown");
    assert_eq!(EncryptionAlgorithm::AES.convert_to_string(), "AES");
    assert_eq!(EncryptionAlgorithm::TKIP.convert_to_string(), "TKIP");
    assert_eq!(EncryptionAlgorithm::NONE.convert_to_string(), "NONE");
}

#[test]
fn connection_manager_codes() {
    assert_eq!(convert_connection_notification(9), ConnectionNotifcation::ConnectionStart);
    assert_eq!(convert_connection_notification(10), ConnectionNotifcation::ConnectionComplete);
    assert_eq!(
        convert_connection_notification(11),
        ConnectionNotifcation::ConnectionAttemptFail
    );
    assert_eq!(convert_connection_notification(21), ConnectionNotifcation::Disconnected);
}

#[test]
fn other_connection_manager_codes_are_unknown() {
    assert_eq!(convert_connection_notification(0), ConnectionNotifcation::Unknown);
    assert_eq!(convert_connection_notification(7), ConnectionNotifcation::Unknown);
    assert_eq!(convert_connection_notification(20), ConnectionNotifcation::Unknown);
    assert_eq!(convert_connection_notification(-1), ConnectionNotifcation::Unknown);
    assert_eq!(convert_connection_notification(i32::MAX), ConnectionNotifcation::Unknown);
}

#[test]
fn reason_eleven_is_a_wrong_passphrase() {
    assert_eq!(convert_msm_notification_reason(11), ConnectionNotifcation::InvalidPassword);
    assert_eq!(convert_msm_notification_reason(0), ConnectionNotifcation::Unknown);
    assert_eq!(convert_msm_notification_reason(10), ConnectionNotifcation::Unknown);
    assert_eq!(convert_msm_notification_reason(12), ConnectionNotifcation::Unknown);
    assert_eq!(convert_msm_notification_reason(u32::MAX), ConnectionNotifcation::Unknown);
}

#[test]
fn media_specific_code_plays_no_part() {
    assert_eq!(convert_msm_notification(0, 11), ConnectionNotifcation::InvalidPassword);
    assert_eq!(convert_msm_notification(11, 11), ConnectionNotifcation::InvalidPassword);
    assert_eq!(convert_msm_notification(11, 3), ConnectionNotifcation::Unknown);
}

#[test]
fn interface_states_from_codes() {
    assert_eq!(convert_wlan_interface_state(0), WlanInterfaceState::NotReady);
    assert_eq!(convert_wlan_interface_state(1), WlanInterfaceState::Connected);
    assert_eq!(convert_wlan_interface_state(2), WlanInterfaceState::AdHocNetworkFormed);
    assert_eq!(convert_wlan_interface_state(3), WlanInterfaceState::Disconnecting);
    assert_eq!(convert_wlan_interface_state(4), WlanInterfaceState::Disconnected);
    assert_eq!(convert_wlan_interface_state(5), WlanInterfaceState::Associating);
    assert_eq!(convert_wlan_interface_state(6), WlanInterfaceState::Discovering);
    assert_eq!(convert_wlan_interface_state(7), WlanInterfaceState::Authenticating);
    assert_eq!(convert_wlan_interface_state(8), WlanInterfaceState::Unavailable);
    assert_eq!(convert_wlan_interface_state(-1), WlanInterfaceState::Unavailable);
}

#[test]
fn selectable_states_hand_the_value_on() {
    assert_eq!(check_wlan_interface_state(&WlanInterfaceState::Connected, 5), Some(5));
    assert_eq!(check_wlan_interface_state(&WlanInterfaceState::Disconnected, 5), Some(5));
    assert_eq!(check_wlan_interface_state(&WlanInterfaceState::Associating, 5), Some(5));
    assert_eq!(check_wlan_interface_state(&WlanInterfaceState::Authenticating, 5), Some(5));
    assert_eq!(check_wlan_interface_state(&WlanInterfaceState::Discovering, 5), Some(5));
}

#[test]
fn other_states_hand_nothing_on() {
    assert_eq!(check_wlan_interface_state(&WlanInterfaceState::Unavailable, 5), None);
    assert_eq!(check_wlan_interface_state(&WlanInterfaceState::NotReady, 5), None);
    assert_eq!(check_wlan_interface_state(&WlanInterfaceState::AdHocNetworkFormed, 5), None);
    assert_eq!(check_wlan_interface_state(&WlanInterfaceState::Disconnecting, 5), None);
}

#[test]
fn defaults() {
    assert_eq!(NetworkSecurity::default(), NetworkSecurity::Open);
    assert_eq!(WlanInterfaceState::default(), WlanInterfaceState::Unavailable);
    assert_eq!(NotificationState::default(), NotificationState::Empty);
}
