//! The closed sets of values that the engine classifies raw codes into.

use vstd::prelude::*;

verus! {

/// Authentication algorithm code: open system.
pub const DOT11_AUTH_ALGO_80211_OPEN: i32 = 1;

/// Authentication algorithm code: WPA with 802.1X.
pub const DOT11_AUTH_ALGO_WPA: i32 = 3;

/// Authentication algorithm code: WPA with a pre-shared key.
pub const DOT11_AUTH_ALGO_WPA_PSK: i32 = 4;

/// Authentication algorithm code: WPA2 (RSNA) with 802.1X.
pub const DOT11_AUTH_ALGO_RSNA: i32 = 6;

/// Authentication algorithm code: WPA2 (RSNA) with a pre-shared key.
pub const DOT11_AUTH_ALGO_RSNA_PSK: i32 = 7;

/// Cipher algorithm code: no encryption.
pub const DOT11_CIPHER_ALGO_NONE: i32 = 0;

/// Cipher algorithm code: TKIP.
pub const DOT11_CIPHER_ALGO_TKIP: i32 = 2;

/// Cipher algorithm code: AES-CCMP.
pub const DOT11_CIPHER_ALGO_CCMP: i32 = 4;

/// Connection-manager notification code: a connection attempt has started.
pub const WLAN_NOTIFICATION_ACM_CONNECTION_START: i32 = 9;

/// Connection-manager notification code: a connection attempt has ended.
pub const WLAN_NOTIFICATION_ACM_CONNECTION_COMPLETE: i32 = 10;

/// Connection-manager notification code: a connection attempt has failed.
pub const WLAN_NOTIFICATION_ACM_CONNECTION_ATTEMPT_FAIL: i32 = 11;

/// Connection-manager notification code: the interface has disconnected.
pub const WLAN_NOTIFICATION_ACM_DISCONNECTED: i32 = 21;

/// Media-specific reason payload that reports a wrong passphrase.
pub const MSM_REASON_INVALID_PASSWORD: u32 = 11;

/// Interface state code: not ready.
pub const WLAN_INTERFACE_STATE_NOT_READY: i32 = 0;

/// Interface state code: connected.
pub const WLAN_INTERFACE_STATE_CONNECTED: i32 = 1;

/// Interface state code: first node of an ad hoc network.
pub const WLAN_INTERFACE_STATE_AD_HOC_NETWORK_FORMED: i32 = 2;

/// Interface state code: disconnecting.
pub const WLAN_INTERFACE_STATE_DISCONNECTING: i32 = 3;

/// Interface state code: disconnected.
pub const WLAN_INTERFACE_STATE_DISCONNECTED: i32 = 4;

/// Interface state code: associating.
pub const WLAN_INTERFACE_STATE_ASSOCIATING: i32 = 5;

/// Interface state code: discovering.
pub const WLAN_INTERFACE_STATE_DISCOVERING: i32 = 6;

/// Interface state code: authenticating.
pub const WLAN_INTERFACE_STATE_AUTHENTICATING: i32 = 7;

/// The security kind of a network.
#[derive(Clone, Copy, Debug, PartialEq, Eq, Structural)]
pub enum NetworkSecurity {
    Open,
    WPA,
    WPA2,
    WPAPSK,
    WPA2PSK,
    Unknown,
}

/// The encryption kind of a network.
#[derive(Clone, Copy, Debug, PartialEq, Eq, Structural)]
pub enum EncryptionAlgorithm {
    AES,
    TKIP,
    NONE,
}

/// An event of the connection, as the poller sees it.
#[derive(Clone, Copy, Debug, PartialEq, Eq, Structural)]
pub enum ConnectionNotifcation {
    ConnectionStart,
    ConnectionComplete,
    ConnectionAttemptFail,
    InvalidPassword,
    Disconnected,
    Error,
    Unknown,
}

/// The state of a wireless interface.
#[derive(Clone, Copy, Debug, PartialEq, Eq, Structural)]
pub enum WlanInterfaceState {
    Connected,
    Disconnected,
    Disconnecting,
    Associating,
    Authenticating,
    Discovering,
    AdHocNetworkFormed,
    NotReady,
    Unavailable,
}

/// What the poller last saw of the notification queue, kept so that a queue
/// that stays empty or stays disconnected is reported once.
#[derive(Clone, Copy, Debug, PartialEq, Eq, Structural)]
pub enum NotificationState {
    Empty,
    Disconnected,
    Unknown,
    StateKnown,
}

/// The security kind that an authentication algorithm code stands for.
pub open spec fn security_of(auth_algorithm: i32) -> NetworkSecurity {
    if auth_algorithm == DOT11_AUTH_ALGO_80211_OPEN {
        NetworkSecurity::Open
    } else if auth_algorithm == DOT11_AUTH_ALGO_WPA {
        NetworkSecurity::WPA
    } else if auth_algorithm == DOT11_AUTH_ALGO_WPA_PSK {
        NetworkSecurity::WPAPSK
    } else if auth_algorithm == DOT11_AUTH_ALGO_RSNA {
        NetworkSecurity::WPA2
    } else if auth_algorithm == DOT11_AUTH_ALGO_RSNA_PSK {
        NetworkSecurity::WPA2PSK
    } else {
        NetworkSecurity::Unknown
    }
}

/// The encryption kind that a cipher algorithm code stands for. Every code
/// but those of AES-CCMP and TKIP counts as no encryption.
pub open spec fn encryption_of(cipher_algorithm: i32) -> EncryptionAlgorithm {
    if cipher_algorithm == DOT11_CIPHER_ALGO_CCMP {
        EncryptionAlgorithm::AES
    } else if cipher_algorithm == DOT11_CIPHER_ALGO_TKIP {
        EncryptionAlgorithm::TKIP
    } else {
        EncryptionAlgorithm::NONE
    }
}

/// The event that a connection-manager notification code stands for.
pub open spec fn connection_event_of(code: int) -> ConnectionNotifcation {
    if code == WLAN_NOTIFICATION_ACM_CONNECTION_START {
        ConnectionNotifcation::ConnectionStart
    } else if code == WLAN_NOTIFICATION_ACM_CONNECTION_COMPLETE {
        ConnectionNotifcation::ConnectionComplete
    } else if code == WLAN_NOTIFICATION_ACM_DISCONNECTED {
        ConnectionNotifcation::Disconnected
    } else if code == WLAN_NOTIFICATION_ACM_CONNECTION_ATTEMPT_FAIL {
        ConnectionNotifcation::ConnectionAttemptFail
    } else {
        ConnectionNotifcation::Unknown
    }
}

/// The event that a media-specific reason payload stands for.
pub open spec fn reason_event_of(reason_code: u32) -> ConnectionNotifcation {
    if reason_code == MSM_REASON_INVALID_PASSWORD {
        ConnectionNotifcation::InvalidPassword
    } else {
        ConnectionNotifcation::Unknown
    }
}

/// The interface state that a raw state code stands for. A code outside the
/// known ones counts as unavailable.
pub open spec fn interface_state_of(state: i32) -> WlanInterfaceState {
    if state == WLAN_INTERFACE_STATE_CONNECTED {
        WlanInterfaceState::Connected
    } else if state == WLAN_INTERFACE_STATE_DISCONNECTED {
        WlanInterfaceState::Disconnected
    } else if state == WLAN_INTERFACE_STATE_ASSOCIATING {
        WlanInterfaceState::Associating
    } else if state == WLAN_INTERFACE_STATE_AUTHENTICATING {
        WlanInterfaceState::Authenticating
    } else if state == WLAN_INTERFACE_STATE_DISCOVERING {
        WlanInterfaceState::Discovering
    } else if state == WLAN_INTERFACE_STATE_DISCONNECTING {
        WlanInterfaceState::Disconnecting
    } else if state == WLAN_INTERFACE_STATE_AD_HOC_NETWORK_FORMED {
        WlanInterfaceState::AdHocNetworkFormed
    } else if state == WLAN_INTERFACE_STATE_NOT_READY {
        WlanInterfaceState::NotReady
    } else {
        WlanInterfaceState::Unavailable
    }
}

/// Whether the session may select an interface in this state. An interface
/// that is connected, disconnected, associating, authenticating or
/// discovering is usable; one that is disconnecting, not ready, unavailable
/// or part of an ad hoc network is not.
pub open spec fn is_selectable(state: WlanInterfaceState) -> bool {
    state is Connected || state is Disconnected || state is Associating
        || state is Authenticating || state is Discovering
}

impl NetworkSecurity {
    /// The name of the security kind as a profile document spells it.
    pub open spec fn name(self) -> Seq<char> {
        match self {
            NetworkSecurity::Open => "Open"@,
            NetworkSecurity::WPA => "WPA"@,
            NetworkSecurity::WPA2 => "WPA2"@,
            NetworkSecurity::WPAPSK => "WPAPSK"@,
            NetworkSecurity::WPA2PSK => "WPA2PSK"@,
            NetworkSecurity::Unknown => "Unknown"@,
        }
    }

    /// Spells the security kind as a profile document does.
    pub fn convert_to_string(&self) -> (text: String)
        ensures
            text@ == self.name(),
    {
        match self {
            NetworkSecurity::Open => "Open".to_owned(),
            NetworkSecurity::WPA => "WPA".to_owned(),
            NetworkSecurity::WPA2 => "WPA2".to_owned(),
            NetworkSecurity::WPAPSK => "WPAPSK".to_owned(),
            NetworkSecurity::WPA2PSK => "WPA2PSK".to_owned(),
            NetworkSecurity::Unknown => "Unknown".to_owned(),
        }
    }
}

impl EncryptionAlgorithm {
    /// The name of the encryption kind as a profile document spells it.
    pub open spec fn name(self) -> Seq<char> {
        match self {
            EncryptionAlgorithm::AES => "AES"@,
            EncryptionAlgorithm::TKIP => "TKIP"@,
            EncryptionAlgorithm::NONE => "NONE"@,
        }
    }

    /// Spells the encryption kind as a profile document does.
    pub fn convert_to_string(&self) -> (text: String)
        ensures
            text@ == self.name(),
    {
        match self {
            EncryptionAlgorithm::AES => "AES".to_owned(),
            EncryptionAlgorithm::TKIP => "TKIP".to_owned(),
            EncryptionAlgorithm::NONE => "NONE".to_owned(),
        }
    }
}

impl Default for NetworkSecurity {
    fn default() -> (security: NetworkSecurity)
        ensures
            security == NetworkSecurity::Open,
    {
        NetworkSecurity::Open
    }
}

impl Default for WlanInterfaceState {
    fn default() -> (state: WlanInterfaceState)
        ensures
            state == WlanInterfaceState::Unavailable,
    {
        WlanInterfaceState::Unavailable
    }
}

impl Default for NotificationState {
    fn default() -> (state: NotificationState)
        ensures
            state == NotificationState::Empty,
    {
        NotificationState::Empty
    }
}

/// Classifies the security of a scanned network from its raw fields: the
/// flag is handed on, the algorithm code is mapped to a security kind.
pub fn check_security(security_enabled: bool, auth_algorithm: i32) -> (result: (
    bool,
    NetworkSecurity,
))
    ensures
        result.0 == security_enabled,
        result.1 == security_of(auth_algorithm),
{
    let security_type = if auth_algorithm == DOT11_AUTH_ALGO_80211_OPEN {
        NetworkSecurity::Open
    } else if auth_algorithm == DOT11_AUTH_ALGO_WPA {
        NetworkSecurity::WPA
    } else if auth_algorithm == DOT11_AUTH_ALGO_WPA_PSK {
        NetworkSecurity::WPAPSK
    } else if auth_algorithm == DOT11_AUTH_ALGO_RSNA {
        NetworkSecurity::WPA2
    } else if auth_algorithm == DOT11_AUTH_ALGO_RSNA_PSK {
        NetworkSecurity::WPA2PSK
    } else {
        NetworkSecurity::Unknown
    };
    (security_enabled, security_type)
}

/// Classifies the encryption of a scanned network from its cipher code.
pub fn check_encryption(cipher_algorithm: i32) -> (encryption: EncryptionAlgorithm)
    ensures
        encryption == encryption_of(cipher_algorithm),
{
    if cipher_algorithm == DOT11_CIPHER_ALGO_CCMP {
        EncryptionAlgorithm::AES
    } else if cipher_algorithm == DOT11_CIPHER_ALGO_TKIP {
        EncryptionAlgorithm::TKIP
    } else {
        EncryptionAlgorithm::NONE
    }
}

/// Classifies a notification code of the connection manager.
pub fn convert_connection_notification(code: i32) -> (event: ConnectionNotifcation)
    ensures
        event == connection_event_of(code as int),
{
    if code == WLAN_NOTIFICATION_ACM_CONNECTION_START {
        ConnectionNotifcation::ConnectionStart
    } else if code == WLAN_NOTIFICATION_ACM_CONNECTION_COMPLETE {
        ConnectionNotifcation::ConnectionComplete
    } else if code == WLAN_NOTIFICATION_ACM_DISCONNECTED {
        ConnectionNotifcation::Disconnected
    } else if code == WLAN_NOTIFICATION_ACM_CONNECTION_ATTEMPT_FAIL {
        ConnectionNotifcation::ConnectionAttemptFail
    } else {
        ConnectionNotifcation::Unknown
    }
}

/// Classifies the reason payload of a media-specific notification.
pub fn convert_msm_notification_reason(reason_code: u32) -> (event: ConnectionNotifcation)
    ensures
        event == reason_event_of(reason_code),
{
    if reason_code == MSM_REASON_INVALID_PASSWORD {
        ConnectionNotifcation::InvalidPassword
    } else {
        ConnectionNotifcation::Unknown
    }
}

/// Classifies a media-specific notification. The notification code plays no
/// part: the reason payload alone decides.
pub fn convert_msm_notification(code: u32, reason_code: u32) -> (event: ConnectionNotifcation)
    ensures
        event == reason_event_of(reason_code),
{
    convert_msm_notification_reason(reason_code)
}

/// Classifies a raw interface state code.
pub fn convert_wlan_interface_state(state: i32) -> (converted: WlanInterfaceState)
    ensures
        converted == interface_state_of(state),
{
    if state == WLAN_INTERFACE_STATE_CONNECTED {
        WlanInterfaceState::Connected
    } else if state == WLAN_INTERFACE_STATE_DISCONNECTED {
        WlanInterfaceState::Disconnected
    } else if state == WLAN_INTERFACE_STATE_ASSOCIATING {
        WlanInterfaceState::Associating
    } else if state == WLAN_INTERFACE_STATE_AUTHENTICATING {
        WlanInterfaceState::Authenticating
    } else if state == WLAN_INTERFACE_STATE_DISCOVERING {
        WlanInterfaceState::Discovering
    } else if state == WLAN_INTERFACE_STATE_DISCONNECTING {
        WlanInterfaceState::Disconnecting
    } else if state == WLAN_INTERFACE_STATE_AD_HOC_NETWORK_FORMED {
        WlanInterfaceState::AdHocNetworkFormed
    } else if state == WLAN_INTERFACE_STATE_NOT_READY {
        WlanInterfaceState::NotReady
    } else {
        WlanInterfaceState::Unavailable
    }
}

/// Hands `value` on when an interface in `state` may be selected, and
/// nothing otherwise.
pub fn check_wlan_interface_state<T>(state: &WlanInterfaceState, value: T) -> (selected: Option<T>)
    ensures
        selected == if is_selectable(*state) {
            Some(value)
        } else {
            None
        },
{
    match state {
        WlanInterfaceState::Connected => Some(value),
        WlanInterfaceState::Disconnected => Some(value),
        WlanInterfaceState::Associating => Some(value),
        WlanInterfaceState::Authenticating => Some(value),
        WlanInterfaceState::Discovering => Some(value),
        _ => None,
    }
}

} // verus!
