use widestring::U16CString;
use wlan_engine::networking::profile_management::{find_auto_connect_profile, ProfileSearch};
use wlan_engine::networking::NetworkManager;
use wlan_engine::utils::Win32Error;
use wlan_engine::windows_api::wlan::{
    connect, delete_profile, disconnect, enumerate_interfaces, get_available_network_list,
    get_profile, get_profile_list, query_interface, reason_code_to_string, reason_to_resolve,
    register_notification, scan, set_profile, ClientHandle, ConnectionAttributes,
    ConnectionParameters, Dot11Ssid, Guid, InterfaceInfo, ProfileInfo, WlanCall, WlanError,
};

fn wide(text: &str) -> U16CString {
    U16CString::from_str(text).unwrap()
}

fn name_buffer(text: &str) -> Vec<u16> {
    let mut buffer: Vec<u16> = text.encode_utf16().collect();
    buffer.resize(256, 0);
    buffer
}

fn profile(text: &str) -> ProfileInfo {
    ProfileInfo { name: name_buffer(text), flags: 0 }
}

fn resolved_session() -> NetworkManager {
    let mut manager = NetworkManager::new(ClientHandle(0), 2);
    assert!(manager.handle_opened(0, 2, ClientHandle(77)).is_ok());
    manager.retrieve_interface_from_vec(vec![InterfaceInfo { guid: Guid(5), state: 4 }]);
    manager
}

fn unresolved_session() -> NetworkManager {
    let mut manager = NetworkManager::new(ClientHandle(0), 2);
    assert!(manager.handle_opened(0, 2, ClientHandle(77)).is_ok());
    manager
}

const AUTO: &str = "<WLANProfile><connectionMode>auto</connectionMode></WLANProfile>";
const MANUAL: &str = "<WLANProfile><connectionMode>manual</connectionMode></WLANProfile>";

#[test]
fn connect_by_profile_name_as_infrastructure() {
    let manager = resolved_session();
    let call = manager.connect_to_known_network("Home");
    assert_eq!(
        call,
        Ok(WlanCall::Connect {
            handle: ClientHandle(77),
            interface: Guid(5),
            parameters: ConnectionParameters {
                connection_mode: 0,
                profile: wide("Home"),
                bss_type: 1,
                flags: 0
            }
        })
    );
}

#[test]
fn connect_needs_an_interface() {
    let manager = unresolved_session();
    assert_eq!(manager.connect_to_known_network("Home"), Err(WlanError::InterfaceUnresolved));
}

#[test]
fn connect_refuses_a_name_with_a_nul_inside() {
    let manager = resolved_session();
    assert_eq!(manager.connect_to_known_network("Ho\0me"), Err(WlanError::MalformedData));
    let manager = unresolved_session();
    assert_eq!(manager.connect_to_known_network("Ho\0me"), Err(WlanError::MalformedData));
}

#[test]
fn store_profile_call_overwrites() {
    let manager = resolved_session();
    let document = String::from("<WLANProfile/>");
    assert_eq!(
        manager.set_wlan_profile(&document),
        Ok(WlanCall::SetProfile {
            handle: ClientHandle(77),
            interface: Guid(5),
            flags: 0,
            profile: wide("<WLANProfile/>"),
            overwrite: true
        })
    );
}

#[test]
fn store_profile_needs_an_interface_and_a_clean_document() {
    let manager = unresolved_session();
    assert_eq!(
        manager.set_wlan_profile(&String::from("<a/>")),
        Err(WlanError::InterfaceUnresolved)
    );
    assert_eq!(
        manager.set_wlan_profile(&String::from("<a\0/>")),
        Err(WlanError::InterfaceUnresolved)
    );
    let manager = resolved_session();
    assert_eq!(manager.set_wlan_profile(&String::from("<a\0/>")), Err(WlanError::MalformedData));
}

#[test]
fn profile_list_call_names_the_given_interface() {
    let manager = resolved_session();
    let other = InterfaceInfo { guid: Guid(9), state: 1 };
    assert_eq!(
        manager.get_profile_list(&other),
        WlanCall::GetProfileList { handle: ClientHandle(77), interface: Guid(9) }
    );
}

#[test]
fn delete_profile_call() {
    let manager = resolved_session();
    assert_eq!(
        manager.delete_profile(&String::from("Old")),
        Ok(WlanCall::DeleteProfile {
            handle: ClientHandle(77),
            interface: Guid(5),
            name: wide("Old")
        })
    );
    assert_eq!(manager.delete_profile(&String::from("O\0ld")), Err(WlanError::MalformedData));
    let manager = unresolved_session();
    assert_eq!(manager.delete_profile(&String::from("Old")), Err(WlanError::InterfaceUnresolved));
}

#[test]
fn search_reads_the_profile_at_the_position() {
    let manager = resolved_session();
    let profiles = vec![profile("First"), profile("Second")];
    assert_eq!(
        manager.check_for_windows_profiles(&profiles, 0),
        ProfileSearch::Fetch(WlanCall::GetProfile {
            handle: ClientHandle(77),
            interface: Guid(5),
            name: wide("First")
        })
    );
    assert_eq!(
        manager.check_for_windows_profiles(&profiles, 1),
        ProfileSearch::Fetch(WlanCall::GetProfile {
            handle: ClientHandle(77),
            interface: Guid(5),
            name: wide("Second")
        })
    );
}

#[test]
fn search_ends_behind_the_list() {
    let manager = resolved_session();
    let profiles = vec![profile("First")];
    assert_eq!(manager.check_for_windows_profiles(&profiles, 1), ProfileSearch::NotFound);
    assert_eq!(manager.check_for_windows_profiles(&profiles, 7), ProfileSearch::NotFound);
    assert_eq!(manager.check_for_windows_profiles(&Vec::new(), 0), ProfileSearch::NotFound);
}

#[test]
fn search_needs_an_interface() {
    let manager = unresolved_session();
    let profiles = vec![profile("First")];
    assert_eq!(manager.check_for_windows_profiles(&profiles, 0), ProfileSearch::NotFound);
}

#[test]
fn document_with_the_marker_is_a_find() {
    let manager = resolved_session();
    assert_eq!(
        manager.inspect_profile(&wide("Home"), Ok(wide(AUTO))),
        ProfileSearch::Found(String::from("Home"), true)
    );
}

#[test]
fn document_without_the_marker_sends_the_search_on() {
    let manager = resolved_session();
    assert_eq!(manager.inspect_profile(&wide("Home"), Ok(wide(MANUAL))), ProfileSearch::Continue);
    assert_eq!(manager.inspect_profile(&wide("Home"), Ok(wide(""))), ProfileSearch::Continue);
}

#[test]
fn failed_read_ends_the_search() {
    let manager = resolved_session();
    let failure = WlanError::Profile { status: Win32Error(1168), reason_code: 0 };
    assert_eq!(manager.inspect_profile(&wide("Home"), Err(failure)), ProfileSearch::NotFound);
}

#[test]
fn document_that_is_no_text_ends_the_search() {
    let manager = resolved_session();
    let broken = U16CString::from_vec(vec![0x3c, 0xD800, 0x3e]).unwrap();
    assert_eq!(manager.inspect_profile(&wide("Home"), Ok(broken)), ProfileSearch::NotFound);
}

#[test]
fn found_name_that_is_no_text_ends_the_search() {
    let manager = resolved_session();
    let broken = U16CString::from_vec(vec![0x61, 0xDC00]).unwrap();
    assert_eq!(manager.inspect_profile(&broken, Ok(wide(AUTO))), ProfileSearch::NotFound);
}

#[test]
fn whole_search_finds_the_first_auto_profile() {
    let manager = resolved_session();
    let profiles = vec![profile("One"), profile("Two"), profile("Three")];
    let bodies = [MANUAL, AUTO, AUTO];
    let mut position = 0;
    let mut result = None;
    loop {
        match manager.check_for_windows_profiles(&profiles, position) {
            ProfileSearch::Fetch(WlanCall::GetProfile { name, .. }) => {
                match manager.inspect_profile(&name, Ok(wide(bodies[position]))) {
                    ProfileSearch::Found(found, auto) => {
                        result = Some((found, auto));
                        break;
                    }
                    ProfileSearch::Continue => position += 1,
                    _ => break,
                }
            }
            _ => break,
        }
    }
    assert_eq!(result, Some((String::from("Two"), true)));
    assert_eq!(position, 1);
}

#[test]
fn first_document_with_the_marker() {
    let bodies = vec![String::from(MANUAL), String::from(AUTO), String::from(AUTO)];
    assert_eq!(find_auto_connect_profile(&bodies), Some(1));
    let bodies = vec![String::from(AUTO)];
    assert_eq!(find_auto_connect_profile(&bodies), Some(0));
}

#[test]
fn no_document_with_the_marker() {
    let bodies = vec![String::from(MANUAL), String::from("<connectionMode>auto")];
    assert_eq!(find_auto_connect_profile(&bodies), None);
    assert_eq!(find_auto_connect_profile(&Vec::new()), None);
}

#[test]
fn marker_needs_no_closing_bracket() {
    let bodies = vec![String::from("x<connectionMode>auto</connectionMode")];
    assert_eq!(find_auto_connect_profile(&bodies), Some(0));
}

#[test]
fn plain_status_checks() {
    assert_eq!(register_notification(0), Ok(()));
    assert_eq!(register_notification(87), Err(WlanError::Registration(Win32Error(87))));
    assert_eq!(scan(0), Ok(()));
    assert_eq!(scan(6), Err(WlanError::Enumeration(Win32Error(6))));
    assert_eq!(connect(0), Ok(()));
    assert_eq!(connect(5), Err(WlanError::Connect(Win32Error(5))));
    assert_eq!(disconnect(0), Ok(()));
    assert_eq!(disconnect(8), Err(WlanError::Disconnect(Win32Error(8))));
    assert_eq!(delete_profile(0), Ok(()));
    assert_eq!(
        delete_profile(1168),
        Err(WlanError::Profile { status: Win32Error(1168), reason_code: 0 })
    );
}

#[test]
fn not_connected_is_expected() {
    assert_eq!(query_interface(5023, None), Ok(None));
    let attributes = ConnectionAttributes { ssid: Dot11Ssid { length: 1, bytes: [b'x'; 32] } };
    assert_eq!(query_interface(5023, Some(attributes)), Ok(None));
}

#[test]
fn query_outcomes() {
    let attributes = ConnectionAttributes { ssid: Dot11Ssid { length: 1, bytes: [b'x'; 32] } };
    assert_eq!(query_interface(0, Some(attributes)), Ok(Some(attributes)));
    assert_eq!(query_interface(0, None), Err(WlanError::MalformedData));
    assert_eq!(query_interface(5, None), Err(WlanError::Query(Win32Error(5))));
    assert_eq!(query_interface(5, Some(attributes)), Err(WlanError::Query(Win32Error(5))));
}

#[test]
fn list_outcomes() {
    let interfaces = vec![InterfaceInfo { guid: Guid(1), state: 1 }];
    assert_eq!(enumerate_interfaces(0, Some(interfaces.clone())), Ok(interfaces));
    assert_eq!(enumerate_interfaces(5, None), Err(WlanError::Enumeration(Win32Error(5))));
    assert_eq!(get_available_network_list(0, Some(Vec::new())), Ok(Vec::new()));
    assert_eq!(
        get_available_network_list(1168, None),
        Err(WlanError::Enumeration(Win32Error(1168)))
    );
    let profiles = vec![profile("P")];
    assert_eq!(get_profile_list(0, Some(profiles.clone())), Ok(profiles));
    assert_eq!(
        get_profile_list(2, None),
        Err(WlanError::Profile { status: Win32Error(2), reason_code: 0 })
    );
}

#[test]
fn profile_read_outcomes() {
    assert_eq!(get_profile(0, Some(wide("<a/>"))), Ok(wide("<a/>")));
    assert_eq!(get_profile(0, None), Err(WlanError::MalformedData));
    assert_eq!(
        get_profile(1168, Some(wide("<a/>"))),
        Err(WlanError::Profile { status: Win32Error(1168), reason_code: 0 })
    );
}

#[test]
fn failed_store_carries_the_reason_code() {
    assert_eq!(set_profile(0, 0), Ok(()));
    assert_eq!(set_profile(0, 524301), Ok(()));
    assert_eq!(
        set_profile(1206, 524301),
        Err(WlanError::Profile { status: Win32Error(1206), reason_code: 524301 })
    );
}

#[test]
fn reason_is_resolved_for_a_failed_store_only() {
    assert_eq!(reason_to_resolve(&set_profile(1206, 524301)), Some(524301));
    assert_eq!(reason_to_resolve(&set_profile(0, 524301)), None);
    assert_eq!(reason_to_resolve(&Err(WlanError::MalformedData)), None);
    assert_eq!(reason_to_resolve(&Err(WlanError::Connect(Win32Error(5)))), None);
}

#[test]
fn reason_text_is_the_buffer_up_to_its_first_nul() {
    let mut buffer: Vec<u16> = "The profile is bad".encode_utf16().collect();
    buffer.resize(512, 0);
    assert_eq!(reason_code_to_string(0, &buffer), Some(String::from("The profile is bad")));
    assert_eq!(reason_code_to_string(87, &buffer), None);
    assert_eq!(reason_code_to_string(0, &[0u16; 512]), Some(String::new()));
}

#[test]
fn read_profile_call() {
    let manager = resolved_session();
    assert_eq!(
        manager.get_profile(&String::from("Home")),
        Ok(WlanCall::GetProfile {
            handle: ClientHandle(77),
            interface: Guid(5),
            name: wide("Home")
        })
    );
    assert_eq!(manager.get_profile(&String::from("Ho\0me")), Err(WlanError::MalformedData));
    let manager = unresolved_session();
    assert_eq!(manager.get_profile(&String::from("Home")), Err(WlanError::InterfaceUnresolved));
}
