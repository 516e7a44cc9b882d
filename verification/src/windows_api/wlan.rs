//! The data that the wireless API hands over, held as plain values, and
//! what its calls report, turned into results.
//!
//! The engine makes none of these calls. The embedding program makes each
//! call, copies what the call left in its buffers into the types below,
//! frees the buffers, and hands status code and copy to the function here
//! that bears the call's name.

use vstd::prelude::*;
use widestring::U16CString;
use crate::utils::{check_win32, Win32Error, ERROR_SUCCESS};
use crate::windows_api::convert_u16_slice_to_string;
use crate::windows_api::{before_nul, utf16_lossy};

verus! {

/// The longest SSID, in bytes.
pub const DOT11_SSID_MAX_LENGTH: u32 = 32;

/// The status code with which a query of the current connection reports
/// that the interface is not connected.
pub const ERROR_INVALID_STATE: u32 = 5023;

/// Query opcode: the current connection of an interface.
pub const WLAN_INTF_OPCODE_CURRENT_CONNECTION: i32 = 7;

/// Connection mode: connect by the name of a stored profile.
pub const WLAN_CONNECTION_MODE_PROFILE: i32 = 0;

/// BSS type: infrastructure, a connection through an access point.
pub const DOT11_BSS_TYPE_INFRASTRUCTURE: i32 = 1;

/// The native client handle, as the number that the operating system gave.
#[derive(Clone, Copy, Debug, PartialEq, Eq, Structural)]
pub struct ClientHandle(pub isize);

impl ClientHandle {
    /// Whether the number is one that never names a handle: zero or minus
    /// one.
    pub open spec fn invalid(self) -> bool {
        self.0 == 0 || self.0 == -1
    }

    /// Tells whether the number is one that never names a handle.
    pub fn is_invalid(&self) -> (invalid: bool)
        ensures
            invalid == self.invalid(),
    {
        self.0 == 0 || self.0 == -1
    }
}

/// The identifier of a wireless interface.
#[derive(Clone, Copy, Debug, PartialEq, Eq, Structural)]
pub struct Guid(pub u128);

/// An SSID as the operating system stores it: a length and a buffer of
/// thirty-two bytes, of which the first `length` count.
#[derive(Clone, Copy, Debug, PartialEq, Eq)]
pub struct Dot11Ssid {
    pub length: u32,
    pub bytes: [u8; 32],
}

impl Dot11Ssid {
    /// Whether the length fits the buffer.
    pub open spec fn well_formed(self) -> bool {
        self.length <= DOT11_SSID_MAX_LENGTH
    }

    /// The bytes that count.
    pub open spec fn octets(self) -> Seq<u8>
        recommends
            self.well_formed(),
    {
        self.bytes@.subrange(0, self.length as int)
    }

    /// Copies out the bytes that count, or nothing where the length does
    /// not fit the buffer.
    pub fn to_bytes(&self) -> (octets: Option<Vec<u8>>)
        ensures
            octets is Some <==> self.well_formed(),
            octets is Some ==> octets->0@ == self.octets(),
    {
        if self.length > DOT11_SSID_MAX_LENGTH {
            return None;
        }
        let length = self.length as usize;
        let mut octets: Vec<u8> = Vec::new();
        let mut i: usize = 0;
        while i < length
            invariant
                i <= length <= 32,
                length == self.length,
                octets@ == self.bytes@.subrange(0, i as int),
            decreases length - i,
        {
            octets.push(self.bytes[i]);
            assert(octets@ =~= self.bytes@.subrange(0, i + 1));
            i += 1;
        }
        Some(octets)
    }
}

/// One interface of an enumeration: its identifier and its raw state code.
#[derive(Clone, Copy, Debug, PartialEq, Eq, Structural)]
pub struct InterfaceInfo {
    pub guid: Guid,
    pub state: i32,
}

/// One entry of an available-network list, with the fields that the engine
/// reads.
#[derive(Clone, Copy, Debug, PartialEq, Eq)]
pub struct AvailableNetwork {
    pub ssid: Dot11Ssid,
    pub security_enabled: bool,
    pub auth_algorithm: i32,
    pub cipher_algorithm: i32,
    pub signal_quality: u32,
}

/// The attributes of the current connection, with the field that the engine
/// reads.
#[derive(Clone, Copy, Debug, PartialEq, Eq)]
pub struct ConnectionAttributes {
    pub ssid: Dot11Ssid,
}

/// One entry of a profile list: the buffer that holds the profile's name,
/// ended by a nul, and the profile's flags.
#[derive(Clone, Debug, PartialEq, Eq)]
pub struct ProfileInfo {
    pub name: Vec<u16>,
    pub flags: u32,
}

/// The parameters of a connection request.
#[derive(Debug, PartialEq, Eq)]
pub struct ConnectionParameters {
    /// How the network is named: always by profile.
    pub connection_mode: i32,
    /// The name of the profile to connect with.
    pub profile: U16CString,
    /// The kind of network: always infrastructure.
    pub bss_type: i32,
    /// Connection flags: none.
    pub flags: u32,
}

/// A call of the wireless API that the engine asks the embedding program
/// to make, with the arguments that are not fixed by the call itself.
#[derive(Debug, PartialEq, Eq)]
pub enum WlanCall {
    /// Acquire a client handle for this client version.
    OpenHandle { client_version: u32 },
    /// Release the client handle.
    CloseHandle { handle: ClientHandle },
    /// Register the notification callback for these sources.
    RegisterNotification { handle: ClientHandle, sources: u32, ignore_duplicates: bool },
    /// Enumerate the wireless interfaces.
    EnumInterfaces { handle: ClientHandle },
    /// Start a scan on an interface.
    Scan { handle: ClientHandle, interface: Guid },
    /// Retrieve the list of available networks of an interface.
    GetAvailableNetworkList { handle: ClientHandle, interface: Guid, flags: u32 },
    /// Query an interface with an opcode.
    QueryInterface { handle: ClientHandle, interface: Guid, opcode: i32 },
    /// Connect an interface.
    Connect { handle: ClientHandle, interface: Guid, parameters: ConnectionParameters },
    /// Disconnect an interface.
    Disconnect { handle: ClientHandle, interface: Guid },
    /// Store a profile document on an interface.
    SetProfile {
        handle: ClientHandle,
        interface: Guid,
        flags: u32,
        profile: U16CString,
        overwrite: bool,
    },
    /// Retrieve the list of profiles of an interface.
    GetProfileList { handle: ClientHandle, interface: Guid },
    /// Read the document of a profile.
    GetProfile { handle: ClientHandle, interface: Guid, name: U16CString },
    /// Delete a profile.
    DeleteProfile { handle: ClientHandle, interface: Guid, name: U16CString },
}

/// Why an operation of the engine failed.
#[derive(Clone, Copy, Debug, PartialEq, Eq, Structural)]
pub enum WlanError {
    /// The native handle could not be acquired.
    HandleOpen(Win32Error),
    /// The native handle could not be released.
    HandleClose(Win32Error),
    /// The notification callback could not be registered.
    Registration(Win32Error),
    /// A list of interfaces or of networks could not be retrieved, or a
    /// scan was not accepted.
    Enumeration(Win32Error),
    /// The current connection could not be queried.
    Query(Win32Error),
    /// A profile could not be read, stored or deleted; `reason_code` is
    /// what the operating system gave as its reason, zero where it gave
    /// none.
    Profile { status: Win32Error, reason_code: u32 },
    /// A connection request was not accepted.
    Connect(Win32Error),
    /// A disconnection request was not accepted.
    Disconnect(Win32Error),
    /// Data of the operating system or of the caller is not in the shape
    /// that the operation needs.
    MalformedData,
    /// The operation needs an open handle.
    HandleNotOpen,
    /// The operation needs a selected interface.
    InterfaceUnresolved,
    /// The table of visible networks holds no network of that name.
    UnknownNetwork,
}

/// What registering the callback reported.
pub fn register_notification(status: u32) -> (result: Result<(), WlanError>)
    ensures
        result == if status == ERROR_SUCCESS {
            Ok::<(), WlanError>(())
        } else {
            Err::<(), WlanError>(WlanError::Registration(Win32Error(status)))
        },
{
    match check_win32(status) {
        Ok(_) => Ok(()),
        Err(error) => Err(WlanError::Registration(error)),
    }
}

/// What a scan request reported.
pub fn scan(status: u32) -> (result: Result<(), WlanError>)
    ensures
        result == if status == ERROR_SUCCESS {
            Ok::<(), WlanError>(())
        } else {
            Err::<(), WlanError>(WlanError::Enumeration(Win32Error(status)))
        },
{
    match check_win32(status) {
        Ok(_) => Ok(()),
        Err(error) => Err(WlanError::Enumeration(error)),
    }
}

/// What enumerating the interfaces reported. A call that succeeds without
/// leaving a list breaks the operating system's own contract: the caller
/// stops there.
pub fn enumerate_interfaces(status: u32, list: Option<Vec<InterfaceInfo>>) -> (result: Result<
    Vec<InterfaceInfo>,
    WlanError,
>)
    requires
        status == ERROR_SUCCESS ==> list is Some,
    ensures
        status == ERROR_SUCCESS ==> result == Ok::<Vec<InterfaceInfo>, WlanError>(list->0),
        status != ERROR_SUCCESS ==> result == Err::<Vec<InterfaceInfo>, WlanError>(
            WlanError::Enumeration(Win32Error(status)),
        ),
{
    if status != ERROR_SUCCESS {
        return Err(WlanError::Enumeration(Win32Error(status)));
    }
    match list {
        Some(list) => Ok(list),
        None => Err(WlanError::MalformedData),
    }
}

/// What retrieving the available-network list reported. A call that
/// succeeds without leaving a list breaks the operating system's own
/// contract: the caller stops there.
pub fn get_available_network_list(status: u32, list: Option<Vec<AvailableNetwork>>) -> (result:
    Result<Vec<AvailableNetwork>, WlanError>)
    requires
        status == ERROR_SUCCESS ==> list is Some,
    ensures
        status == ERROR_SUCCESS ==> result == Ok::<Vec<AvailableNetwork>, WlanError>(list->0),
        status != ERROR_SUCCESS ==> result == Err::<Vec<AvailableNetwork>, WlanError>(
            WlanError::Enumeration(Win32Error(status)),
        ),
{
    if status != ERROR_SUCCESS {
        return Err(WlanError::Enumeration(Win32Error(status)));
    }
    match list {
        Some(list) => Ok(list),
        None => Err(WlanError::MalformedData),
    }
}

/// The outcome of a query of the current connection: no connection where
/// the status says so, the attributes where the query succeeded, and an
/// error for every other status and for a success without attributes.
pub open spec fn query_outcome(status: u32, attributes: Option<ConnectionAttributes>) -> Result<
    Option<ConnectionAttributes>,
    WlanError,
> {
    if status == ERROR_INVALID_STATE {
        Ok(None)
    } else if status != ERROR_SUCCESS {
        Err(WlanError::Query(Win32Error(status)))
    } else if attributes is None {
        Err(WlanError::MalformedData)
    } else {
        Ok(attributes)
    }
}

/// What a query of the current connection reported. `attributes` is the
/// copy of the attribute buffer, or nothing where the call left no buffer.
pub fn query_interface(status: u32, attributes: Option<ConnectionAttributes>) -> (result: Result<
    Option<ConnectionAttributes>,
    WlanError,
>)
    ensures
        result == query_outcome(status, attributes),
{
    if status == ERROR_INVALID_STATE {
        return Ok(None);
    }
    if status != ERROR_SUCCESS {
        return Err(WlanError::Query(Win32Error(status)));
    }
    match attributes {
        None => Err(WlanError::MalformedData),
        Some(attributes) => Ok(Some(attributes)),
    }
}

/// What retrieving the profile list reported. A call that succeeds without
/// leaving a list breaks the operating system's own contract: the caller
/// stops there.
pub fn get_profile_list(status: u32, list: Option<Vec<ProfileInfo>>) -> (result: Result<
    Vec<ProfileInfo>,
    WlanError,
>)
    requires
        status == ERROR_SUCCESS ==> list is Some,
    ensures
        status == ERROR_SUCCESS ==> result == Ok::<Vec<ProfileInfo>, WlanError>(list->0),
        status != ERROR_SUCCESS ==> result == Err::<Vec<ProfileInfo>, WlanError>(
            WlanError::Profile { status: Win32Error(status), reason_code: 0 },
        ),
{
    if status != ERROR_SUCCESS {
        return Err(WlanError::Profile { status: Win32Error(status), reason_code: 0 });
    }
    match list {
        Some(list) => Ok(list),
        None => Err(WlanError::MalformedData),
    }
}

/// What deleting a profile reported.
pub fn delete_profile(status: u32) -> (result: Result<(), WlanError>)
    ensures
        result == if status == ERROR_SUCCESS {
            Ok::<(), WlanError>(())
        } else {
            Err::<(), WlanError>(WlanError::Profile { status: Win32Error(status), reason_code: 0 })
        },
{
    match check_win32(status) {
        Ok(_) => Ok(()),
        Err(error) => Err(WlanError::Profile { status: error, reason_code: 0 }),
    }
}

/// What reading a profile reported. `body` is the copy of the document, or
/// nothing where the call left none.
pub fn get_profile(status: u32, body: Option<U16CString>) -> (result: Result<
    U16CString,
    WlanError,
>)
    ensures
        status != ERROR_SUCCESS ==> result == Err::<U16CString, WlanError>(
            WlanError::Profile { status: Win32Error(status), reason_code: 0 },
        ),
        status == ERROR_SUCCESS && body is None ==> result == Err::<U16CString, WlanError>(
            WlanError::MalformedData,
        ),
        status == ERROR_SUCCESS && body is Some ==> result == Ok::<U16CString, WlanError>(
            body->0,
        ),
{
    if status != ERROR_SUCCESS {
        return Err(WlanError::Profile { status: Win32Error(status), reason_code: 0 });
    }
    match body {
        Some(body) => Ok(body),
        None => Err(WlanError::MalformedData),
    }
}

/// What storing a profile reported. A failure carries the reason code that
/// the call left.
pub fn set_profile(status: u32, reason_code: u32) -> (result: Result<(), WlanError>)
    ensures
        result == if status == ERROR_SUCCESS {
            Ok::<(), WlanError>(())
        } else {
            Err::<(), WlanError>(WlanError::Profile { status: Win32Error(status), reason_code })
        },
{
    match check_win32(status) {
        Ok(_) => Ok(()),
        Err(error) => Err(WlanError::Profile { status: error, reason_code }),
    }
}

/// The reason code that should be resolved to a text for diagnostics after
/// a profile was stored: that of a failed store, and none after a success
/// or after another kind of failure.
pub fn reason_to_resolve(stored: &Result<(), WlanError>) -> (reason_code: Option<u32>)
    ensures
        reason_code == match *stored {
            Err(WlanError::Profile { status, reason_code }) => Some(reason_code),
            _ => None,
        },
{
    match stored {
        Err(WlanError::Profile { status: _, reason_code }) => Some(*reason_code),
        _ => None,
    }
}

/// The text of a reason code, from what the lookup reported: the text in
/// the buffer up to its first nul where the lookup succeeded, and nothing
/// where it failed.
pub fn reason_code_to_string(status: u32, buffer: &[u16]) -> (reason: Option<String>)
    ensures
        reason is Some <==> status == ERROR_SUCCESS,
        reason is Some ==> reason->0@ == utf16_lossy(before_nul(buffer@)),
{
    if status == ERROR_SUCCESS {
        Some(convert_u16_slice_to_string(buffer))
    } else {
        None
    }
}

/// What a connection request reported. Success means that the request was
/// accepted, not that the interface is connected.
pub fn connect(status: u32) -> (result: Result<(), WlanError>)
    ensures
        result == if status == ERROR_SUCCESS {
            Ok::<(), WlanError>(())
        } else {
            Err::<(), WlanError>(WlanError::Connect(Win32Error(status)))
        },
{
    match check_win32(status) {
        Ok(_) => Ok(()),
        Err(error) => Err(WlanError::Connect(error)),
    }
}

/// What a disconnection request reported.
pub fn disconnect(status: u32) -> (result: Result<(), WlanError>)
    ensures
        result == if status == ERROR_SUCCESS {
            Ok::<(), WlanError>(())
        } else {
            Err::<(), WlanError>(WlanError::Disconnect(Win32Error(status)))
        },
{
    match check_win32(status) {
        Ok(_) => Ok(()),
        Err(error) => Err(WlanError::Disconnect(error)),
    }
}

} // verus!
