//! Connecting, disconnecting and the current connection.

use vstd::prelude::*;
use crate::networking::{ManagerView, NetworkManager};
use crate::windows_api::wlan::{
    ConnectionAttributes, ConnectionParameters, WlanCall, WlanError, DOT11_BSS_TYPE_INFRASTRUCTURE,
    WLAN_CONNECTION_MODE_PROFILE, WLAN_INTF_OPCODE_CURRENT_CONNECTION,
};
use crate::windows_api::{
    has_interior_nul, string_from_utf8_lossy, u16cstring_from_str, utf16_units, utf8_lossy,
    wide_units, without_terminator,
};

verus! {

impl ManagerView {
    /// The call that queries the current connection, or why none can be
    /// made.
    pub open spec fn query_call(self) -> Result<WlanCall, WlanError> {
        match self.interface_info {
            None => Err(WlanError::InterfaceUnresolved),
            Some(info) => Ok(
                WlanCall::QueryInterface {
                    handle: self.client_handle,
                    interface: info.guid,
                    opcode: WLAN_INTF_OPCODE_CURRENT_CONNECTION,
                },
            ),
        }
    }

    /// The call that disconnects, or why none can be made.
    pub open spec fn disconnect_call(self) -> Result<WlanCall, WlanError> {
        match self.interface_info {
            None => Err(WlanError::InterfaceUnresolved),
            Some(info) => Ok(
                WlanCall::Disconnect { handle: self.client_handle, interface: info.guid },
            ),
        }
    }

    /// The SSID of the network that the session is connected to, from what
    /// a query of the current connection gave. A session that is not open,
    /// or whose handle names none, has nothing to say. No connection is no
    /// error; attributes whose SSID length does not fit the buffer are
    /// malformed.
    pub open spec fn connected_ssid(
        self,
        queried: Result<Option<ConnectionAttributes>, WlanError>,
    ) -> Result<Option<Seq<char>>, WlanError> {
        if !self.is_handle_open || self.client_handle.invalid() {
            Err(WlanError::HandleNotOpen)
        } else {
            match queried {
                Err(error) => Err(error),
                Ok(None) => Ok(None),
                Ok(Some(attributes)) => if attributes.ssid.well_formed() {
                    Ok(Some(utf8_lossy(attributes.ssid.octets())))
                } else {
                    Err(WlanError::MalformedData)
                },
            }
        }
    }
}

impl NetworkManager {
    /// The call that queries the current connection of the selected
    /// interface.
    pub fn check_for_active_connection(&self) -> (call: Result<WlanCall, WlanError>)
        ensures
            call == self@.query_call(),
    {
        match self.get_interface_info() {
            None => Err(WlanError::InterfaceUnresolved),
            Some(info) => Ok(
                WlanCall::QueryInterface {
                    handle: self.get_client_handle(),
                    interface: info.guid,
                    opcode: WLAN_INTF_OPCODE_CURRENT_CONNECTION,
                },
            ),
        }
    }

    /// The SSID of the network that the session is connected to, from what
    /// a query of the current connection gave.
    pub fn get_connected_network(
        &self,
        queried: Result<Option<ConnectionAttributes>, WlanError>,
    ) -> (connected: Result<Option<String>, WlanError>)
        ensures
            match self@.connected_ssid(queried) {
                Err(error) => connected == Err::<Option<String>, WlanError>(error),
                Ok(None) => connected == Ok::<Option<String>, WlanError>(None),
                Ok(Some(ssid)) => connected matches Ok(Some(text)) && text@ == ssid,
            },
    {
        if !self.is_open() || self.get_client_handle().is_invalid() {
            return Err(WlanError::HandleNotOpen);
        }
        let conn_attribs = match queried {
            Err(error) => return Err(error),
            Ok(None) => return Ok(None),
            Ok(Some(attribs)) => attribs,
        };
        match conn_attribs.ssid.to_bytes() {
            None => Err(WlanError::MalformedData),
            Some(ssid_raw) => Ok(Some(string_from_utf8_lossy(ssid_raw.as_slice()))),
        }
    }

    /// The call that connects the selected interface by the stored profile
    /// named `ssid`, as an infrastructure network. That the call is
    /// accepted does not mean that the interface is connected: how the
    /// attempt ends is told by notification. A name with a nul anywhere but
    /// in the last place names no profile.
    pub fn connect_to_known_network(&self, ssid: &str) -> (call: Result<WlanCall, WlanError>)
        ensures
            has_interior_nul(utf16_units(ssid@)) ==> call == Err::<WlanCall, WlanError>(
                WlanError::MalformedData,
            ),
            !has_interior_nul(utf16_units(ssid@)) && self@.interface_info is None ==> call == Err::<
                WlanCall,
                WlanError,
            >(WlanError::InterfaceUnresolved),
            !has_interior_nul(utf16_units(ssid@)) && self@.interface_info is Some ==> (call matches Ok(
                WlanCall::Connect { handle, interface, parameters },
            ) && handle == self@.client_handle && interface == self@.interface_info->0.guid
                && parameters.connection_mode == WLAN_CONNECTION_MODE_PROFILE
                && parameters.bss_type == DOT11_BSS_TYPE_INFRASTRUCTURE && parameters.flags == 0
                && wide_units(parameters.profile) == without_terminator(utf16_units(ssid@))),
    {
        let profile_name = match u16cstring_from_str(ssid) {
            Some(profile_name) => profile_name,
            None => return Err(WlanError::MalformedData),
        };
        let conn_params = ConnectionParameters {
            connection_mode: WLAN_CONNECTION_MODE_PROFILE,
            profile: profile_name,
            bss_type: DOT11_BSS_TYPE_INFRASTRUCTURE,
            flags: 0,
        };
        match self.get_interface_info() {
            None => Err(WlanError::InterfaceUnresolved),
            Some(info) => Ok(
                WlanCall::Connect {
                    handle: self.get_client_handle(),
                    interface: info.guid,
                    parameters: conn_params,
                },
            ),
        }
    }

    /// The call that disconnects the selected interface.
    pub fn disconnect_from_network(&self) -> (call: Result<WlanCall, WlanError>)
        ensures
            call == self@.disconnect_call(),
    {
        match self.get_interface_info() {
            None => Err(WlanError::InterfaceUnresolved),
            Some(info) => Ok(
                WlanCall::Disconnect { handle: self.get_client_handle(), interface: info.guid },
            ),
        }
    }
}

} // verus!
