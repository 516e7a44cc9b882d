//! Stored profiles: installing them, listing them, and finding the one that
//! connects on its own.

use vstd::prelude::*;
use widestring::U16CString;
use crate::networking::NetworkManager;
use crate::windows_api::wlan::{InterfaceInfo, ProfileInfo, WlanCall, WlanError};
use crate::windows_api::{
    before_nul, convert_string_to_u16cstring, convert_u16_slice_to_u16cstring, has_interior_nul,
    u16cstring_to_string, utf16_strict, utf16_units, wide_units, without_terminator,
};

verus! {

/// Whether `needle` stands in `haystack` as one unbroken run.
pub open spec fn contains_text(haystack: Seq<char>, needle: Seq<char>) -> bool {
    exists|at: int|
        0 <= at && at + needle.len() <= haystack.len() && #[trigger] haystack.subrange(
            at,
            at + needle.len(),
        ) == needle
}

/// Whether a profile document says that the profile connects on its own:
/// whether it holds the connection-mode element with the value `auto`.
pub open spec fn is_auto_connect(body: Seq<char>) -> bool {
    contains_text(body, "<connectionMode>auto</connectionMode"@)
}

/// Calls `str::contains` with a string pattern, which tells whether the
/// pattern occurs in the text.
#[verifier::external_body]
pub(crate) fn str_contains(haystack: &str, needle: &str) -> (found: bool)
    ensures
        found == contains_text(haystack@, needle@),
{
    haystack.contains(needle)
}

/// Where the search for the profile that connects on its own stands.
#[derive(Debug, PartialEq, Eq)]
pub enum ProfileSearch {
    /// The document of the profile at the searched position is to be read
    /// with this call.
    Fetch(WlanCall),
    /// The profile with this name connects on its own.
    Found(String, bool),
    /// The profile that was looked at does not: the search goes on at the
    /// next position.
    Continue,
    /// The search has ended without a find.
    NotFound,
}

/// The place of the first document that says that its profile connects on
/// its own, at or after `from`.
pub open spec fn first_auto_connect(bodies: Seq<Seq<char>>, from: int) -> Option<int>
    decreases bodies.len() - from,
{
    if from < 0 || from >= bodies.len() {
        None
    } else if is_auto_connect(bodies[from]) {
        Some(from)
    } else {
        first_auto_connect(bodies, from + 1)
    }
}

/// The first find is a find, and nothing before it is one; there is no find
/// exactly when no document is one.
pub proof fn lemma_first_auto_connect(bodies: Seq<Seq<char>>, from: int)
    requires
        0 <= from <= bodies.len(),
    ensures
        first_auto_connect(bodies, from) matches Some(at) ==> from <= at < bodies.len()
            && is_auto_connect(bodies[at]) && forall|before: int|
            from <= before < at ==> !is_auto_connect(#[trigger] bodies[before]),
        first_auto_connect(bodies, from) is None <==> forall|at: int|
            from <= at < bodies.len() ==> !is_auto_connect(#[trigger] bodies[at]),
    decreases bodies.len() - from,
{
    if from < bodies.len() && !is_auto_connect(bodies[from]) {
        lemma_first_auto_connect(bodies, from + 1);
    }
}

/// The texts of a run of strings.
pub open spec fn texts_of(strings: Seq<String>) -> Seq<Seq<char>> {
    strings.map_values(|s: String| s@)
}

/// Finds the first of a run of profile documents that says that its
/// profile connects on its own.
pub fn find_auto_connect_profile(bodies: &Vec<String>) -> (place: Option<usize>)
    ensures
        place is Some <==> first_auto_connect(texts_of(bodies@), 0) is Some,
        place is Some ==> place->0 as int == first_auto_connect(texts_of(bodies@), 0)->0,
{
    let mut i: usize = 0;
    while i < bodies.len()
        invariant
            i <= bodies.len(),
            first_auto_connect(texts_of(bodies@), 0) == first_auto_connect(
                texts_of(bodies@),
                i as int,
            ),
        decreases bodies.len() - i,
    {
        assert(texts_of(bodies@)[i as int] == bodies@[i as int]@);
        if str_contains(bodies[i].as_str(), "<connectionMode>auto</connectionMode") {
            return Some(i);
        }
        i += 1;
    }
    None
}

impl NetworkManager {
    /// The next step of the search for the profile that connects on its
    /// own, at `position` of the profile list: the call that reads the
    /// document of the profile there, under the name that stands before the
    /// first nul of its name buffer. The search has ended where the
    /// position lies behind the list, and where no interface is selected.
    pub fn check_for_windows_profiles(&self, profiles: &Vec<ProfileInfo>, position: usize) -> (step:
        ProfileSearch)
        ensures
            self@.interface_info is None || position >= profiles@.len() ==> step is NotFound,
            self@.interface_info is Some && position < profiles@.len() ==> (step matches ProfileSearch::Fetch(
                WlanCall::GetProfile { handle, interface, name },
            ) && handle == self@.client_handle && interface == self@.interface_info->0.guid
                && wide_units(name) == before_nul(profiles@[position as int].name@)),
    {
        let info = match self.get_interface_info() {
            Some(info) => info,
            None => return ProfileSearch::NotFound,
        };
        if position >= profiles.len() {
            return ProfileSearch::NotFound;
        }
        match convert_u16_slice_to_u16cstring(profiles[position].name.as_slice()) {
            Some(name) => ProfileSearch::Fetch(
                WlanCall::GetProfile {
                    handle: self.get_client_handle(),
                    interface: info.guid,
                    name,
                },
            ),
            None => ProfileSearch::NotFound,
        }
    }

    /// Looks at the document that was read for the profile `name`. A
    /// document with the marker of automatic connection is a find, under
    /// the profile's name as text; one without it sends the search on. A
    /// failed read ends the search, and so does a document or a found name
    /// that is not well-formed UTF-16.
    pub fn inspect_profile(&self, name: &U16CString, fetched: Result<U16CString, WlanError>) -> (step:
        ProfileSearch)
        ensures
            !(step is Fetch),
            match fetched {
                Err(_) => step is NotFound,
                Ok(body) => match utf16_strict(wide_units(body)) {
                    None => step is NotFound,
                    Some(text) => if is_auto_connect(text) {
                        match utf16_strict(wide_units(*name)) {
                            None => step is NotFound,
                            Some(name_text) => step matches ProfileSearch::Found(found, auto)
                                && found@ == name_text && auto,
                        }
                    } else {
                        step is Continue
                    },
                },
            },
    {
        let body = match fetched {
            Ok(body) => body,
            Err(_) => return ProfileSearch::NotFound,
        };
        let retrieved_profile = match u16cstring_to_string(&body) {
            Some(text) => text,
            None => return ProfileSearch::NotFound,
        };
        let check = str_contains(
            retrieved_profile.as_str(),
            "<connectionMode>auto</connectionMode",
        );
        if check {
            match u16cstring_to_string(name) {
                Some(found) => ProfileSearch::Found(found, check),
                None => ProfileSearch::NotFound,
            }
        } else {
            ProfileSearch::Continue
        }
    }

    /// The call that stores a profile document on the selected interface,
    /// in the place of a profile of the same name if there is one. A
    /// document with a nul anywhere but in the last place cannot be handed
    /// over.
    pub fn set_wlan_profile(&self, profile: &String) -> (call: Result<WlanCall, WlanError>)
        ensures
            self@.interface_info is None ==> call == Err::<WlanCall, WlanError>(
                WlanError::InterfaceUnresolved,
            ),
            self@.interface_info is Some && has_interior_nul(utf16_units(profile@)) ==> call
                == Err::<WlanCall, WlanError>(WlanError::MalformedData),
            self@.interface_info is Some && !has_interior_nul(utf16_units(profile@)) ==> (call matches Ok(
                WlanCall::SetProfile { handle, interface, flags, profile: document, overwrite },
            ) && handle == self@.client_handle && interface == self@.interface_info->0.guid && flags
                == 0 && overwrite && wide_units(document) == without_terminator(
                utf16_units(profile@),
            )),
    {
        let info = match self.get_interface_info() {
            Some(info) => info,
            None => return Err(WlanError::InterfaceUnresolved),
        };
        match convert_string_to_u16cstring(profile) {
            Some(profile_u16) => Ok(
                WlanCall::SetProfile {
                    handle: self.get_client_handle(),
                    interface: info.guid,
                    flags: 0,
                    profile: profile_u16,
                    overwrite: true,
                },
            ),
            None => Err(WlanError::MalformedData),
        }
    }

    /// The call that retrieves the profile list of an interface.
    pub fn get_profile_list(&self, ifo: &InterfaceInfo) -> (call: WlanCall)
        ensures
            call == (WlanCall::GetProfileList { handle: self@.client_handle, interface: ifo.guid }),
    {
        WlanCall::GetProfileList { handle: self.get_client_handle(), interface: ifo.guid }
    }

    /// The call that reads the document of the profile named `name` from
    /// the selected interface. A name with a nul anywhere but in the last
    /// place names no profile.
    pub fn get_profile(&self, name: &String) -> (call: Result<WlanCall, WlanError>)
        ensures
            self@.interface_info is None ==> call == Err::<WlanCall, WlanError>(
                WlanError::InterfaceUnresolved,
            ),
            self@.interface_info is Some && has_interior_nul(utf16_units(name@)) ==> call == Err::<
                WlanCall,
                WlanError,
            >(WlanError::MalformedData),
            self@.interface_info is Some && !has_interior_nul(utf16_units(name@)) ==> (call matches Ok(
                WlanCall::GetProfile { handle, interface, name: wide },
            ) && handle == self@.client_handle && interface == self@.interface_info->0.guid
                && wide_units(wide) == without_terminator(utf16_units(name@))),
    {
        let info = match self.get_interface_info() {
            Some(info) => info,
            None => return Err(WlanError::InterfaceUnresolved),
        };
        match convert_string_to_u16cstring(name) {
            Some(wide) => Ok(
                WlanCall::GetProfile {
                    handle: self.get_client_handle(),
                    interface: info.guid,
                    name: wide,
                },
            ),
            None => Err(WlanError::MalformedData),
        }
    }

    /// The call that deletes the profile named `ssid` from the selected
    /// interface. A name with a nul anywhere but in the last place names no
    /// profile.
    pub fn delete_profile(&self, ssid: &String) -> (call: Result<WlanCall, WlanError>)
        ensures
            self@.interface_info is None ==> call == Err::<WlanCall, WlanError>(
                WlanError::InterfaceUnresolved,
            ),
            self@.interface_info is Some && has_interior_nul(utf16_units(ssid@)) ==> call == Err::<
                WlanCall,
                WlanError,
            >(WlanError::MalformedData),
            self@.interface_info is Some && !has_interior_nul(utf16_units(ssid@)) ==> (call matches Ok(
                WlanCall::DeleteProfile { handle, interface, name },
            ) && handle == self@.client_handle && interface == self@.interface_info->0.guid
                && wide_units(name) == without_terminator(utf16_units(ssid@))),
    {
        let info = match self.get_interface_info() {
            Some(info) => info,
            None => return Err(WlanError::InterfaceUnresolved),
        };
        match convert_string_to_u16cstring(ssid) {
            Some(name) => Ok(
                WlanCall::DeleteProfile {
                    handle: self.get_client_handle(),
                    interface: info.guid,
                    name,
                },
            ),
            None => Err(WlanError::MalformedData),
        }
    }
}

} // verus!
