//! The command surface of the engine: a session together with what the
//! poller remembers and the list of known networks.

use vstd::prelude::*;
use vstd::string::*;
use crate::callbacks::TryRecvError;
use crate::networking::profile_management::texts_of;
use crate::networking::{lemma_table_lookup, views_of, NetworkManager, NetworkView};
use crate::profile_management::{generate_network_profile_xml, profile_ops};
use crate::windows_api::wlan::{
    ClientHandle, ConnectionAttributes, ProfileInfo, WlanCall, WlanError,
};
use crate::windows_api::{
    before_nul, convert_u16_slice_to_string, has_interior_nul, utf16_lossy, utf16_units,
    wide_units, without_terminator,
};
use crate::wlan_enums::{
    ConnectionNotifcation, NetworkSecurity, NotificationState, WlanInterfaceState,
};
use crate::xml::document_text;

verus! {

/// The client version that the engine asks the wireless API for.
pub const CLIENT_VERSION: u32 = 2;

/// A visible network as the presentation layer gets it.
#[derive(Clone, Debug, PartialEq, Eq)]
pub struct WiFiNetwork {
    pub ssid: String,
    pub secured: bool,
    pub network_security: NetworkSecurity,
    pub bars: u32,
}

/// What the poller has to tell in words after a poll.
#[derive(Clone, Copy, Debug, PartialEq, Eq, Structural)]
pub enum PollReport {
    /// The queue's lock was held: nothing was looked at.
    Locked,
    /// The queue was empty, told once.
    ReceiverEmpty,
    /// The queue was disconnected, told once.
    ReceiverDisconnected,
}

/// What a poll gave: at most one event, and at most one thing to tell.
#[derive(Clone, Copy, Debug, PartialEq, Eq, Structural)]
pub struct PollOutcome {
    pub event: Option<ConnectionNotifcation>,
    pub report: Option<PollReport>,
}

/// A signal towards the presentation layer.
#[derive(Clone, Copy, Debug, PartialEq, Eq, Structural)]
pub enum Signal {
    ConnectionStart,
    ConnectionComplete,
    Disconnected,
}

/// The interface state that the poller holds after an event: a completed
/// connection and a disconnection set it, an unknown event makes it
/// unavailable, every other event leaves it.
pub open spec fn state_after_event(
    state: WlanInterfaceState,
    event: ConnectionNotifcation,
) -> WlanInterfaceState {
    match event {
        ConnectionNotifcation::ConnectionComplete => WlanInterfaceState::Connected,
        ConnectionNotifcation::Disconnected => WlanInterfaceState::Disconnected,
        ConnectionNotifcation::Unknown => WlanInterfaceState::Unavailable,
        _ => state,
    }
}

/// The signal that an event is passed on with: the start and the end of a
/// connection attempt and a disconnection have one, other events have
/// none.
pub open spec fn signal_of(event: ConnectionNotifcation) -> Option<Signal> {
    match event {
        ConnectionNotifcation::ConnectionStart => Some(Signal::ConnectionStart),
        ConnectionNotifcation::ConnectionComplete => Some(Signal::ConnectionComplete),
        ConnectionNotifcation::Disconnected => Some(Signal::Disconnected),
        _ => None,
    }
}

/// What the poller remembers of the queue after a poll that gave no event:
/// an empty queue met in state `Empty`, and a disconnected queue met in
/// state `Disconnected`, are told and the state becomes `StateKnown`; in
/// every other case nothing is told and the state stays.
pub open spec fn state_after_miss(state: NotificationState, miss: TryRecvError) -> (
    NotificationState,
    Option<PollReport>,
) {
    match miss {
        TryRecvError::Empty => if state is Empty {
            (NotificationState::StateKnown, Some(PollReport::ReceiverEmpty))
        } else {
            (state, None)
        },
        TryRecvError::Disconnected => if state is Disconnected {
            (NotificationState::StateKnown, Some(PollReport::ReceiverDisconnected))
        } else {
            (state, None)
        },
    }
}

/// The text that `str::trim` leaves of a text.
pub uninterp spec fn trimmed(text: Seq<char>) -> Seq<char>;

/// The lines that `str::lines` splits a text into.
pub uninterp spec fn lines_of(text: Seq<char>) -> Seq<Seq<char>>;

/// The known networks that a run of lines names: each line trimmed, empty
/// ones left out.
pub open spec fn known_from(lines: Seq<Seq<char>>) -> Seq<Seq<char>>
    decreases lines.len(),
{
    if lines.len() == 0 {
        Seq::empty()
    } else if trimmed(lines.last()).len() == 0 {
        known_from(lines.drop_last())
    } else {
        known_from(lines.drop_last()).push(trimmed(lines.last()))
    }
}

/// Calls `str::trim`, which takes the whitespace off both ends.
#[verifier::external_body]
pub(crate) fn str_trim(text: &str) -> (rest: &str)
    ensures
        rest@ == trimmed(text@),
{
    text.trim()
}

/// Calls `str::lines` and owns each line.
#[verifier::external_body]
pub(crate) fn str_lines(text: &str) -> (lines: Vec<String>)
    ensures
        texts_of(lines@) == lines_of(text@),
{
    text.lines().map(String::from).collect()
}

/// The command surface: the session, what the poller remembers, the
/// interface state as the notifications tell it, and the known networks.
pub struct WlanAPI {
    pub network_manager: NetworkManager,
    pub notif_state: NotificationState,
    pub interface_state: WlanInterfaceState,
    pub known_networks: Vec<String>,
}

/// The signal that an event is passed on with.
pub fn signal_for(event: ConnectionNotifcation) -> (signal: Option<Signal>)
    ensures
        signal == signal_of(event),
{
    match event {
        ConnectionNotifcation::ConnectionStart => Some(Signal::ConnectionStart),
        ConnectionNotifcation::ConnectionComplete => Some(Signal::ConnectionComplete),
        ConnectionNotifcation::Disconnected => Some(Signal::Disconnected),
        _ => None,
    }
}

impl WlanAPI {
    /// A surface with a closed session, no known networks, an unavailable
    /// interface and a poller that has seen nothing.
    pub fn init() -> (api: WlanAPI)
        ensures
            api.network_manager@ == NetworkManager::new_view(ClientHandle(0), CLIENT_VERSION),
            api.notif_state == NotificationState::Empty,
            api.interface_state == WlanInterfaceState::Unavailable,
            api.known_networks@.len() == 0,
    {
        WlanAPI {
            network_manager: NetworkManager::new(ClientHandle(0), CLIENT_VERSION),
            notif_state: NotificationState::Empty,
            interface_state: WlanInterfaceState::Unavailable,
            known_networks: Vec::new(),
        }
    }

    /// Takes what one poll of the notification queue gave: nothing where
    /// the queue's lock was held, else the event or the reason why there
    /// was none. An event is handed on and may change the interface state;
    /// a miss may be told, once.
    pub fn poll_connection_status(
        &mut self,
        polled: Option<Result<ConnectionNotifcation, TryRecvError>>,
    ) -> (outcome: PollOutcome)
        ensures
            final(self).network_manager == old(self).network_manager,
            final(self).known_networks == old(self).known_networks,
            match polled {
                None => outcome == (PollOutcome { event: None, report: Some(PollReport::Locked) })
                    && final(self).notif_state == old(self).notif_state && final(self).interface_state == old(self).interface_state,
                Some(Ok(event)) => outcome == (PollOutcome { event: Some(event), report: None })
                    && final(self).notif_state == old(self).notif_state && final(self).interface_state == state_after_event(old(self).interface_state, event),
                Some(Err(miss)) => outcome == (PollOutcome {
                    event: None,
                    report: state_after_miss(old(self).notif_state, miss).1,
                }) && final(self).notif_state == state_after_miss(old(self).notif_state, miss).0
                    && final(self).interface_state == old(self).interface_state,
            },
    {
        let received = match polled {
            Some(received) => received,
            None => {
                return PollOutcome { event: None, report: Some(PollReport::Locked) };
            },
        };
        match received {
            Ok(status_enum) => {
                match status_enum {
                    ConnectionNotifcation::ConnectionComplete => {
                        self.interface_state = WlanInterfaceState::Connected;
                    },
                    ConnectionNotifcation::Disconnected => {
                        self.interface_state = WlanInterfaceState::Disconnected;
                    },
                    ConnectionNotifcation::Unknown => {
                        self.interface_state = WlanInterfaceState::Unavailable;
                    },
                    _ => {},
                }
                PollOutcome { event: Some(status_enum), report: None }
            },
            Err(error) => {
                match error {
                    TryRecvError::Empty => {
                        if let NotificationState::Empty = self.notif_state {
                            self.notif_state = NotificationState::StateKnown;
                            return PollOutcome {
                                event: None,
                                report: Some(PollReport::ReceiverEmpty),
                            };
                        }
                        PollOutcome { event: None, report: None }
                    },
                    TryRecvError::Disconnected => {
                        if let NotificationState::Disconnected = self.notif_state {
                            self.notif_state = NotificationState::StateKnown;
                            return PollOutcome {
                                event: None,
                                report: Some(PollReport::ReceiverDisconnected),
                            };
                        }
                        PollOutcome { event: None, report: None }
                    },
                }
            },
        }
    }

    /// Whether `ssid` is one of the known networks.
    pub fn is_known_network(&self, ssid: &str) -> (known: bool)
        ensures
            known == texts_of(self.known_networks@).contains(ssid@),
    {
        let key = ssid.to_owned();
        let mut i: usize = 0;
        while i < self.known_networks.len()
            invariant
                i <= self.known_networks.len(),
                key@ == ssid@,
                forall|j: int| 0 <= j < i ==> texts_of(self.known_networks@)[j] != ssid@,
            decreases self.known_networks.len() - i,
        {
            assert(texts_of(self.known_networks@)[i as int] == self.known_networks@[i as int]@);
            if self.known_networks[i] == key {
                return true;
            }
            i += 1;
        }
        false
    }

    /// The line to write to a new list file for `ssid`: the SSID and a line
    /// feed. Nothing is to be written where the list file exists already or
    /// the network is known.
    pub fn add_network_to_known_networks(&self, ssid: &str, file_exists: bool) -> (line: Option<
        String,
    >)
        ensures
            line is Some <==> !file_exists && !texts_of(self.known_networks@).contains(ssid@),
            line is Some ==> line->0@ == ssid@.push('\n'),
    {
        if file_exists {
            return None;
        }
        if self.is_known_network(ssid) {
            return None;
        }
        let mut line = ssid.to_owned();
        proof {
            reveal_strlit("\n");
        }
        line.append("\n");
        assert(line@ =~= ssid@.push('\n'));
        Some(line)
    }

    /// Enters `ssid` at the end of the known networks, once its line is
    /// written.
    pub fn remember_network(&mut self, ssid: &str)
        ensures
            texts_of(final(self).known_networks@) == texts_of(old(self).known_networks@).push(
                ssid@,
            ),
            final(self).network_manager == old(self).network_manager,
            final(self).notif_state == old(self).notif_state,
            final(self).interface_state == old(self).interface_state,
    {
        self.known_networks.push(ssid.to_owned());
        assert(texts_of(self.known_networks@) =~= texts_of(old(self).known_networks@).push(ssid@));
    }

    /// Takes the contents of the list file and makes its lines the known
    /// networks: each line trimmed, empty lines left out.
    pub fn read_from_known_networks(&mut self, contents: &str)
        ensures
            texts_of(final(self).known_networks@) == known_from(lines_of(contents@)),
            final(self).network_manager == old(self).network_manager,
            final(self).notif_state == old(self).notif_state,
            final(self).interface_state == old(self).interface_state,
    {
        let lines = str_lines(contents);
        let mut known: Vec<String> = Vec::new();
        let mut i: usize = 0;
        assert(texts_of(known@) =~= known_from(texts_of(lines@).subrange(0, 0)));
        while i < lines.len()
            invariant
                i <= lines.len(),
                texts_of(known@) == known_from(texts_of(lines@).subrange(0, i as int)),
            decreases lines.len() - i,
        {
            let network = str_trim(lines[i].as_str());
            proof {
                assert(texts_of(lines@).subrange(0, i + 1).drop_last() =~= texts_of(
                    lines@,
                ).subrange(0, i as int));
                assert(texts_of(lines@)[i as int] == lines@[i as int]@);
            }
            if !network.is_empty() {
                let ghost before = known@;
                known.push(network.to_owned());
                assert(texts_of(known@) =~= texts_of(before).push(network@));
            }
            i += 1;
        }
        assert(texts_of(lines@).subrange(0, i as int) =~= texts_of(lines@));
        self.known_networks = known;
    }
}

/// What the presentation layer gets of a record.
pub open spec fn shown(record: NetworkView, network: WiFiNetwork) -> bool {
    network.ssid@ == record.ssid && network.secured == record.secured
        && network.network_security == record.network_security && network.bars == record.bars
}

impl WlanAPI {
    /// The profile document for the visible network `ssid`: rendered with
    /// the encryption and security kind that the table holds for it.
    pub open spec fn profile_document(&self, ssid: Seq<char>, password: Seq<char>) -> Seq<char>
        recommends
            self.network_manager@.networks.contains_key(ssid),
    {
        document_text(
            profile_ops(
                ssid,
                password,
                self.network_manager@.networks[ssid].encryption,
                self.network_manager@.networks[ssid].network_security,
            ),
        )
    }

    /// The call that stores a profile for the visible network `ssid` with
    /// the given passphrase. A network that the table does not hold gets no
    /// profile; for the others the call is that of the session for the
    /// rendered document.
    pub fn generate_profile(&self, ssid: &str, password: &str) -> (call: Result<
        WlanCall,
        WlanError,
    >)
        ensures
            !self.network_manager@.networks.contains_key(ssid@) ==> call == Err::<
                WlanCall,
                WlanError,
            >(WlanError::UnknownNetwork),
            self.network_manager@.networks.contains_key(ssid@)
                && self.network_manager@.interface_info is None ==> call == Err::<
                WlanCall,
                WlanError,
            >(WlanError::InterfaceUnresolved),
            self.network_manager@.networks.contains_key(ssid@)
                && self.network_manager@.interface_info is Some && has_interior_nul(
                utf16_units(self.profile_document(ssid@, password@)),
            ) ==> call == Err::<WlanCall, WlanError>(WlanError::MalformedData),
            self.network_manager@.networks.contains_key(ssid@)
                && self.network_manager@.interface_info is Some && !has_interior_nul(
                utf16_units(self.profile_document(ssid@, password@)),
            ) ==> (call matches Ok(
                WlanCall::SetProfile { handle, interface, flags, profile, overwrite },
            ) && handle == self.network_manager@.client_handle && interface
                == self.network_manager@.interface_info->0.guid && flags == 0 && overwrite
                && wide_units(profile) == without_terminator(
                utf16_units(self.profile_document(ssid@, password@)),
            )),
    {
        let network = match self.network_manager.get_network(ssid) {
            Some(network) => network,
            None => return Err(WlanError::UnknownNetwork),
        };
        let profile = generate_network_profile_xml(
            ssid,
            password,
            &network.get_encryption(),
            &network.get_security(),
        );
        self.network_manager.set_wlan_profile(&profile)
    }

    /// Whether one of the listed profiles bears the name `ssid`. A
    /// profile's name is what stands before the first nul of its name
    /// buffer, decoded with ill-formed units replaced.
    pub fn check_for_matching_profile(&self, ssid: &str, profiles: &Vec<ProfileInfo>) -> (found:
        bool)
        ensures
            found == exists|i: int|
                0 <= i < profiles@.len() && utf16_lossy(before_nul(#[trigger] profiles@[i].name@))
                    == ssid@,
    {
        let key = ssid.to_owned();
        let mut i: usize = 0;
        while i < profiles.len()
            invariant
                i <= profiles.len(),
                key@ == ssid@,
                forall|j: int|
                    0 <= j < i ==> utf16_lossy(before_nul(#[trigger] profiles@[j].name@)) != ssid@,
            decreases profiles.len() - i,
        {
            let rust_string = convert_u16_slice_to_string(profiles[i].name.as_slice());
            if rust_string == key {
                return true;
            }
            i += 1;
        }
        false
    }

    /// Takes what a query of the current connection gave and sets the
    /// interface state by it: connected where attributes came back,
    /// disconnected in every other case.
    pub fn check_for_active_connection(
        &mut self,
        queried: &Result<Option<ConnectionAttributes>, WlanError>,
    ) -> (connected: bool)
        ensures
            connected == (*queried matches Ok(Some(_))),
            final(self).interface_state == if connected {
                WlanInterfaceState::Connected
            } else {
                WlanInterfaceState::Disconnected
            },
            final(self).network_manager == old(self).network_manager,
            final(self).known_networks == old(self).known_networks,
            final(self).notif_state == old(self).notif_state,
    {
        match queried {
            Ok(Some(_)) => {
                self.interface_state = WlanInterfaceState::Connected;
                true
            },
            _ => {
                self.interface_state = WlanInterfaceState::Disconnected;
                false
            },
        }
    }

    /// The call that asks for the SSID of the connected network. Only an
    /// interface that counts as connected is asked; for every other state
    /// there is no SSID and no call.
    pub fn get_connected_ssid(&self) -> (call: Option<WlanCall>)
        ensures
            call == if self.interface_state is Connected {
                match self.network_manager@.query_call() {
                    Ok(call) => Some(call),
                    Err(_) => None,
                }
            } else {
                None
            },
    {
        match self.interface_state {
            WlanInterfaceState::Connected => {
                match self.network_manager.check_for_active_connection() {
                    Ok(call) => Some(call),
                    Err(_) => None,
                }
            },
            _ => None,
        }
    }

    /// The visible networks as the presentation layer gets them: one entry
    /// for each SSID of the table.
    pub fn get_networks(&self) -> (networks: Vec<WiFiNetwork>)
        ensures
            networks@.len() == self.network_manager@.networks.dom().len(),
            forall|i: int|
                0 <= i < networks@.len() ==> self.network_manager@.networks.contains_key(
                    (#[trigger] networks@[i]).ssid@,
                ) && shown(self.network_manager@.networks[networks@[i].ssid@], networks@[i]),
            forall|i: int, j: int|
                0 <= i < j < networks@.len() ==> (#[trigger] networks@[i]).ssid@ != (
                #[trigger] networks@[j]).ssid@,
    {
        let records = self.network_manager.get_networks();
        let mut networks: Vec<WiFiNetwork> = Vec::new();
        let mut i: usize = 0;
        proof {
            lemma_table_lookup(views_of(records@));
        }
        while i < records.len()
            invariant
                i <= records.len(),
                networks@.len() == i,
                forall|k: int|
                    0 <= k < i ==> shown(views_of(records@)[k], #[trigger] networks@[k]),
            decreases records.len() - i,
        {
            let network = &records[i];
            assert(views_of(records@)[i as int] == records@[i as int]@);
            let wifi_network = WiFiNetwork {
                ssid: network.get_ssid(),
                secured: network.get_secured(),
                network_security: network.get_security(),
                bars: network.get_bars(),
            };
            networks.push(wifi_network);
            i += 1;
        }
        proof {
            assert forall|k: int| 0 <= k < networks@.len() implies self.network_manager@.networks.contains_key(
                (#[trigger] networks@[k]).ssid@,
            ) && shown(self.network_manager@.networks[networks@[k].ssid@], networks@[k]) by {
                assert(shown(views_of(records@)[k], networks@[k]));
                assert(views_of(records@)[k].ssid == networks@[k].ssid@);
            }
            assert forall|a: int, b: int| 0 <= a < b < networks@.len() implies (
            #[trigger] networks@[a]).ssid@ != (#[trigger] networks@[b]).ssid@ by {
                assert(shown(views_of(records@)[a], networks@[a]));
                assert(shown(views_of(records@)[b], networks@[b]));
            }
        }
        networks
    }
}

} // verus!
