//! The wireless session: the native handle, the selected interface and the
//! table of visible networks.
//!
//! The session makes no call of the operating system. For each operation
//! one method says which call is due, and another takes what the call
//! reported and brings the session up to date.

pub mod connecting;
pub mod interface_management;
pub mod profile_management;
pub mod scanning;

use vstd::prelude::*;
use crate::callbacks::{WLAN_NOTIFICATION_SOURCE_ACM, WLAN_NOTIFICATION_SOURCE_MSM};
use crate::utils::{Win32Error, ERROR_SUCCESS};
use crate::windows_api::wlan::{ClientHandle, InterfaceInfo, WlanCall, WlanError};
use crate::wlan_enums::{EncryptionAlgorithm, NetworkSecurity};

verus! {

/// The sources that the session registers its callback for: the connection
/// manager and the media-specific module.
pub const NOTIFICATION_SOURCES: u32 = 24;

/// A visible network.
#[derive(Debug, PartialEq, Eq)]
pub struct Network {
    ssid: String,
    secured: bool,
    connected: bool,
    network_security: NetworkSecurity,
    encryption: EncryptionAlgorithm,
    bars: u32,
}

/// What a network record holds.
pub struct NetworkView {
    pub ssid: Seq<char>,
    pub secured: bool,
    pub connected: bool,
    pub network_security: NetworkSecurity,
    pub encryption: EncryptionAlgorithm,
    pub bars: u32,
}

impl View for Network {
    type V = NetworkView;

    closed spec fn view(&self) -> NetworkView {
        NetworkView {
            ssid: self.ssid@,
            secured: self.secured,
            connected: self.connected,
            network_security: self.network_security,
            encryption: self.encryption,
            bars: self.bars,
        }
    }
}

impl Clone for Network {
    fn clone(&self) -> (copy: Network)
        ensures
            copy@ == self@,
    {
        self.duplicate()
    }
}

impl Network {
    /// A record with the given fields.
    pub fn new(
        ssid: String,
        secured: bool,
        connected: bool,
        network_security: NetworkSecurity,
        encryption: EncryptionAlgorithm,
        bars: u32,
    ) -> (network: Network)
        ensures
            network@ == (NetworkView {
                ssid: ssid@,
                secured,
                connected,
                network_security,
                encryption,
                bars,
            }),
    {
        Network { ssid, secured, connected, network_security, encryption, bars }
    }

    /// A record with the same fields.
    pub fn duplicate(&self) -> (copy: Network)
        ensures
            copy@ == self@,
    {
        Network {
            ssid: self.ssid.clone(),
            secured: self.secured,
            connected: self.connected,
            network_security: self.network_security,
            encryption: self.encryption,
            bars: self.bars,
        }
    }

    /// The network's name.
    pub fn get_ssid(&self) -> (ssid: String)
        ensures
            ssid@ == self@.ssid,
    {
        self.ssid.clone()
    }

    /// The network's security kind.
    pub fn get_security(&self) -> (security: NetworkSecurity)
        ensures
            security == self@.network_security,
    {
        self.network_security
    }

    /// The network's encryption kind.
    pub fn get_encryption(&self) -> (encryption: EncryptionAlgorithm)
        ensures
            encryption == self@.encryption,
    {
        self.encryption
    }

    /// The network's signal strength in bars.
    pub fn get_bars(&self) -> (bars: u32)
        ensures
            bars == self@.bars,
    {
        self.bars
    }

    /// Whether the network bears this name.
    pub fn has_ssid(&self, ssid: &String) -> (same: bool)
        ensures
            same == (self@.ssid == ssid@),
    {
        self.ssid == *ssid
    }

    /// Whether the network is secured.
    pub fn get_secured(&self) -> (secured: bool)
        ensures
            secured == self@.secured,
    {
        self.secured
    }
}

/// The table that a run of records makes when each is entered under its
/// SSID, a later record taking the place of an earlier one with the same
/// SSID.
pub open spec fn table_map(records: Seq<NetworkView>) -> Map<Seq<char>, NetworkView>
    decreases records.len(),
{
    if records.len() == 0 {
        Map::empty()
    } else {
        table_map(records.drop_last()).insert(records.last().ssid, records.last())
    }
}

/// Whether no two records share an SSID.
pub open spec fn distinct_ssids(records: Seq<NetworkView>) -> bool {
    forall|i: int, j: int|
        0 <= i < j < records.len() ==> (#[trigger] records[i]).ssid != (#[trigger] records[j]).ssid
}

/// The records of a run of networks.
pub open spec fn views_of(networks: Seq<Network>) -> Seq<NetworkView> {
    networks.map_values(|network: Network| network@)
}

/// Entering one more record puts it into the table under its SSID.
pub proof fn lemma_table_push(records: Seq<NetworkView>, record: NetworkView)
    ensures
        table_map(records.push(record)) == table_map(records).insert(record.ssid, record),
{
    assert(records.push(record).drop_last() =~= records);
}

/// Where no two records share an SSID, the table holds exactly their SSIDs,
/// each with its record.
pub proof fn lemma_table_lookup(records: Seq<NetworkView>)
    requires
        distinct_ssids(records),
    ensures
        forall|i: int|
            0 <= i < records.len() ==> table_map(records).contains_key(
                (#[trigger] records[i]).ssid,
            ) && table_map(records)[records[i].ssid] == records[i],
        forall|ssid: Seq<char>| #[trigger]
            table_map(records).contains_key(ssid) ==> exists|i: int|
                0 <= i < records.len() && (#[trigger] records[i]).ssid == ssid,
    decreases records.len(),
{
    if records.len() > 0 {
        let front = records.drop_last();
        let last = records.last();
        assert(distinct_ssids(front)) by {
            assert forall|i: int, j: int| 0 <= i < j < front.len() implies (#[trigger] front[i]).ssid
                != (#[trigger] front[j]).ssid by {
                assert(front[i] == records[i] && front[j] == records[j]);
            }
        }
        lemma_table_lookup(front);
        assert forall|i: int| 0 <= i < records.len() implies table_map(records).contains_key(
            (#[trigger] records[i]).ssid,
        ) && table_map(records)[records[i].ssid] == records[i] by {
            if i < records.len() - 1 {
                assert(front[i] == records[i]);
                assert(records[i].ssid != records[records.len() - 1].ssid);
            }
        }
        assert forall|ssid: Seq<char>| #[trigger]
            table_map(records).contains_key(ssid) implies exists|i: int|
            0 <= i < records.len() && (#[trigger] records[i]).ssid == ssid by {
            if ssid == last.ssid {
                assert(records[records.len() - 1].ssid == ssid);
            } else {
                assert(table_map(front).contains_key(ssid));
                let i = choose|i: int| 0 <= i < front.len() && (#[trigger] front[i]).ssid == ssid;
                assert(records[i].ssid == ssid);
            }
        }
    }
}

/// Putting a record in the place of one with the same SSID enters it into
/// the table and keeps the SSIDs apart.
pub proof fn lemma_table_update(records: Seq<NetworkView>, at: int, record: NetworkView)
    requires
        distinct_ssids(records),
        0 <= at < records.len(),
        records[at].ssid == record.ssid,
    ensures
        distinct_ssids(records.update(at, record)),
        table_map(records.update(at, record)) == table_map(records).insert(record.ssid, record),
    decreases records.len(),
{
    let updated = records.update(at, record);
    assert(distinct_ssids(updated)) by {
        assert forall|i: int, j: int| 0 <= i < j < updated.len() implies (#[trigger] updated[i]).ssid
            != (#[trigger] updated[j]).ssid by {
            assert(updated[i].ssid == records[i].ssid);
            assert(updated[j].ssid == records[j].ssid);
        }
    }
    let front = records.drop_last();
    let last = records.last();
    if at == records.len() - 1 {
        assert(updated.drop_last() =~= front);
        assert(table_map(updated) =~= table_map(records).insert(record.ssid, record));
    } else {
        assert(distinct_ssids(front)) by {
            assert forall|i: int, j: int| 0 <= i < j < front.len() implies (#[trigger] front[i]).ssid
                != (#[trigger] front[j]).ssid by {
                assert(front[i] == records[i] && front[j] == records[j]);
            }
        }
        assert(front[at] == records[at]);
        lemma_table_update(front, at, record);
        assert(updated.drop_last() =~= front.update(at, record));
        assert(updated.last() == last);
        assert(records[at].ssid != records[records.len() - 1].ssid);
        assert(table_map(updated) =~= table_map(records).insert(record.ssid, record));
    }
}

/// Where no two records share an SSID, the table has as many entries as
/// there are records.
pub proof fn lemma_table_size(records: Seq<NetworkView>)
    requires
        distinct_ssids(records),
    ensures
        table_map(records).dom().finite(),
        table_map(records).dom().len() == records.len(),
    decreases records.len(),
{
    if records.len() > 0 {
        let front = records.drop_last();
        assert(distinct_ssids(front)) by {
            assert forall|i: int, j: int| 0 <= i < j < front.len() implies (#[trigger] front[i]).ssid
                != (#[trigger] front[j]).ssid by {
                assert(front[i] == records[i] && front[j] == records[j]);
            }
        }
        lemma_table_size(front);
        lemma_table_lookup(front);
        assert(!table_map(front).contains_key(records.last().ssid)) by {
            if table_map(front).contains_key(records.last().ssid) {
                let i = choose|i: int|
                    0 <= i < front.len() && (#[trigger] front[i]).ssid == records.last().ssid;
                assert(front[i] == records[i]);
                assert(records[i].ssid != records[records.len() - 1].ssid);
            }
        }
        assert(table_map(records).dom() =~= table_map(front).dom().insert(records.last().ssid));
    } else {
        assert(table_map(records).dom() =~= Set::<Seq<char>>::empty());
    }
}

/// Adding a record whose SSID is new keeps the SSIDs apart.
pub proof fn lemma_distinct_push(records: Seq<NetworkView>, record: NetworkView)
    requires
        distinct_ssids(records),
        forall|i: int| 0 <= i < records.len() ==> (#[trigger] records[i]).ssid != record.ssid,
    ensures
        distinct_ssids(records.push(record)),
{
    let pushed = records.push(record);
    assert forall|i: int, j: int| 0 <= i < j < pushed.len() implies (#[trigger] pushed[i]).ssid != (
    #[trigger] pushed[j]).ssid by {
        if j < records.len() {
            assert(pushed[i] == records[i] && pushed[j] == records[j]);
        } else {
            assert(pushed[i] == records[i]);
        }
    }
}

/// The records of a run with one more network are the records of the run
/// with one more record.
pub proof fn lemma_views_push(networks: Seq<Network>, network: Network)
    ensures
        views_of(networks.push(network)) == views_of(networks).push(network@),
{
    assert(views_of(networks.push(network)) =~= views_of(networks).push(network@));
}

/// The records of a run with one network replaced are the records of the
/// run with that record replaced.
pub proof fn lemma_views_update(networks: Seq<Network>, at: int, network: Network)
    requires
        0 <= at < networks.len(),
    ensures
        views_of(networks.update(at, network)) == views_of(networks).update(at, network@),
{
    assert(views_of(networks.update(at, network)) =~= views_of(networks).update(at, network@));
}

/// The place of the record with this SSID in a table, if there is one.
pub(crate) fn find_ssid(table: &Vec<Network>, ssid: &String) -> (place: Option<usize>)
    ensures
        place matches Some(at) ==> at < table@.len() && views_of(table@)[at as int].ssid == ssid@,
        place is None ==> forall|j: int|
            0 <= j < table@.len() ==> (#[trigger] views_of(table@)[j]).ssid != ssid@,
{
    let mut i: usize = 0;
    while i < table.len()
        invariant
            i <= table.len(),
            forall|j: int| 0 <= j < i ==> (#[trigger] views_of(table@)[j]).ssid != ssid@,
        decreases table.len() - i,
    {
        assert(views_of(table@)[i as int] == table@[i as int]@);
        if table[i].has_ssid(ssid) {
            return Some(i);
        }
        i += 1;
    }
    None
}

/// The session of one client of the wireless API.
pub struct NetworkManager {
    networks: Vec<Network>,
    interface_info: Option<InterfaceInfo>,
    client_handle: ClientHandle,
    is_handle_open: bool,
    client_version: u32,
    negotiated_client_version: u32,
}

/// What a session holds.
pub struct ManagerView {
    /// The visible networks, by SSID.
    pub networks: Map<Seq<char>, NetworkView>,
    /// The selected interface, if one was selected.
    pub interface_info: Option<InterfaceInfo>,
    /// The native handle; it names a handle only while the session is open.
    pub client_handle: ClientHandle,
    /// Whether the session counts as open.
    pub is_handle_open: bool,
    /// The client version that the session asks for.
    pub client_version: u32,
    /// The client version that the operating system granted.
    pub negotiated_client_version: u32,
}

impl ManagerView {
    /// The call that closing the session needs: none where it is not open.
    pub open spec fn close_call(self) -> Option<WlanCall> {
        if self.is_handle_open {
            Some(WlanCall::CloseHandle { handle: self.client_handle })
        } else {
            None
        }
    }

    /// The session after a release of the handle reported `status`: closed
    /// where the release succeeded, unchanged where it failed.
    pub open spec fn after_close(self, status: u32) -> ManagerView {
        if status == ERROR_SUCCESS {
            ManagerView { is_handle_open: false, ..self }
        } else {
            self
        }
    }

    /// The call that opening the session needs: none where it is open.
    pub open spec fn open_call(self) -> Option<WlanCall> {
        if self.is_handle_open {
            None
        } else {
            Some(WlanCall::OpenHandle { client_version: self.client_version })
        }
    }

    /// The session after an acquisition of the handle reported `status`. It
    /// counts as open either way; handle and granted version are taken over
    /// where the acquisition succeeded.
    pub open spec fn after_open(
        self,
        status: u32,
        negotiated_version: u32,
        handle: ClientHandle,
    ) -> ManagerView {
        if status == ERROR_SUCCESS {
            ManagerView {
                is_handle_open: true,
                client_handle: handle,
                negotiated_client_version: negotiated_version,
                ..self
            }
        } else {
            ManagerView { is_handle_open: true, ..self }
        }
    }
}

impl View for NetworkManager {
    type V = ManagerView;

    closed spec fn view(&self) -> ManagerView {
        ManagerView {
            networks: table_map(views_of(self.networks@)),
            interface_info: self.interface_info,
            client_handle: self.client_handle,
            is_handle_open: self.is_handle_open,
            client_version: self.client_version,
            negotiated_client_version: self.negotiated_client_version,
        }
    }
}

impl NetworkManager {
    #[verifier::type_invariant]
    spec fn well_formed(self) -> bool {
        distinct_ssids(views_of(self.networks@))
    }

    /// What a new session holds: it is closed, has no networks and no
    /// interface, and no version has been granted.
    pub open spec fn new_view(client_handle: ClientHandle, client_version: u32) -> ManagerView {
        ManagerView {
            networks: Map::empty(),
            interface_info: None,
            client_handle,
            is_handle_open: false,
            client_version,
            negotiated_client_version: 0,
        }
    }

    /// A closed session without networks and without an interface.
    pub fn new(client_handle: ClientHandle, client_version: u32) -> (manager: NetworkManager)
        ensures
            manager@ == NetworkManager::new_view(client_handle, client_version),
    {
        let manager = NetworkManager {
            networks: Vec::new(),
            interface_info: None,
            client_handle,
            is_handle_open: false,
            client_version,
            negotiated_client_version: 0,
        };
        assert(views_of(manager.networks@) =~= Seq::empty());
        manager
    }

    /// The call that opens the session, or none where it is open already.
    pub fn open_handle(&self) -> (call: Option<WlanCall>)
        ensures
            call == self@.open_call(),
    {
        if self.is_handle_open {
            None
        } else {
            Some(WlanCall::OpenHandle { client_version: self.client_version })
        }
    }

    /// Takes what acquiring the handle reported. The session counts as open
    /// from here on, whatever was reported. After a success the handle and
    /// the granted version are stored and the callback is to be registered;
    /// a failure is handed back with its status code.
    pub fn handle_opened(
        &mut self,
        status: u32,
        negotiated_version: u32,
        handle: ClientHandle,
    ) -> (next: Result<WlanCall, WlanError>)
        ensures
            final(self)@ == old(self)@.after_open(status, negotiated_version, handle),
            status == ERROR_SUCCESS ==> next == Ok::<WlanCall, WlanError>(
                WlanCall::RegisterNotification {
                    handle,
                    sources: NOTIFICATION_SOURCES,
                    ignore_duplicates: false,
                },
            ),
            status != ERROR_SUCCESS ==> next == Err::<WlanCall, WlanError>(
                WlanError::HandleOpen(Win32Error(status)),
            ),
    {
        proof {
            use_type_invariant(&*self);
        }
        self.is_handle_open = true;
        if status == ERROR_SUCCESS {
            self.client_handle = handle;
            self.negotiated_client_version = negotiated_version;
            Ok(self.register_wlan_notification())
        } else {
            Err(WlanError::HandleOpen(Win32Error(status)))
        }
    }

    /// The call that registers the notification callback: for the
    /// connection manager and the media-specific module, duplicates
    /// included.
    pub fn register_wlan_notification(&self) -> (call: WlanCall)
        ensures
            call == (WlanCall::RegisterNotification {
                handle: self@.client_handle,
                sources: NOTIFICATION_SOURCES,
                ignore_duplicates: false,
            }),
    {
        assert(WLAN_NOTIFICATION_SOURCE_ACM | WLAN_NOTIFICATION_SOURCE_MSM == NOTIFICATION_SOURCES)
            by (bit_vector);
        WlanCall::RegisterNotification {
            handle: self.client_handle,
            sources: WLAN_NOTIFICATION_SOURCE_ACM | WLAN_NOTIFICATION_SOURCE_MSM,
            ignore_duplicates: false,
        }
    }

    /// The call that closes the session, or none where it is not open:
    /// closing a closed session is done without a call.
    pub fn close_handle(&self) -> (call: Option<WlanCall>)
        ensures
            call == self@.close_call(),
    {
        if self.is_handle_open {
            Some(WlanCall::CloseHandle { handle: self.client_handle })
        } else {
            None
        }
    }

    /// Takes what releasing the handle reported: after a success the
    /// session is closed, after a failure it stays as it is and the failure
    /// is handed back with its status code.
    pub fn handle_closed(&mut self, status: u32) -> (result: Result<(), WlanError>)
        ensures
            final(self)@ == old(self)@.after_close(status),
            result == if status == ERROR_SUCCESS {
                Ok::<(), WlanError>(())
            } else {
                Err::<(), WlanError>(WlanError::HandleClose(Win32Error(status)))
            },
    {
        proof {
            use_type_invariant(&*self);
        }
        if status == ERROR_SUCCESS {
            self.is_handle_open = false;
            Ok(())
        } else {
            Err(WlanError::HandleClose(Win32Error(status)))
        }
    }

    /// Puts a table in the place of the session's own.
    pub(crate) fn set_networks(&mut self, table: Vec<Network>)
        requires
            distinct_ssids(views_of(table@)),
        ensures
            final(self)@ == (ManagerView {
                networks: table_map(views_of(table@)),
                ..old(self)@
            }),
    {
        self.networks = table;
    }

    /// A copy of the table of visible networks: one record for each SSID,
    /// in no particular order.
    pub fn get_networks(&self) -> (networks: Vec<Network>)
        ensures
            distinct_ssids(views_of(networks@)),
            table_map(views_of(networks@)) == self@.networks,
            networks@.len() == self@.networks.dom().len(),
    {
        proof {
            use_type_invariant(self);
        }
        let mut networks: Vec<Network> = Vec::new();
        let mut i: usize = 0;
        while i < self.networks.len()
            invariant
                i <= self.networks.len(),
                networks@.len() == i,
                views_of(networks@) == views_of(self.networks@).subrange(0, i as int),
            decreases self.networks.len() - i,
        {
            let copy = self.networks[i].duplicate();
            let ghost before = networks@;
            networks.push(copy);
            proof {
                let target = views_of(self.networks@).subrange(0, i + 1);
                assert forall|k: int| 0 <= k < networks@.len() implies views_of(networks@)[k]
                    == target[k] by {
                    if k < i {
                        assert(networks@[k] == before[k]);
                        assert(views_of(before)[k] == views_of(self.networks@).subrange(
                            0,
                            i as int,
                        )[k]);
                    }
                }
                assert(views_of(networks@) =~= target);
            }
            i += 1;
        }
        proof {
            assert(views_of(self.networks@).subrange(0, i as int) =~= views_of(self.networks@));
            lemma_table_size(views_of(networks@));
        }
        networks
    }

    /// The record of the network with this SSID, if the table holds one.
    pub fn get_network(&self, ssid: &str) -> (network: Option<&Network>)
        ensures
            network is Some <==> self@.networks.contains_key(ssid@),
            network is Some ==> network->0@ == self@.networks[ssid@],
    {
        proof {
            use_type_invariant(self);
        }
        let key = ssid.to_owned();
        proof {
            lemma_table_lookup(views_of(self.networks@));
        }
        match find_ssid(&self.networks, &key) {
            Some(at) => {
                assert(views_of(self.networks@)[at as int] == self.networks@[at as int]@);
                Some(&self.networks[at])
            },
            None => None,
        }
    }

    /// The native handle.
    pub fn get_client_handle(&self) -> (handle: ClientHandle)
        ensures
            handle == self@.client_handle,
    {
        self.client_handle
    }

    /// The selected interface, if one was selected.
    pub fn get_interface_info(&self) -> (interface: Option<&InterfaceInfo>)
        ensures
            interface == match self@.interface_info {
                Some(info) => Some(&info),
                None => None,
            },
    {
        self.interface_info.as_ref()
    }

    /// Whether the session counts as open.
    pub fn is_open(&self) -> (open: bool)
        ensures
            open == self@.is_handle_open,
    {
        self.is_handle_open
    }
}

/// Closing twice: once a close has succeeded the session is closed, a
/// second close needs no call, and taking a further success leaves the
/// session as the first close left it.
pub proof fn lemma_close_is_idempotent(session: ManagerView)
    ensures
        !session.after_close(ERROR_SUCCESS).is_handle_open,
        session.after_close(ERROR_SUCCESS).close_call() is None,
        session.after_close(ERROR_SUCCESS).after_close(ERROR_SUCCESS) == session.after_close(
            ERROR_SUCCESS,
        ),
        !session.is_handle_open ==> session.close_call() is None,
{
}

} // verus!
