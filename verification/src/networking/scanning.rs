//! Scanning, and the table of visible networks.

use vstd::prelude::*;
use crate::networking::{
    distinct_ssids, find_ssid, lemma_distinct_push, lemma_table_push, lemma_table_update,
    lemma_views_push, lemma_views_update, table_map, views_of, ManagerView, Network,
    NetworkManager, NetworkView,
};
use crate::utils::{check_signal_strength, signal_bars};
use crate::windows_api::wlan::{AvailableNetwork, WlanCall, WlanError};
use crate::windows_api::{string_from_utf8_lossy, utf8_lossy};
use crate::wlan_enums::{check_encryption, check_security, encryption_of, security_of};

verus! {

/// The record that a list entry makes when the first `ssid_length` bytes of
/// its SSID buffer count: the SSID decoded as text, ill-formed bytes
/// replaced; the security flag as it is; security and encryption kind from
/// the algorithm codes; the signal quality in bars. A new record is never
/// marked connected.
pub open spec fn record_of_prefix(entry: AvailableNetwork, ssid_length: int) -> NetworkView {
    NetworkView {
        ssid: utf8_lossy(entry.ssid.bytes@.subrange(0, ssid_length)),
        secured: entry.security_enabled,
        connected: false,
        network_security: security_of(entry.auth_algorithm),
        encryption: encryption_of(entry.cipher_algorithm),
        bars: signal_bars(entry.signal_quality as int) as u32,
    }
}

/// The record that a list entry makes.
pub open spec fn record_of(entry: AvailableNetwork) -> NetworkView {
    record_of_prefix(entry, entry.ssid.length as int)
}

/// The records of the entries whose SSID length fits the buffer, in the
/// order of the list. An entry with a longer SSID leaves no record.
pub open spec fn accepted_records(entries: Seq<AvailableNetwork>) -> Seq<NetworkView>
    decreases entries.len(),
{
    if entries.len() == 0 {
        Seq::empty()
    } else if entries.last().ssid.well_formed() {
        accepted_records(entries.drop_last()).push(record_of(entries.last()))
    } else {
        accepted_records(entries.drop_last())
    }
}

impl ManagerView {
    /// The call that asks for a scan, or why none can be made.
    pub open spec fn scan_call(self) -> Result<WlanCall, WlanError> {
        match self.interface_info {
            None => Err(WlanError::InterfaceUnresolved),
            Some(info) => Ok(WlanCall::Scan { handle: self.client_handle, interface: info.guid }),
        }
    }

    /// The call that retrieves the available-network list, or why none can
    /// be made.
    pub open spec fn list_call(self) -> Result<WlanCall, WlanError> {
        if !self.is_handle_open {
            Err(WlanError::HandleNotOpen)
        } else {
            match self.interface_info {
                None => Err(WlanError::InterfaceUnresolved),
                Some(info) => Ok(
                    WlanCall::GetAvailableNetworkList {
                        handle: self.client_handle,
                        interface: info.guid,
                        flags: 0,
                    },
                ),
            }
        }
    }

    /// The session after a refresh. A closed session stays as it is. An
    /// open one loses its table, and where an interface is selected and the
    /// list was retrieved, the table is built anew from the list.
    pub open spec fn after_refresh(
        self,
        listing: Result<Vec<AvailableNetwork>, WlanError>,
    ) -> ManagerView {
        if !self.is_handle_open {
            self
        } else if self.interface_info is None {
            ManagerView { networks: Map::empty(), ..self }
        } else {
            match listing {
                Err(_) => ManagerView { networks: Map::empty(), ..self },
                Ok(list) => ManagerView { networks: table_map(accepted_records(list@)), ..self },
            }
        }
    }

    /// What a refresh reports.
    pub open spec fn refresh_result(
        self,
        listing: Result<Vec<AvailableNetwork>, WlanError>,
    ) -> Result<(), WlanError> {
        if !self.is_handle_open {
            Err(WlanError::HandleNotOpen)
        } else if self.interface_info is None {
            Err(WlanError::InterfaceUnresolved)
        } else {
            match listing {
                Err(error) => Err(error),
                Ok(_) => Ok(()),
            }
        }
    }
}

/// One more entry at the end of a list adds its record where its SSID
/// length is at most thirty-two, and nothing where it is longer.
pub proof fn lemma_ssid_length_guard(entries: Seq<AvailableNetwork>, entry: AvailableNetwork)
    ensures
        entry.ssid.length <= 32 ==> accepted_records(entries.push(entry)) == accepted_records(
            entries,
        ).push(record_of(entry)),
        entry.ssid.length > 32 ==> accepted_records(entries.push(entry)) == accepted_records(
            entries,
        ),
        entry.ssid.length <= 32 ==> table_map(accepted_records(entries.push(entry))).contains_key(
            record_of(entry).ssid,
        ),
{
    assert(entries.push(entry).drop_last() =~= entries);
    lemma_table_push(accepted_records(entries), record_of(entry));
}

/// Every record of a rebuilt table comes from an entry of the list whose
/// SSID length fits, and every such entry has its SSID in the table.
pub proof fn lemma_table_of_list(entries: Seq<AvailableNetwork>)
    ensures
        forall|i: int|
            0 <= i < entries.len() && (#[trigger] entries[i]).ssid.well_formed() ==> table_map(
                accepted_records(entries),
            ).contains_key(record_of(entries[i]).ssid),
        forall|ssid: Seq<char>| #[trigger]
            table_map(accepted_records(entries)).contains_key(ssid) ==> exists|i: int|
                0 <= i < entries.len() && (#[trigger] entries[i]).ssid.well_formed() && table_map(
                    accepted_records(entries),
                )[ssid] == record_of(entries[i]) && record_of(entries[i]).ssid == ssid,
    decreases entries.len(),
{
    if entries.len() > 0 {
        let front = entries.drop_last();
        let last = entries.last();
        lemma_table_of_list(front);
        let table = table_map(accepted_records(entries));
        let before = table_map(accepted_records(front));
        if last.ssid.well_formed() {
            lemma_table_push(accepted_records(front), record_of(last));
        }
        assert forall|i: int|
            0 <= i < entries.len() && (#[trigger] entries[i]).ssid.well_formed() implies table.contains_key(
            record_of(entries[i]).ssid,
        ) by {
            if i < entries.len() - 1 {
                assert(front[i] == entries[i]);
            }
        }
        assert forall|ssid: Seq<char>| #[trigger] table.contains_key(ssid) implies exists|i: int|
            0 <= i < entries.len() && (#[trigger] entries[i]).ssid.well_formed() && table[ssid]
                == record_of(entries[i]) && record_of(entries[i]).ssid == ssid by {
            if last.ssid.well_formed() && ssid == record_of(last).ssid {
                assert(entries[entries.len() - 1] == last);
            } else {
                assert(before.contains_key(ssid));
                let i = choose|i: int|
                    0 <= i < front.len() && (#[trigger] front[i]).ssid.well_formed() && before[ssid]
                        == record_of(front[i]) && record_of(front[i]).ssid == ssid;
                assert(entries[i] == front[i]);
            }
        }
    }
}

impl NetworkManager {
    /// The call that asks for a scan on the selected interface. The scan
    /// runs on its own: the list is to be retrieved later.
    pub fn request_scan(&self) -> (call: Result<WlanCall, WlanError>)
        ensures
            call == self@.scan_call(),
    {
        match self.get_interface_info() {
            None => Err(WlanError::InterfaceUnresolved),
            Some(info) => Ok(
                WlanCall::Scan { handle: self.get_client_handle(), interface: info.guid },
            ),
        }
    }

    /// The call that retrieves the available-network list of the selected
    /// interface.
    pub fn get_available_networks(&self) -> (call: Result<WlanCall, WlanError>)
        ensures
            call == self@.list_call(),
    {
        if !self.is_open() {
            return Err(WlanError::HandleNotOpen);
        }
        match self.get_interface_info() {
            None => Err(WlanError::InterfaceUnresolved),
            Some(info) => Ok(
                WlanCall::GetAvailableNetworkList {
                    handle: self.get_client_handle(),
                    interface: info.guid,
                    flags: 0,
                },
            ),
        }
    }

    /// Takes what retrieving the available-network list gave and rebuilds
    /// the table from it. A closed session refuses and keeps its table.
    /// Otherwise the old table is dropped first, so that it is empty where
    /// no interface is selected or the list could not be retrieved. Each
    /// entry whose SSID length is at most thirty-two bytes is entered under
    /// its SSID, a later entry taking the place of an earlier one with the
    /// same SSID; an entry with a longer SSID is passed over.
    pub fn refresh_networks(&mut self, listing: Result<Vec<AvailableNetwork>, WlanError>) -> (result:
        Result<(), WlanError>)
        ensures
            final(self)@ == old(self)@.after_refresh(listing),
            result == old(self)@.refresh_result(listing),
    {
        if !self.is_open() {
            return Err(WlanError::HandleNotOpen);
        }
        let mut table: Vec<Network> = Vec::new();
        assert(views_of(table@) =~= Seq::empty());
        if self.get_interface_info().is_none() {
            self.set_networks(table);
            return Err(WlanError::InterfaceUnresolved);
        }
        let new_network_list = match listing {
            Ok(new_network_list) => new_network_list,
            Err(error) => {
                self.set_networks(table);
                return Err(error);
            },
        };
        let mut i: usize = 0;
        assert(new_network_list@.subrange(0, 0) =~= Seq::empty());
        while i < new_network_list.len()
            invariant
                i <= new_network_list.len(),
                distinct_ssids(views_of(table@)),
                table_map(views_of(table@)) == table_map(
                    accepted_records(new_network_list@.subrange(0, i as int)),
                ),
            decreases new_network_list.len() - i,
        {
            let network = &new_network_list[i];
            let ssid_length = network.ssid.length as usize;
            proof {
                let seen = new_network_list@.subrange(0, i as int);
                assert(seen.push(*network) =~= new_network_list@.subrange(0, i + 1));
                lemma_ssid_length_guard(seen, *network);
                lemma_table_push(accepted_records(seen), record_of(*network));
            }
            if ssid_length <= 32 {
                let net = self.construct_network_object(network, ssid_length);
                let key = net.get_ssid();
                let ghost before = table@;
                match find_ssid(&table, &key) {
                    Some(at) => {
                        table.set(at, net);
                        proof {
                            lemma_views_update(before, at as int, net);
                            lemma_table_update(views_of(before), at as int, net@);
                        }
                    },
                    None => {
                        table.push(net);
                        proof {
                            lemma_views_push(before, net);
                            lemma_distinct_push(views_of(before), net@);
                            lemma_table_push(views_of(before), net@);
                        }
                    },
                }
            }
            i += 1;
        }
        assert(new_network_list@.subrange(0, i as int) =~= new_network_list@);
        self.set_networks(table);
        Ok(())
    }

    /// Makes the record of a list entry of which the first `ssid_length`
    /// bytes of the SSID buffer count.
    pub fn construct_network_object(&self, net: &AvailableNetwork, ssid_length: usize) -> (network:
        Network)
        requires
            ssid_length <= 32,
        ensures
            network@ == record_of_prefix(*net, ssid_length as int),
    {
        let mut ssid_bytes: Vec<u8> = Vec::new();
        let mut i: usize = 0;
        while i < ssid_length
            invariant
                i <= ssid_length <= 32,
                ssid_bytes@ == net.ssid.bytes@.subrange(0, i as int),
            decreases ssid_length - i,
        {
            ssid_bytes.push(net.ssid.bytes[i]);
            assert(ssid_bytes@ =~= net.ssid.bytes@.subrange(0, i + 1));
            i += 1;
        }
        let ssid = string_from_utf8_lossy(ssid_bytes.as_slice());
        let (is_secured, security) = check_security(net.security_enabled, net.auth_algorithm);
        let signal_strength = check_signal_strength(net.signal_quality);
        let net_encryption = check_encryption(net.cipher_algorithm);
        Network::new(ssid, is_secured, false, security, net_encryption, signal_strength)
    }
}

} // verus!
