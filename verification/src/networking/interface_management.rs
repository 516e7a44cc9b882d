//! Selection of the interface that the session works on.

use vstd::prelude::*;
use crate::networking::{ManagerView, NetworkManager};
use crate::windows_api::wlan::{InterfaceInfo, WlanCall};
use crate::wlan_enums::{
    check_wlan_interface_state, convert_wlan_interface_state, interface_state_of, is_selectable,
};

verus! {

/// Whether the session may select this interface.
pub open spec fn usable(interface: InterfaceInfo) -> bool {
    is_selectable(interface_state_of(interface.state))
}

/// The first interface of an enumeration that the session may select, at
/// or after `from`.
pub open spec fn first_selectable_from(interfaces: Seq<InterfaceInfo>, from: int) -> Option<
    InterfaceInfo,
>
    decreases interfaces.len() - from,
{
    if from < 0 || from >= interfaces.len() {
        None
    } else if usable(interfaces[from]) {
        Some(interfaces[from])
    } else {
        first_selectable_from(interfaces, from + 1)
    }
}

/// The first interface of an enumeration that the session may select.
pub open spec fn first_selectable(interfaces: Seq<InterfaceInfo>) -> Option<InterfaceInfo> {
    first_selectable_from(interfaces, 0)
}

impl ManagerView {
    /// The call that resolving the interface needs: none where an
    /// interface is selected.
    pub open spec fn resolve_call(self) -> Option<WlanCall> {
        if self.interface_info is Some {
            None
        } else {
            Some(WlanCall::EnumInterfaces { handle: self.client_handle })
        }
    }

    /// The next call that bringing the session up needs: the opening call
    /// for a closed session, the resolving call for an open one without an
    /// interface, and none for an open one with an interface.
    pub open spec fn init_call(self) -> Option<WlanCall> {
        if !self.is_handle_open {
            self.open_call()
        } else {
            self.resolve_call()
        }
    }

    /// The session after an enumeration: a selected interface stays, and
    /// where none is selected the first usable one of the enumeration is.
    pub open spec fn after_resolve(self, interfaces: Seq<InterfaceInfo>) -> ManagerView {
        if self.interface_info is Some {
            self
        } else {
            ManagerView { interface_info: first_selectable(interfaces), ..self }
        }
    }
}

/// The selected interface is the first usable one: it stands in the
/// enumeration, it is usable, and none before it is. Nothing is selected
/// exactly when no interface is usable, as with an empty enumeration.
pub proof fn lemma_first_selectable(interfaces: Seq<InterfaceInfo>, from: int)
    requires
        0 <= from <= interfaces.len(),
    ensures
        first_selectable_from(interfaces, from) matches Some(interface) ==> exists|at: int|
            from <= at < interfaces.len() && interfaces[at] == interface && usable(interface)
                && forall|before: int| from <= before < at ==> !usable(#[trigger] interfaces[before]),
        first_selectable_from(interfaces, from) is None <==> forall|at: int|
            from <= at < interfaces.len() ==> !usable(#[trigger] interfaces[at]),
    decreases interfaces.len() - from,
{
    if from < interfaces.len() {
        if usable(interfaces[from]) {
            assert(forall|before: int| from <= before < from ==> !usable(#[trigger] interfaces[before]));
        } else {
            lemma_first_selectable(interfaces, from + 1);
            if let Some(interface) = first_selectable_from(interfaces, from + 1) {
                let at = choose|at: int|
                    from + 1 <= at < interfaces.len() && interfaces[at] == interface && usable(
                        interface,
                    ) && forall|before: int|
                        from + 1 <= before < at ==> !usable(#[trigger] interfaces[before]);
                assert(forall|before: int|
                    from <= before < at ==> !usable(#[trigger] interfaces[before]));
            }
        }
    }
}

impl NetworkManager {
    /// The next call that bringing the session up needs: first the handle
    /// is opened, then the interface is resolved.
    pub fn init(&self) -> (call: Option<WlanCall>)
        ensures
            call == self@.init_call(),
    {
        if !self.is_open() {
            self.open_handle()
        } else {
            self.initialize_interface_info()
        }
    }

    /// The call that resolves the interface, or none where an interface is
    /// selected: a selected interface is never replaced on its own.
    pub fn initialize_interface_info(&self) -> (call: Option<WlanCall>)
        ensures
            call == self@.resolve_call(),
    {
        match self.interface_info {
            None => Some(WlanCall::EnumInterfaces { handle: self.client_handle }),
            Some(_) => None,
        }
    }

    /// Takes an enumeration of the interfaces and, where no interface is
    /// selected, selects the first usable one. An enumeration without a
    /// usable interface, an empty one too, leaves the session unresolved.
    pub fn retrieve_interface_from_vec(&mut self, interfaces: Vec<InterfaceInfo>)
        ensures
            final(self)@ == old(self)@.after_resolve(interfaces@),
    {
        proof {
            use_type_invariant(&*self);
        }
        let mut i: usize = 0;
        assert(self@ == old(self)@.after_resolve(interfaces@.subrange(0, 0)));
        while i < interfaces.len()
            invariant
                i <= interfaces.len(),
                self@ == old(self)@.after_resolve(interfaces@.subrange(0, i as int)),
            decreases interfaces.len() - i,
        {
            let interface = interfaces[i];
            let _ = self.retrieve_interface(interface);
            proof {
                lemma_resolve_step(old(self)@, interfaces@, i as int);
            }
            i += 1;
        }
        assert(interfaces@.subrange(0, i as int) =~= interfaces@);
    }

    /// Selects `interface` where no interface is selected and this one is
    /// usable, and says so with `Some(true)`; otherwise nothing changes and
    /// nothing is returned.
    pub fn retrieve_interface(&mut self, interface: InterfaceInfo) -> (selected: Option<bool>)
        ensures
            old(self)@.interface_info is None && usable(interface) ==> selected == Some(true)
                && final(self)@ == (ManagerView {
                interface_info: Some(interface),
                ..old(self)@
            }),
            !(old(self)@.interface_info is None && usable(interface)) ==> selected is None
                && final(self)@ == old(self)@,
    {
        proof {
            use_type_invariant(&*self);
        }
        let state = convert_wlan_interface_state(interface.state);
        if self.interface_info.is_none() {
            match check_wlan_interface_state(&state, true) {
                Some(result) => {
                    self.interface_info = Some(interface);
                    return Some(result);
                },
                None => return None,
            }
        }
        None
    }

    /// Forgets the selected interface, so that the next resolution selects
    /// anew.
    pub fn clear_interface_info(&mut self)
        ensures
            final(self)@ == (ManagerView { interface_info: None, ..old(self)@ }),
    {
        proof {
            use_type_invariant(&*self);
        }
        self.interface_info = None;
    }
}

/// Resolving over one more interface is resolving over those before it and
/// then offering this one.
proof fn lemma_resolve_step(session: ManagerView, interfaces: Seq<InterfaceInfo>, i: int)
    requires
        0 <= i < interfaces.len(),
    ensures
        session.after_resolve(interfaces.subrange(0, i + 1)) == ({
            let before = session.after_resolve(interfaces.subrange(0, i));
            if before.interface_info is None && usable(interfaces[i]) {
                ManagerView { interface_info: Some(interfaces[i]), ..before }
            } else {
                before
            }
        }),
{
    let shorter = interfaces.subrange(0, i);
    let longer = interfaces.subrange(0, i + 1);
    lemma_first_selectable(shorter, 0);
    lemma_first_selectable(longer, 0);
    assert(forall|k: int| 0 <= k < i ==> shorter[k] == longer[k]);
    assert(longer[i] == interfaces[i]);
    if session.interface_info is None {
        if first_selectable(shorter) is Some {
            let x = first_selectable(shorter)->0;
            let at = choose|at: int|
                0 <= at < shorter.len() && shorter[at] == x && usable(x) && forall|before: int|
                    0 <= before < at ==> !usable(#[trigger] shorter[before]);
            assert(usable(longer[at]));
            assert(first_selectable(longer) is Some);
            let y = first_selectable(longer)->0;
            let bt = choose|bt: int|
                0 <= bt < longer.len() && longer[bt] == y && usable(y) && forall|before: int|
                    0 <= before < bt ==> !usable(#[trigger] longer[before]);
            assert(bt == at) by {
                if bt < at {
                    assert(!usable(shorter[bt]));
                }
                if at < bt {
                    assert(!usable(longer[at]));
                }
            }
        } else {
            assert(forall|k: int| 0 <= k < i ==> !usable(#[trigger] longer[k]));
            if usable(interfaces[i]) {
                assert(first_selectable(longer) is Some);
                let y = first_selectable(longer)->0;
                let bt = choose|bt: int|
                    0 <= bt < longer.len() && longer[bt] == y && usable(y) && forall|before: int|
                        0 <= before < bt ==> !usable(#[trigger] longer[before]);
                assert(bt == i) by {
                    if bt < i {
                        assert(!usable(longer[bt]));
                    }
                }
            } else {
                assert(forall|k: int| 0 <= k < longer.len() ==> !usable(#[trigger] longer[k]));
            }
        }
    }
}

} // verus!
