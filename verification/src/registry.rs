//! The devices a process knows, by address.

use vstd::prelude::*;
use crate::address::DeviceAddress;
use crate::device::LedDevice;
use crate::event::Event;
use crate::protocol::{Command, CommandView, Reply};

verus! {

/// Where `addr` stands among the entries, if it is among them.
pub open spec fn position<T>(entries: Seq<(DeviceAddress, T)>, addr: DeviceAddress) -> Option<int> {
    if exists|i: int| 0 <= i < entries.len() && (#[trigger] entries[i]).0 == addr {
        Some(choose|i: int| 0 <= i < entries.len() && (#[trigger] entries[i]).0 == addr)
    } else {
        None
    }
}

/// No address stands among the entries twice.
pub open spec fn distinct<T>(entries: Seq<(DeviceAddress, T)>) -> bool {
    forall|i: int, j: int|
        0 <= i < j < entries.len() ==> (#[trigger] entries[i]).0 != (#[trigger] entries[j]).0
}

/// The map from addresses to devices that the entries stand for.
pub open spec fn entries_map<T>(entries: Seq<(DeviceAddress, T)>) -> Map<DeviceAddress, T> {
    Map::new(
        |addr: DeviceAddress| position(entries, addr) is Some,
        |addr: DeviceAddress| entries[position(entries, addr)->0].1,
    )
}

/// Among distinct entries an address stands where it is seen to stand.
pub proof fn lemma_position<T>(entries: Seq<(DeviceAddress, T)>, i: int)
    requires
        distinct(entries),
        0 <= i < entries.len(),
    ensures
        position(entries, entries[i].0) == Some(i),
{
    let addr = entries[i].0;
    let p = choose|p: int| 0 <= p < entries.len() && (#[trigger] entries[p]).0 == addr;
    if p < i {
        assert(entries[p].0 != entries[i].0);
    } else if p > i {
        assert(entries[i].0 != entries[p].0);
    }
}

/// Replacing the device of one entry keeps the entries distinct and changes
/// the map at the address of that entry only.
pub proof fn lemma_replace_entry<T>(entries: Seq<(DeviceAddress, T)>, i: int, device: T)
    requires
        distinct(entries),
        0 <= i < entries.len(),
    ensures
        distinct(entries.update(i, (entries[i].0, device))),
        entries_map(entries.update(i, (entries[i].0, device))) == entries_map(entries).insert(
            entries[i].0,
            device,
        ),
{
    let addr = entries[i].0;
    let after = entries.update(i, (addr, device));
    assert forall|a: int, b: int| 0 <= a < b < after.len() implies (#[trigger] after[a]).0
        != (#[trigger] after[b]).0 by {
        assert(after[a].0 == entries[a].0);
        assert(after[b].0 == entries[b].0);
    }
    lemma_position(after, i);
    assert forall|other: DeviceAddress| position(after, other) == position(entries, other) by {
        if position(entries, other) is Some {
            let p = position(entries, other)->0;
            assert(after[p].0 == other);
            lemma_position(after, p);
        } else if position(after, other) is Some {
            let p = position(after, other)->0;
            assert(entries[p].0 == other);
        }
    }
    assert(entries_map(after) =~= entries_map(entries).insert(addr, device)) by {
        lemma_position(entries, i);
        let expected = entries_map(entries).insert(addr, device);
        assert forall|other: DeviceAddress| entries_map(after).contains_key(other) implies
            #[trigger] entries_map(after)[other] == expected[other] by {
            let p = position(after, other)->0;
            if other == addr {
                assert(p == i);
            } else {
                assert(p != i);
            }
        }
    }
}

/// A new address at the end keeps the entries distinct and adds its device
/// to the map.
pub proof fn lemma_append_entry<T>(
    entries: Seq<(DeviceAddress, T)>,
    addr: DeviceAddress,
    device: T,
)
    requires
        distinct(entries),
        position(entries, addr) is None,
    ensures
        distinct(entries.push((addr, device))),
        entries_map(entries.push((addr, device))) == entries_map(entries).insert(addr, device),
{
    let after = entries.push((addr, device));
    let last = entries.len() as int;
    assert forall|a: int, b: int| 0 <= a < b < after.len() implies (#[trigger] after[a]).0
        != (#[trigger] after[b]).0 by {
        assert(after[a] == entries[a]);
        if b < last {
            assert(after[b] == entries[b]);
        }
    }
    lemma_position(after, last);
    assert forall|other: DeviceAddress| other != addr implies position(after, other)
        == position(entries, other) by {
        if position(entries, other) is Some {
            let p = position(entries, other)->0;
            assert(after[p] == entries[p]);
            lemma_position(after, p);
        } else if position(after, other) is Some {
            let p = position(after, other)->0;
            assert(after[p] == entries[p]);
        }
    }
    assert(entries_map(after) =~= entries_map(entries).insert(addr, device)) by {
        let expected = entries_map(entries).insert(addr, device);
        assert forall|other: DeviceAddress| entries_map(after).contains_key(other) implies
            #[trigger] entries_map(after)[other] == expected[other] by {
            let p = position(after, other)->0;
            if other != addr {
                assert(after[p] == entries[p]);
            }
        }
    }
}

/// An operation addressed to `addr` is routed: with a device under that
/// address, the device becomes what the operation makes of it, the command
/// is the one the operation answers with, and no other device changes;
/// without one, nothing changes and there is no command.
pub open spec fn routed<T>(
    before: Map<DeviceAddress, T>,
    after: Map<DeviceAddress, T>,
    addr: DeviceAddress,
    command: Option<Command>,
    operation: spec_fn(T) -> (T, CommandView),
) -> bool {
    match command {
        Some(c) => {
            &&& before.contains_key(addr)
            &&& c@ == operation(before[addr]).1
            &&& after == before.insert(addr, operation(before[addr]).0)
        },
        None => !before.contains_key(addr) && after == before,
    }
}

/// The devices of a process, each under its address.
pub struct DevicesState<T> {
    devices: Vec<(DeviceAddress, T)>,
}

impl<T> DevicesState<T> {
    /// Every address is registered at most once.
    pub closed spec fn wf(&self) -> bool {
        distinct(self.devices@)
    }

    /// The addresses in the order in which they were first registered.
    pub closed spec fn addresses(&self) -> Seq<DeviceAddress> {
        self.devices@.map_values(|entry: (DeviceAddress, T)| entry.0)
    }

    /// The device registered under each address.
    pub closed spec fn view(&self) -> Map<DeviceAddress, T> {
        entries_map(self.devices@)
    }

    /// A registry without devices.
    pub fn new() -> (state: DevicesState<T>)
        ensures
            state.wf(),
            state@ == Map::<DeviceAddress, T>::empty(),
            state.addresses() == Seq::<DeviceAddress>::empty(),
    {
        let state = DevicesState { devices: Vec::new() };
        assert(state@ =~= Map::<DeviceAddress, T>::empty());
        assert(state.addresses() =~= Seq::<DeviceAddress>::empty());
        state
    }

    /// The index of the entry of `addr`.
    fn find(&self, addr: DeviceAddress) -> (found: Option<usize>)
        requires
            self.wf(),
        ensures
            match found {
                Some(i) => i < self.devices@.len() && self.devices@[i as int].0 == addr
                    && position(self.devices@, addr) == Some(i as int),
                None => position(self.devices@, addr) is None,
            },
    {
        let mut i: usize = 0;
        while i < self.devices.len()
            invariant
                self.wf(),
                i <= self.devices@.len(),
                forall|k: int| 0 <= k < i ==> (#[trigger] self.devices@[k]).0 != addr,
            decreases self.devices@.len() - i,
        {
            if self.devices[i].0 == addr {
                proof {
                    lemma_position(self.devices@, i as int);
                }
                return Some(i);
            }
            i += 1;
        }
        None
    }

    /// The device registered under `addr`, to operate on.
    pub fn get_device(&mut self, addr: &DeviceAddress) -> (device: Option<&mut T>)
        requires
            old(self).wf(),
        ensures
            final(self).wf(),
            final(self).addresses() == old(self).addresses(),
            match device {
                Some(d) => {
                    &&& old(self)@.contains_key(*addr)
                    &&& *d == old(self)@[*addr]
                    &&& final(self)@ == old(self)@.insert(*addr, *final(d))
                },
                None => !old(self)@.contains_key(*addr) && final(self)@ == old(self)@,
            },
    {
        match self.find(*addr) {
            Some(i) => {
                let ghost entries = self.devices@;
                let device = &mut self.devices[i].1;
                proof {
                    let after = entries.update(i as int, (entries[i as int].0, *final(device)));
                    lemma_replace_entry(entries, i as int, *final(device));
                    assert(after.map_values(|entry: (DeviceAddress, T)| entry.0)
                        =~= entries.map_values(|entry: (DeviceAddress, T)| entry.0));
                }
                Some(device)
            },
            None => None,
        }
    }

    /// Registers `device` under `addr`. A device that was registered under
    /// that address before is replaced.
    pub fn add_device(&mut self, addr: DeviceAddress, device: T)
        requires
            old(self).wf(),
        ensures
            final(self).wf(),
            final(self)@ == old(self)@.insert(addr, device),
            final(self).addresses() == if old(self)@.contains_key(addr) {
                old(self).addresses()
            } else {
                old(self).addresses().push(addr)
            },
    {
        let ghost entries = self.devices@;
        match self.find(addr) {
            Some(i) => {
                self.devices[i].1 = device;
                proof {
                    lemma_replace_entry(entries, i as int, device);
                    assert(self.devices@ =~= entries.update(i as int, (addr, device)));
                    assert(self.addresses() =~= old(self).addresses());
                }
            },
            None => {
                self.devices.push((addr, device));
                proof {
                    lemma_append_entry(entries, addr, device);
                    assert(self.addresses() =~= old(self).addresses().push(addr));
                }
            },
        }
    }

    /// Whether a device is registered under `addr`.
    pub fn has_device(&self, addr: &DeviceAddress) -> (known: bool)
        requires
            self.wf(),
        ensures
            known == self@.contains_key(*addr),
    {
        self.find(*addr).is_some()
    }

    /// The addresses of the devices as they are written, in the order in
    /// which they were first registered.
    pub fn get_device_names(&self) -> (names: Vec<String>)
        ensures
            names@.len() == self.addresses().len(),
            forall|i: int|
                0 <= i < names@.len() ==> (#[trigger] names@[i])@
                    == self.addresses()[i].spec_name(),
    {
        let mut names: Vec<String> = Vec::new();
        let mut i: usize = 0;
        while i < self.devices.len()
            invariant
                i <= self.devices@.len(),
                names@.len() == i,
                forall|k: int|
                    0 <= k < i ==> (#[trigger] names@[k])@ == self.devices@[k].0.spec_name(),
            decreases self.devices@.len() - i,
        {
            names.push(self.devices[i].0.name());
            i += 1;
        }
        names
    }

    /// Every registered address is listed once, and nothing else is listed.
    pub proof fn lemma_addresses_are_keys(&self)
        requires
            self.wf(),
        ensures
            self.addresses().no_duplicates(),
            forall|addr: DeviceAddress|
                self.addresses().contains(addr) <==> self@.contains_key(addr),
    {
        let entries = self.devices@;
        let listed = self.addresses();
        assert forall|addr: DeviceAddress|
            listed.contains(addr) <==> self@.contains_key(addr) by {
            if listed.contains(addr) {
                let i = choose|i: int| 0 <= i < listed.len() && listed[i] == addr;
                assert(entries[i].0 == addr);
            }
            if self@.contains_key(addr) {
                let p = position(entries, addr)->0;
                assert(listed[p] == addr);
            }
        }
        assert forall|a: int, b: int|
            0 <= a < listed.len() && 0 <= b < listed.len() && a != b implies listed[a]
            != listed[b] by {
            if a < b {
                assert(entries[a].0 != entries[b].0);
            } else {
                assert(entries[b].0 != entries[a].0);
            }
        }
    }
}

impl<T: LedDevice> DevicesState<T> {
    /// Starts a connect of the device registered under `addr`. Without such
    /// a device nothing happens and there is no command.
    pub fn connect(&mut self, addr: &DeviceAddress) -> (command: Option<Command>)
        requires
            old(self).wf(),
        ensures
            final(self).wf(),
            final(self).addresses() == old(self).addresses(),
            routed(
                old(self)@,
                final(self)@,
                *addr,
                command,
                |device: T| device.connect_spec(),
            ),
    {
        match self.get_device(addr) {
            Some(device) => Some(device.connect()),
            None => None,
        }
    }

    /// Disconnects the device registered under `addr`. Without such a
    /// device nothing happens and there is no command.
    pub fn disconnect(&mut self, addr: &DeviceAddress) -> (command: Option<Command>)
        requires
            old(self).wf(),
        ensures
            final(self).wf(),
            final(self).addresses() == old(self).addresses(),
            routed(
                old(self)@,
                final(self)@,
                *addr,
                command,
                |device: T| device.disconnect_spec(),
            ),
    {
        match self.get_device(addr) {
            Some(device) => Some(device.disconnect()),
            None => None,
        }
    }

    /// Hands an event to the device registered under `addr`. Without such a
    /// device nothing happens and there is no command.
    pub fn on_event(&mut self, addr: &DeviceAddress, event: Event) -> (command: Option<Command>)
        requires
            old(self).wf(),
        ensures
            final(self).wf(),
            final(self).addresses() == old(self).addresses(),
            routed(
                old(self)@,
                final(self)@,
                *addr,
                command,
                |device: T| device.on_event_spec(event@),
            ),
    {
        match self.get_device(addr) {
            Some(device) => Some(device.on_event(event)),
            None => None,
        }
    }

    /// Hands the outcome of the last command to the device registered under
    /// `addr`. Without such a device nothing happens and there is no command.
    pub fn resume(&mut self, addr: &DeviceAddress, reply: Reply) -> (command: Option<Command>)
        requires
            old(self).wf(),
        ensures
            final(self).wf(),
            final(self).addresses() == old(self).addresses(),
            routed(
                old(self)@,
                final(self)@,
                *addr,
                command,
                |device: T| device.resume_spec(reply@),
            ),
    {
        match self.get_device(addr) {
            Some(device) => Some(device.resume(reply)),
            None => None,
        }
    }
}

impl<T> Default for DevicesState<T> {
    fn default() -> (state: DevicesState<T>)
        ensures
            state.wf(),
            state@ == Map::<DeviceAddress, T>::empty(),
            state.addresses() == Seq::<DeviceAddress>::empty(),
    {
        DevicesState::new()
    }
}

} // verus!
