//! The list of known and discovered peripherals.
//!
//! The registry is an ordered list of summaries in which no address occurs
//! twice. A peripheral that a scan has just found goes to the front, so the
//! most recent find is first; a peripheral that was known before goes to the
//! back. Listing a peripheral whose address is already there replaces the old
//! summary: the old one leaves the list, and the new one takes the place that
//! the operation gives it (the front or the back).

use vstd::prelude::*;
use crate::address::PeripheralAddress;
use crate::device::{DeviceInfo, DeviceInput, DeviceState, DeviceTask, requested_task};

verus! {

/// Whether some summary in `entries` has `address`.
pub open spec fn has_address(entries: Seq<DeviceInfo>, address: PeripheralAddress) -> bool {
    exists|i: int| 0 <= i < entries.len() && (#[trigger] entries[i]).address == address
}

/// Whether no address occurs twice in `entries`.
pub open spec fn unique_addresses(entries: Seq<DeviceInfo>) -> bool {
    forall|i: int, j: int|
        0 <= i < j < entries.len() ==> (#[trigger] entries[i]).address != (
        #[trigger] entries[j]).address
}

/// `entries` without the summaries that have `address`, the others in their
/// order.
pub open spec fn without_address(entries: Seq<DeviceInfo>, address: PeripheralAddress) -> Seq<
    DeviceInfo,
> {
    entries.filter(|info: DeviceInfo| info.address != address)
}

/// `entries` with `info` at the front in place of any summary of the same
/// address.
pub open spec fn upserted_front(entries: Seq<DeviceInfo>, info: DeviceInfo) -> Seq<DeviceInfo> {
    seq![info] + without_address(entries, info.address)
}

/// `entries` with `info` at the back in place of any summary of the same
/// address.
pub open spec fn appended_known(entries: Seq<DeviceInfo>, info: DeviceInfo) -> Seq<DeviceInfo> {
    without_address(entries, info.address).push(info)
}

/// The place of the first summary at or after `start` that has `address`.
pub open spec fn position_from(entries: Seq<DeviceInfo>, address: PeripheralAddress, start: int) -> Option<
    int,
>
    decreases entries.len() - start,
{
    if start < 0 || start >= entries.len() {
        None
    } else if entries[start].address == address {
        Some(start)
    } else {
        position_from(entries, address, start + 1)
    }
}

/// The place of the first summary in `entries` that has `address`.
pub open spec fn position_of(entries: Seq<DeviceInfo>, address: PeripheralAddress) -> Option<int> {
    position_from(entries, address, 0)
}

/// The place of the first summary at or after `start` whose state is
/// `Connected`.
pub open spec fn first_connected_from(entries: Seq<DeviceInfo>, start: int) -> Option<int>
    decreases entries.len() - start,
{
    if start < 0 || start >= entries.len() {
        None
    } else if entries[start].state == DeviceState::Connected {
        Some(start)
    } else {
        first_connected_from(entries, start + 1)
    }
}

/// The place of the first summary in `entries` whose state is `Connected`.
pub open spec fn first_connected(entries: Seq<DeviceInfo>) -> Option<int> {
    first_connected_from(entries, 0)
}

/// `position_from` finds the first summary of the address at or after
/// `start`, and finds none only if there is none.
pub proof fn lemma_position_from(entries: Seq<DeviceInfo>, address: PeripheralAddress, start: int)
    requires
        0 <= start,
    ensures
        match position_from(entries, address, start) {
            Some(index) => {
                &&& start <= index < entries.len()
                &&& entries[index].address == address
                &&& forall|j: int| start <= j < index ==> (#[trigger] entries[j]).address != address
            },
            None => forall|j: int|
                start <= j < entries.len() ==> (#[trigger] entries[j]).address != address,
        },
    decreases entries.len() - start,
{
    if start < entries.len() && entries[start].address != address {
        lemma_position_from(entries, address, start + 1);
    }
}

/// `position_of` finds a summary exactly when the address is listed.
pub proof fn lemma_position_of(entries: Seq<DeviceInfo>, address: PeripheralAddress)
    ensures
        position_of(entries, address) is Some <==> has_address(entries, address),
        position_of(entries, address) matches Some(index) ==> 0 <= index < entries.len()
            && entries[index].address == address,
{
    lemma_position_from(entries, address, 0);
}

/// `first_connected_from` finds the first connected summary at or after
/// `start`, and finds none only if there is none.
pub proof fn lemma_first_connected_from(entries: Seq<DeviceInfo>, start: int)
    requires
        0 <= start,
    ensures
        match first_connected_from(entries, start) {
            Some(index) => {
                &&& start <= index < entries.len()
                &&& entries[index].state == DeviceState::Connected
                &&& forall|j: int|
                    start <= j < index ==> (#[trigger] entries[j]).state != DeviceState::Connected
            },
            None => forall|j: int|
                start <= j < entries.len() ==> (#[trigger] entries[j]).state
                    != DeviceState::Connected,
        },
    decreases entries.len() - start,
{
    if start < entries.len() && entries[start].state != DeviceState::Connected {
        lemma_first_connected_from(entries, start + 1);
    }
}

/// Every summary that `without_address` keeps was there before and has
/// another address, and every summary with another address is kept.
pub proof fn lemma_without_address_members(entries: Seq<DeviceInfo>, address: PeripheralAddress)
    ensures
        without_address(entries, address).len() <= entries.len(),
        forall|k: int|
            0 <= k < without_address(entries, address).len() ==> {
                &&& (#[trigger] without_address(entries, address)[k]).address != address
                &&& entries.contains(without_address(entries, address)[k])
            },
        forall|i: int|
            0 <= i < entries.len() && (#[trigger] entries[i]).address != address
                ==> without_address(entries, address).contains(entries[i]),
    decreases entries.len(),
{
    reveal(Seq::filter);
    let kept = without_address(entries, address);
    if entries.len() > 0 {
        let front = entries.drop_last();
        let front_kept = without_address(front, address);
        lemma_without_address_members(front, address);
        assert forall|k: int| 0 <= k < kept.len() implies (#[trigger] kept[k]).address != address
            && entries.contains(kept[k]) by {
            if k < front_kept.len() {
                assert(kept[k] == front_kept[k]);
                let i = choose|i: int| 0 <= i < front.len() && front[i] == front_kept[k];
                assert(entries[i] == kept[k]);
            } else {
                assert(kept[k] == entries.last());
                assert(entries[entries.len() - 1] == kept[k]);
            }
        }
        assert forall|i: int|
            0 <= i < entries.len() && (#[trigger] entries[i]).address != address implies kept.contains(
            entries[i],
        ) by {
            if i < front.len() {
                assert(front[i] == entries[i]);
                let k = choose|k: int| 0 <= k < front_kept.len() && front_kept[k] == front[i];
                assert(kept[k] == entries[i]);
            } else {
                assert(kept[kept.len() - 1] == entries[i]);
            }
        }
    }
}

/// Taking an address out leaves no summary of that address.
pub proof fn lemma_without_address_absent(entries: Seq<DeviceInfo>, address: PeripheralAddress)
    ensures
        !has_address(without_address(entries, address), address),
{
    lemma_without_address_members(entries, address);
}

/// Taking an address out keeps the summaries of every other address.
pub proof fn lemma_without_address_keeps_others(
    entries: Seq<DeviceInfo>,
    address: PeripheralAddress,
    other: PeripheralAddress,
)
    requires
        other != address,
    ensures
        has_address(without_address(entries, address), other) == has_address(entries, other),
{
    lemma_without_address_members(entries, address);
    let kept = without_address(entries, address);
    if has_address(kept, other) {
        let k = choose|k: int| 0 <= k < kept.len() && (#[trigger] kept[k]).address == other;
        let i = choose|i: int| 0 <= i < entries.len() && entries[i] == kept[k];
        assert(entries[i].address == other);
    }
    if has_address(entries, other) {
        let i = choose|i: int| 0 <= i < entries.len() && (#[trigger] entries[i]).address == other;
        let k = choose|k: int| 0 <= k < kept.len() && kept[k] == entries[i];
        assert(kept[k].address == other);
    }
}

/// Taking an address out of a list without repeated addresses leaves a list
/// without repeated addresses.
pub proof fn lemma_without_address_unique(entries: Seq<DeviceInfo>, address: PeripheralAddress)
    requires
        unique_addresses(entries),
    ensures
        unique_addresses(without_address(entries, address)),
    decreases entries.len(),
{
    reveal(Seq::filter);
    let kept = without_address(entries, address);
    if entries.len() > 0 {
        let front = entries.drop_last();
        let front_kept = without_address(front, address);
        assert(unique_addresses(front)) by {
            assert forall|i: int, j: int| 0 <= i < j < front.len() implies (#[trigger] front[i]).address
                != (#[trigger] front[j]).address by {
                assert(front[i] == entries[i] && front[j] == entries[j]);
            }
        }
        lemma_without_address_unique(front, address);
        lemma_without_address_members(front, address);
        assert forall|i: int, j: int| 0 <= i < j < kept.len() implies (#[trigger] kept[i]).address != (
        #[trigger] kept[j]).address by {
            if j < front_kept.len() {
                assert(kept[i] == front_kept[i] && kept[j] == front_kept[j]);
            } else {
                assert(kept[j] == entries.last());
                assert(kept[i] == front_kept[i]);
                let k = choose|k: int| 0 <= k < front.len() && front[k] == front_kept[i];
                assert(entries[k] == kept[i]);
                assert(entries[entries.len() - 1] == kept[j]);
            }
        }
    }
}

/// Taking out an address that is not there changes nothing.
pub proof fn lemma_without_address_identity(entries: Seq<DeviceInfo>, address: PeripheralAddress)
    requires
        !has_address(entries, address),
    ensures
        without_address(entries, address) == entries,
    decreases entries.len(),
{
    reveal(Seq::filter);
    if entries.len() > 0 {
        let front = entries.drop_last();
        assert(!has_address(front, address)) by {
            if has_address(front, address) {
                let i = choose|i: int| 0 <= i < front.len() && (#[trigger] front[i]).address == address;
                assert(entries[i].address == address);
            }
        }
        lemma_without_address_identity(front, address);
        assert(entries[entries.len() - 1].address != address);
        assert(front.push(entries.last()) =~= entries);
    }
}

/// Listing a peripheral at the front keeps the addresses apart.
pub proof fn lemma_upserted_front_unique(entries: Seq<DeviceInfo>, info: DeviceInfo)
    requires
        unique_addresses(entries),
    ensures
        unique_addresses(upserted_front(entries, info)),
{
    let kept = without_address(entries, info.address);
    let listed = upserted_front(entries, info);
    lemma_without_address_unique(entries, info.address);
    lemma_without_address_members(entries, info.address);
    assert forall|i: int, j: int| 0 <= i < j < listed.len() implies (#[trigger] listed[i]).address != (
    #[trigger] listed[j]).address by {
        assert(listed[j] == kept[j - 1]);
        if i > 0 {
            assert(listed[i] == kept[i - 1]);
        }
    }
}

/// Listing a peripheral at the back keeps the addresses apart.
pub proof fn lemma_appended_known_unique(entries: Seq<DeviceInfo>, info: DeviceInfo)
    requires
        unique_addresses(entries),
    ensures
        unique_addresses(appended_known(entries, info)),
{
    let kept = without_address(entries, info.address);
    let listed = appended_known(entries, info);
    lemma_without_address_unique(entries, info.address);
    lemma_without_address_members(entries, info.address);
    assert forall|i: int, j: int| 0 <= i < j < listed.len() implies (#[trigger] listed[i]).address != (
    #[trigger] listed[j]).address by {
        assert(listed[i] == kept[i]);
        if j < kept.len() {
            assert(listed[j] == kept[j]);
        }
    }
}

/// A message to one listed peripheral keeps the addresses apart.
pub proof fn lemma_update_state_unique(entries: Seq<DeviceInfo>, index: int, msg: DeviceInput)
    requires
        unique_addresses(entries),
        0 <= index < entries.len(),
    ensures
        unique_addresses(entries.update(index, entries[index].after(msg))),
{
    let next = entries.update(index, entries[index].after(msg));
    assert forall|i: int, j: int| 0 <= i < j < next.len() implies (#[trigger] next[i]).address != (
    #[trigger] next[j]).address by {
        assert(next[i].address == entries[i].address);
        assert(next[j].address == entries[j].address);
    }
}

/// The ordered list of known and discovered peripherals.
pub struct DeviceRegistry {
    entries: Vec<DeviceInfo>,
}

impl View for DeviceRegistry {
    type V = Seq<DeviceInfo>;

    /// The summaries, the front of the list first.
    closed spec fn view(&self) -> Seq<DeviceInfo> {
        self.entries@
    }
}

impl DeviceRegistry {
    /// The invariant of the registry: no address occurs twice.
    pub open spec fn wf(&self) -> bool {
        unique_addresses(self@)
    }

    /// An empty registry.
    pub fn new() -> (registry: Self)
        ensures
            registry@ == Seq::<DeviceInfo>::empty(),
            registry.wf(),
    {
        DeviceRegistry { entries: Vec::new() }
    }

    /// The number of listed peripherals.
    pub fn len(&self) -> (len: usize)
        ensures
            len == self@.len(),
    {
        self.entries.len()
    }

    /// Whether no peripheral is listed.
    pub fn is_empty(&self) -> (empty: bool)
        ensures
            empty == (self@.len() == 0),
    {
        self.entries.len() == 0
    }

    /// The summary at `index`, the front of the list being at 0.
    pub fn get(&self, index: usize) -> (found: Option<&DeviceInfo>)
        ensures
            found == if index < self@.len() {
                Some(&self@[index as int])
            } else {
                None
            },
    {
        if index < self.entries.len() {
            Some(&self.entries[index])
        } else {
            None
        }
    }

    /// Lists a peripheral that a scan has just found, at the front. A summary
    /// of the same address that was listed before leaves the list.
    pub fn upsert_front(&mut self, info: DeviceInfo)
        requires
            old(self).wf(),
        ensures
            final(self)@ == upserted_front(old(self)@, info),
            final(self).wf(),
    {
        self.remove_by_address(info.address);
        self.entries.insert(0, info);
        proof {
            assert(self.entries@ =~= upserted_front(old(self)@, info));
            lemma_upserted_front_unique(old(self)@, info);
        }
    }

    /// Lists a peripheral that was known before, at the back. A summary of
    /// the same address that was listed before leaves the list.
    pub fn append_known(&mut self, info: DeviceInfo)
        requires
            old(self).wf(),
        ensures
            final(self)@ == appended_known(old(self)@, info),
            final(self).wf(),
    {
        self.remove_by_address(info.address);
        self.entries.push(info);
        proof {
            lemma_appended_known_unique(old(self)@, info);
        }
    }

    /// Takes every summary of `address` off the list. Nothing changes if
    /// there is none.
    pub fn remove_by_address(&mut self, address: PeripheralAddress)
        requires
            old(self).wf(),
        ensures
            final(self)@ == without_address(old(self)@, address),
            final(self).wf(),
    {
        let ghost before = self.entries@;
        let mut i = self.entries.len();
        proof {
            reveal(Seq::filter);
            assert(before.subrange(i as int, before.len() as int) =~= Seq::<DeviceInfo>::empty());
            assert(self.entries@ =~= before.subrange(0, i as int) + without_address(
                before.subrange(i as int, before.len() as int),
                address,
            ));
        }
        while i > 0
            invariant
                i <= before.len(),
                self.entries@ == before.subrange(0, i as int) + without_address(
                    before.subrange(i as int, before.len() as int),
                    address,
                ),
            decreases i,
        {
            i -= 1;
            let ghost tail = before.subrange(i as int + 1, before.len() as int);
            let ghost tail_kept = without_address(tail, address);
            proof {
                let keep = |info: DeviceInfo| info.address != address;
                assert(before.subrange(i as int, before.len() as int) =~= seq![before[i as int]] + tail);
                Seq::filter_distributes_over_add(seq![before[i as int]], tail, keep);
                assert(seq![before[i as int]].filter(keep) =~= if keep(before[i as int]) {
                    seq![before[i as int]]
                } else {
                    Seq::<DeviceInfo>::empty()
                }) by {
                    reveal_with_fuel(Seq::filter, 2);
                    assert(seq![before[i as int]].drop_last() =~= Seq::<DeviceInfo>::empty());
                }
                assert(self.entries@[i as int] == before[i as int]);
            }
            if self.entries[i].address == address {
                self.entries.remove(i);
            }
            assert(self.entries@ =~= before.subrange(0, i as int) + without_address(
                before.subrange(i as int, before.len() as int),
                address,
            ));
        }
        proof {
            assert(before.subrange(0, before.len() as int) =~= before);
            assert(self.entries@ =~= without_address(before, address));
            lemma_without_address_unique(before, address);
        }
    }

    /// Empties the registry.
    pub fn clear(&mut self)
        ensures
            final(self)@ == Seq::<DeviceInfo>::empty(),
            final(self).wf(),
    {
        self.entries.clear();
    }

    /// The place of the summary that has `address`.
    pub fn position(&self, address: PeripheralAddress) -> (found: Option<usize>)
        ensures
            match found {
                Some(index) => position_of(self@, address) == Some(index as int),
                None => position_of(self@, address) is None,
            },
            found is Some <==> has_address(self@, address),
            found matches Some(index) ==> index < self@.len() && self@[index as int].address
                == address,
    {
        proof {
            lemma_position_of(self.entries@, address);
        }
        let mut i: usize = 0;
        while i < self.entries.len()
            invariant
                i <= self.entries@.len(),
                position_of(self.entries@, address) == position_from(self.entries@, address, i as int),
            decreases self.entries@.len() - i,
        {
            if self.entries[i].address == address {
                return Some(i);
            }
            i += 1;
        }
        None
    }

    /// The first summary whose state is `Connected`.
    pub fn find_connected(&self) -> (found: Option<&DeviceInfo>)
        ensures
            match first_connected(self@) {
                Some(index) => found == Some(&self@[index]) && 0 <= index < self@.len(),
                None => found is None,
            },
            found matches Some(info) ==> info.state == DeviceState::Connected,
            found is None ==> forall|j: int|
                0 <= j < self@.len() ==> (#[trigger] self@[j]).state != DeviceState::Connected,
    {
        proof {
            lemma_first_connected_from(self.entries@, 0);
        }
        let mut i: usize = 0;
        while i < self.entries.len()
            invariant
                i <= self.entries@.len(),
                first_connected(self.entries@) == first_connected_from(self.entries@, i as int),
            decreases self.entries@.len() - i,
        {
            if self.entries[i].state == DeviceState::Connected {
                return Some(&self.entries[i]);
            }
            i += 1;
        }
        None
    }

    /// Hands `msg` to the peripheral at `index` and returns the operation
    /// that the peripheral asks for.
    pub fn send(&mut self, index: usize, msg: DeviceInput) -> (task: Option<DeviceTask>)
        requires
            old(self).wf(),
            index < old(self)@.len(),
        ensures
            final(self)@ == old(self)@.update(index as int, old(self)@[index as int].after(msg)),
            task == requested_task(old(self)@[index as int].state, msg),
            final(self).wf(),
    {
        let task = self.entries[index].update(msg);
        proof {
            assert(self.entries@ =~= old(self)@.update(index as int, old(self)@[index as int].after(msg)));
            lemma_update_state_unique(old(self)@, index as int, msg);
        }
        task
    }
}

} // verus!
