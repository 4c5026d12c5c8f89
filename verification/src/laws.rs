//! What holds of the orchestrator whatever messages reach it.
//!
//! Each law is a theorem about the mathematical model of the handlers, the
//! same model that the contracts of the handlers speak of.

use vstd::prelude::*;
use crate::address::PeripheralAddress;
use crate::device::{
    DeviceInfo,
    DeviceInput,
    DeviceState,
    DeviceTask,
    next_state,
    reported_state,
    requested_task,
};
use crate::messages::{AdapterError, CommandOutput, Effect, Input, Message, Output, ServiceError};
use crate::model::{ModelState, appended_all};
use crate::policy::connected_address;
use crate::registry::{
    has_address,
    lemma_appended_known_unique,
    lemma_first_connected_from,
    lemma_position_from,
    lemma_update_state_unique,
    lemma_upserted_front_unique,
    lemma_without_address_absent,
    lemma_without_address_identity,
    lemma_without_address_keeps_others,
    lemma_without_address_members,
    lemma_without_address_unique,
    position_of,
    unique_addresses,
    upserted_front,
    without_address,
};

verus! {

/// The model after the messages `msgs` were handled in their order.
pub open spec fn replay(start: ModelState, msgs: Seq<Message>) -> ModelState
    decreases msgs.len(),
{
    if msgs.len() == 0 {
        start
    } else {
        replay(start, msgs.drop_last()).dispatch(msgs.last()).0
    }
}

/// Appending loaded peripherals keeps the addresses apart.
pub proof fn lemma_appended_all_unique(entries: Seq<DeviceInfo>, loaded: Seq<DeviceInfo>)
    requires
        unique_addresses(entries),
    ensures
        unique_addresses(appended_all(entries, loaded)),
    decreases loaded.len(),
{
    if loaded.len() > 0 {
        lemma_appended_all_unique(entries, loaded.drop_last());
        lemma_appended_known_unique(appended_all(entries, loaded.drop_last()), loaded.last());
    }
}

/// Handing a message to a listed peripheral keeps the invariant.
pub proof fn lemma_delivered_keeps_invariant(model: ModelState, index: int, msg: DeviceInput)
    requires
        model.wf(),
    ensures
        model.delivered(index, msg).0.wf(),
{
    if 0 <= index < model.devices.len() {
        lemma_update_state_unique(model.devices, index, msg);
    }
}

/// Every handler keeps the invariant of the orchestrator: whatever the
/// message, no address is listed twice afterwards, and a scan runs only
/// while the adapter is available.
pub proof fn law_dispatch_keeps_invariant(model: ModelState, msg: Message)
    requires
        model.wf(),
    ensures
        model.dispatch(msg).0.wf(),
{
    match msg {
        Message::Input(input) => {
            match input {
                Input::DeviceInfoReady(info) => {
                    lemma_upserted_front_unique(model.devices, info);
                },
                Input::DeviceRemoved(address) => {
                    lemma_without_address_unique(model.devices, address);
                },
                Input::DeviceSelected(index) => {
                    lemma_delivered_keeps_invariant(
                        model.scan_cancelled().0,
                        index as int,
                        DeviceInput::Connect,
                    );
                },
                _ => {},
            }
        },
        Message::Command(output) => {
            match output {
                CommandOutput::KnownDevices(loaded) => {
                    lemma_appended_all_unique(model.devices, loaded@);
                    let listed = ModelState {
                        devices: appended_all(model.devices, loaded@),
                        ..model
                    };
                    lemma_delivered_keeps_invariant(
                        listed.scan_cancelled().0,
                        0,
                        DeviceInput::Connect,
                    );
                },
                _ => {},
            }
        },
        Message::Device(address, input) => {
            lemma_position_from(model.devices, address, 0);
            match position_of(model.devices, address) {
                Some(index) => lemma_delivered_keeps_invariant(model, index, input),
                None => {},
            }
        },
    }
}

/// For every sequence of messages, and so for every sequence of peripherals
/// that appear and disappear, the registry lists at most one summary per
/// address.
pub proof fn law_addresses_stay_unique(start: ModelState, msgs: Seq<Message>)
    requires
        start.wf(),
    ensures
        replay(start, msgs).wf(),
        unique_addresses(replay(start, msgs).devices),
    decreases msgs.len(),
{
    if msgs.len() > 0 {
        law_addresses_stay_unique(start, msgs.drop_last());
        law_dispatch_keeps_invariant(replay(start, msgs.drop_last()), msgs.last());
    }
}

/// Once a peripheral has disappeared, no summary of its address is listed,
/// and every other address is listed exactly if it was listed before.
pub proof fn law_disappeared_device_is_absent(
    model: ModelState,
    address: PeripheralAddress,
    other: PeripheralAddress,
)
    ensures
        !has_address(model.update(Input::DeviceRemoved(address)).0.devices, address),
        other != address ==> has_address(
            model.update(Input::DeviceRemoved(address)).0.devices,
            other,
        ) == has_address(model.devices, other),
{
    lemma_without_address_absent(model.devices, address);
    if other != address {
        lemma_without_address_keeps_others(model.devices, address, other);
    }
}

/// A scan that starts begins with an empty registry: what was listed before
/// is gone in the same step in which the discovery task is asked for, so no
/// earlier summary stands beside the finds of the new scan.
pub proof fn law_scan_start_clears_registry(model: ModelState)
    requires
        model.wf(),
        model.adapter,
        !model.scanning,
    ensures
        model.update(Input::ScanToggled).0 == (ModelState {
            devices: Seq::empty(),
            scanning: true,
            ..model
        }),
        model.update(Input::ScanToggled).1 == seq![Effect::StartScan],
{
}

/// Whether `msg` tells of a peripheral that a scan found or lost.
pub open spec fn is_discovery(msg: Message) -> bool {
    msg matches Message::Input(input) && (input is DeviceInfoReady || input is DeviceRemoved)
}

/// Whether one of `msgs` announces exactly the summary `info`.
pub open spec fn announced(msgs: Seq<Message>, info: DeviceInfo) -> bool {
    exists|k: int|
        0 <= k < msgs.len() && #[trigger] msgs[k] == Message::Input(Input::DeviceInfoReady(info))
}

/// What was announced by the first messages of a sequence is announced by
/// the sequence.
proof fn lemma_announced_extends(msgs: Seq<Message>, info: DeviceInfo)
    requires
        msgs.len() > 0,
        announced(msgs.drop_last(), info),
    ensures
        announced(msgs, info),
{
    let earlier = msgs.drop_last();
    let k = choose|k: int|
        0 <= k < earlier.len() && #[trigger] earlier[k] == Message::Input(
            Input::DeviceInfoReady(info),
        );
    assert(msgs[k] == Message::Input(Input::DeviceInfoReady(info)));
}

/// While only discovery messages arrive, every listed summary either was
/// listed at the outset or was announced by one of the messages.
pub proof fn lemma_discovery_lists_announced(start: ModelState, finds: Seq<Message>, entry: DeviceInfo)
    requires
        forall|k: int| 0 <= k < finds.len() ==> is_discovery(#[trigger] finds[k]),
        replay(start, finds).devices.contains(entry),
    ensures
        start.devices.contains(entry) || announced(finds, entry),
    decreases finds.len(),
{
    if finds.len() > 0 {
        let earlier = finds.drop_last();
        let before = replay(start, earlier).devices;
        let after = replay(start, finds).devices;
        let index = choose|i: int| 0 <= i < after.len() && after[i] == entry;
        assert(is_discovery(finds[finds.len() - 1]));
        assert forall|k: int| 0 <= k < earlier.len() implies is_discovery(#[trigger] earlier[k]) by {
            assert(earlier[k] == finds[k]);
        }
        match finds.last() {
            Message::Input(Input::DeviceInfoReady(info)) => {
                if index == 0 {
                    assert(finds[finds.len() - 1] == Message::Input(Input::DeviceInfoReady(entry)));
                } else {
                    lemma_without_address_members(before, info.address);
                    assert(entry == without_address(before, info.address)[index - 1]);
                    lemma_discovery_lists_announced(start, earlier, entry);
                    if announced(earlier, entry) {
                        lemma_announced_extends(finds, entry);
                    }
                }
            },
            Message::Input(Input::DeviceRemoved(address)) => {
                lemma_without_address_members(before, address);
                assert(entry == without_address(before, address)[index]);
                lemma_discovery_lists_announced(start, earlier, entry);
                if announced(earlier, entry) {
                    lemma_announced_extends(finds, entry);
                }
            },
            _ => {},
        }
    }
}

/// After a scan has started, and while only discovery messages arrive, every
/// listed summary is one that the new scan announced: nothing that was
/// listed before the scan stands beside its finds.
pub proof fn law_scan_lists_only_its_finds(model: ModelState, finds: Seq<Message>, entry: DeviceInfo)
    requires
        model.wf(),
        model.adapter,
        !model.scanning,
        forall|k: int| 0 <= k < finds.len() ==> is_discovery(#[trigger] finds[k]),
        replay(model.update(Input::ScanToggled).0, finds).devices.contains(entry),
    ensures
        announced(finds, entry),
{
    let started = model.update(Input::ScanToggled).0;
    assert(started.devices.len() == 0);
    lemma_discovery_lists_announced(started, finds, entry);
}

/// Choosing a peripheral leaves no scan running, and asks for the scan to be
/// aborted before it asks for anything else: the effects are the abort, if a
/// scan ran, followed by at most one connection request.
pub proof fn law_selection_stops_scan_first(model: ModelState, index: i32)
    requires
        model.wf(),
    ensures
        !model.update(Input::DeviceSelected(index)).0.scanning,
        ({
            let effects = model.update(Input::DeviceSelected(index)).1;
            let first = if model.scanning {
                1int
            } else {
                0int
            };
            &&& first <= effects.len() <= first + 1
            &&& model.scanning ==> effects[0] == Effect::AbortScan
            &&& forall|k: int| first <= k < effects.len() ==> effects[k] is Connect
        }),
{
}

/// A peripheral comes to rest in `Connected` or `Disconnected` only out of
/// `Transitioning`, and comes into `Transitioning` only by a request to
/// connect or to disconnect.
pub proof fn law_resting_state_follows_transitioning(state: DeviceState, msg: DeviceInput)
    ensures
        next_state(state, msg) != state && next_state(state, msg) != DeviceState::Transitioning
            ==> state == DeviceState::Transitioning && msg is StateUpdated,
        next_state(state, msg) != state && next_state(state, msg) == DeviceState::Transitioning
            ==> msg is Connect || msg is Disconnect,
        requested_task(state, msg) is Some ==> next_state(state, msg) == DeviceState::Transitioning,
{
}

/// On both paths, to connect and to disconnect, a resting peripheral passes
/// through `Transitioning` before its operation reports: the request takes it
/// there and starts the operation, and the report takes it on to
/// `Connected` or `Disconnected` as the operation ended.
pub proof fn law_lifecycle_passes_through_transitioning(
    state: DeviceState,
    task: DeviceTask,
    succeeded: bool,
)
    requires
        state != DeviceState::Transitioning,
    ensures
        ({
            let request = match task {
                DeviceTask::Connect => DeviceInput::Connect,
                DeviceTask::Disconnect => DeviceInput::Disconnect,
            };
            let pending = next_state(state, request);
            let report = DeviceInput::StateUpdated(reported_state(task, succeeded));
            &&& requested_task(state, request) == Some(task)
            &&& pending == DeviceState::Transitioning
            &&& next_state(pending, report) == reported_state(task, succeeded)
            &&& reported_state(task, succeeded) != DeviceState::Transitioning
        }),
{
}

/// With nothing listed and nothing known from before, the startup choice is
/// exactly one scan start and no connection request.
pub proof fn law_startup_without_known_devices_scans(model: ModelState, loaded: Vec<DeviceInfo>)
    requires
        model.wf(),
        model.adapter,
        !model.scanning,
        model.devices.len() == 0,
        loaded@.len() == 0,
    ensures
        model.update_cmd(CommandOutput::KnownDevices(loaded)).1 == seq![Effect::StartScan],
        model.update_cmd(CommandOutput::KnownDevices(loaded)).0 == (ModelState {
            scanning: true,
            ..model
        }),
{
    lemma_first_connected_from(loaded@, 0);
    assert(model.devices =~= Seq::empty());
}

/// With nothing listed and exactly one peripheral known from before, which
/// is disconnected, the startup choice is exactly one connection request, to
/// that peripheral, and no scan start. A scan that runs is stopped first.
pub proof fn law_startup_with_one_known_device_connects(model: ModelState, loaded: Vec<DeviceInfo>)
    requires
        model.wf(),
        model.adapter,
        model.devices.len() == 0,
        loaded@.len() == 1,
        loaded@[0].state == DeviceState::Disconnected,
    ensures
        model.update_cmd(CommandOutput::KnownDevices(loaded)).1 == model.scan_cancelled().1 + seq![
            Effect::Connect(loaded@[0].address),
        ],
        model.update_cmd(CommandOutput::KnownDevices(loaded)).0 == (ModelState {
            devices: seq![loaded@[0].with_state(DeviceState::Transitioning)],
            scanning: false,
            ..model
        }),
{
    lemma_first_connected_from(loaded@, 0);
    lemma_singleton_appended(model.devices, loaded@);
}

/// If one of the peripherals known from before is connected already, the
/// startup choice is to report the first such peripheral as connected: one
/// event to the front-end, no connection request, no scan start, and no
/// change to the scan.
pub proof fn law_startup_with_connected_device_reports(
    model: ModelState,
    loaded: Vec<DeviceInfo>,
    index: int,
)
    requires
        model.wf(),
        model.adapter,
        0 <= index < loaded@.len(),
        loaded@[index].state == DeviceState::Connected,
        forall|j: int| 0 <= j < index ==> (#[trigger] loaded@[j]).state != DeviceState::Connected,
    ensures
        model.update_cmd(CommandOutput::KnownDevices(loaded)).1 == seq![
            Effect::Emit(Output::DeviceConnected(loaded@[index].address)),
        ],
        model.update_cmd(CommandOutput::KnownDevices(loaded)).0.scanning == model.scanning,
{
    lemma_first_connected_from(loaded@, 0);
    assert(connected_address(loaded@) == Some(loaded@[index].address));
}

/// With nothing listed and two peripherals of different addresses known from
/// before, both disconnected, nothing is done by itself: the user has to
/// choose.
pub proof fn law_startup_with_two_known_devices_waits(model: ModelState, loaded: Vec<DeviceInfo>)
    requires
        model.wf(),
        model.devices.len() == 0,
        loaded@.len() == 2,
        loaded@[0].state == DeviceState::Disconnected,
        loaded@[1].state == DeviceState::Disconnected,
        loaded@[0].address != loaded@[1].address,
    ensures
        model.update_cmd(CommandOutput::KnownDevices(loaded)).1 == Seq::<Effect>::empty(),
        model.update_cmd(CommandOutput::KnownDevices(loaded)).0 == (ModelState {
            devices: loaded@,
            ..model
        }),
{
    lemma_first_connected_from(loaded@, 0);
    let first = loaded@.drop_last();
    lemma_singleton_appended(model.devices, first);
    assert(appended_all(model.devices, first) =~= seq![loaded@[0]]);
    assert(!has_address(seq![loaded@[0]], loaded@[1].address));
    lemma_without_address_identity(seq![loaded@[0]], loaded@[1].address);
    assert(appended_all(model.devices, loaded@) =~= loaded@);
}

/// Appending one peripheral to an empty list gives the list of that
/// peripheral.
proof fn lemma_singleton_appended(entries: Seq<DeviceInfo>, loaded: Seq<DeviceInfo>)
    requires
        entries.len() == 0,
        loaded.len() == 1,
    ensures
        appended_all(entries, loaded) == seq![loaded[0]],
{
    reveal_with_fuel(appended_all, 2);
    assert(!has_address(entries, loaded[0].address));
    lemma_without_address_identity(entries, loaded[0].address);
    assert(appended_all(entries, loaded) =~= seq![loaded[0]]);
}

/// A failure to make the adapter ready changes nothing: the adapter stays as
/// it was, unavailable if it was unavailable.
pub proof fn law_adapter_failure_changes_nothing(model: ModelState, error: AdapterError)
    ensures
        model.update_cmd(CommandOutput::AdapterInitResult(Err(error))).0 == model,
        model.update_cmd(CommandOutput::AdapterInitResult(Err(error))).1 == Seq::<Effect>::empty(),
{
}

/// While the adapter is unavailable, a command or a request that concerns a
/// peripheral is a no-op: toggling the scan, an appearing peripheral,
/// choosing a peripheral, and a request to connect or to disconnect change
/// nothing and have no effect.
pub proof fn law_no_adapter_disables_device_operations(
    model: ModelState,
    index: i32,
    address: PeripheralAddress,
)
    requires
        model.wf(),
        !model.adapter,
    ensures
        model.update(Input::ScanToggled) == (model, Seq::<Effect>::empty()),
        model.update(Input::DeviceAdded(address)) == (model, Seq::<Effect>::empty()),
        model.update(Input::DeviceSelected(index)) == (model, Seq::<Effect>::empty()),
        model.update_device(address, DeviceInput::Connect) == (model, Seq::<Effect>::empty()),
        model.update_device(address, DeviceInput::Disconnect) == (model, Seq::<Effect>::empty()),
{
    assert(model.update(Input::DeviceSelected(index)).1 =~= Seq::<Effect>::empty());
}

/// Only a successful initialisation makes the adapter available: no other
/// message changes whether it is.
pub proof fn law_adapter_changes_only_by_initialisation(model: ModelState, msg: Message)
    ensures
        model.dispatch(msg).0.adapter != model.adapter ==> msg matches Message::Command(
            CommandOutput::AdapterInitResult(Ok(_)),
        ),
{
    match msg {
        Message::Input(input) => {
            assert(model.update(input).0.adapter == model.adapter);
        },
        Message::Command(output) => {
            match output {
                CommandOutput::KnownDevices(loaded) => {
                    assert(model.known_devices_loaded(loaded@).0.adapter == model.adapter);
                },
                _ => {},
            }
        },
        Message::Device(address, input) => {
            assert(model.update_device(address, input).0.adapter == model.adapter);
        },
    }
}

/// A failure of the local service endpoint to start changes nothing in the
/// model: not the adapter, not the registry, not the state of any
/// peripheral, not the scan. Its one effect is a notice to the user.
pub proof fn law_service_failure_changes_nothing(model: ModelState, error: ServiceError)
    ensures
        model.update_cmd(CommandOutput::GattServicesResult(Err(error))).0 == model,
        model.update_cmd(CommandOutput::GattServicesResult(Err(error))).1.len() == 1,
        model.update_cmd(CommandOutput::GattServicesResult(Err(error))).1[0] is Emit,
{
}

/// Listing a peripheral whose address was not listed and then taking that
/// address off leaves the registry as it was before.
pub proof fn law_upsert_then_remove_restores(entries: Seq<DeviceInfo>, info: DeviceInfo)
    requires
        !has_address(entries, info.address),
    ensures
        without_address(upserted_front(entries, info), info.address) == entries,
{
    let keep = |other: DeviceInfo| other.address != info.address;
    lemma_without_address_identity(entries, info.address);
    Seq::filter_distributes_over_add(seq![info], entries, keep);
    assert(seq![info].filter(keep) =~= Seq::<DeviceInfo>::empty()) by {
        reveal_with_fuel(Seq::filter, 2);
        assert(seq![info].drop_last() =~= Seq::<DeviceInfo>::empty());
    }
    assert(without_address(upserted_front(entries, info), info.address) =~= entries);
}

/// The same for the orchestrator: a peripheral that appears and disappears
/// again leaves the model as it was, if its address was not listed before.
pub proof fn law_appear_then_disappear_restores(model: ModelState, info: DeviceInfo)
    requires
        !has_address(model.devices, info.address),
    ensures
        model.update(Input::DeviceInfoReady(info)).0.update(Input::DeviceRemoved(info.address)).0
            == model,
{
    let appeared = model.update(Input::DeviceInfoReady(info)).0;
    assert(appeared.devices == upserted_front(model.devices, info));
    let disappeared = appeared.update(Input::DeviceRemoved(info.address)).0;
    assert(disappeared.devices == without_address(appeared.devices, info.address));
    law_upsert_then_remove_restores(model.devices, info);
    assert(disappeared.devices == model.devices);
}

} // verus!
