//! The orchestrator: the single owner of the registry, of the adapter's
//! availability, of the scan and of the local service endpoint.
//!
//! The orchestrator handles one message at a time. A handler changes the
//! model and returns, in order, the effects for the surrounding program to
//! carry out; it never waits for anything. The operations that the effects
//! start report back with further messages.
//!
//! While the adapter is unavailable, nothing is done for a peripheral: no
//! scan starts, no peripheral is probed, and no connection is requested or
//! ended. A scan and a connection attempt exclude each other: choosing a
//! peripheral stops the scan before the connection is requested.

use vstd::prelude::*;
use crate::address::PeripheralAddress;
use crate::device::{DeviceInfo, DeviceInput, DeviceTask, requested_task};
use crate::messages::{CommandOutput, Effect, Input, Message, Output};
use crate::policy::{AutoSelection, auto_select, auto_selection, connected_among, connected_address};
use crate::registry::{
    DeviceRegistry,
    appended_known,
    position_of,
    unique_addresses,
    upserted_front,
    without_address,
};

verus! {

/// The notice that is shown when the local service endpoint did not start.
pub const GATT_SERVER_FAILURE: &'static str = "Failed to start GATT server";

/// What the orchestrator knows, as a mathematical value.
#[verifier::ext_equal]
pub struct ModelState {
    /// The listed peripherals, the front of the list first.
    pub devices: Seq<DeviceInfo>,
    /// Whether the radio adapter is available.
    pub adapter: bool,
    /// Whether the local service endpoint runs.
    pub gatt_server: bool,
    /// Whether the discovery task runs.
    pub scanning: bool,
}

/// `entries` after each of `loaded` was appended in turn as a peripheral that
/// was known before.
pub open spec fn appended_all(entries: Seq<DeviceInfo>, loaded: Seq<DeviceInfo>) -> Seq<DeviceInfo>
    decreases loaded.len(),
{
    if loaded.len() == 0 {
        entries
    } else {
        appended_known(appended_all(entries, loaded.drop_last()), loaded.last())
    }
}

/// The effect that starts `task` on the peripheral at `address`.
pub open spec fn task_effects(task: Option<DeviceTask>, address: PeripheralAddress) -> Seq<Effect> {
    match task {
        Some(DeviceTask::Connect) => seq![Effect::Connect(address)],
        Some(DeviceTask::Disconnect) => seq![Effect::Disconnect(address)],
        None => Seq::empty(),
    }
}

impl ModelState {
    /// The invariant of the orchestrator: no address is listed twice, and a
    /// scan runs only while the adapter is available.
    pub open spec fn wf(self) -> bool {
        &&& unique_addresses(self.devices)
        &&& self.scanning ==> self.adapter
    }

    /// The model at startup: nothing listed, no adapter, no service, no scan.
    pub open spec fn initial() -> ModelState {
        ModelState { devices: Seq::empty(), adapter: false, gatt_server: false, scanning: false }
    }

    /// Stops the scan if one runs.
    pub open spec fn scan_cancelled(self) -> (ModelState, Seq<Effect>) {
        if self.scanning {
            (ModelState { scanning: false, ..self }, seq![Effect::AbortScan])
        } else {
            (self, Seq::empty())
        }
    }

    /// Starts a scan on an empty list, unless a scan runs already or the
    /// adapter is unavailable.
    pub open spec fn scan_started(self) -> (ModelState, Seq<Effect>) {
        if self.adapter && !self.scanning {
            (ModelState { devices: Seq::empty(), scanning: true, ..self }, seq![Effect::StartScan])
        } else {
            (self, Seq::empty())
        }
    }

    /// Hands `msg` to the peripheral at `index`. A place that is not on the
    /// list gets nothing, and neither does a request while the adapter is
    /// unavailable.
    pub open spec fn delivered(self, index: int, msg: DeviceInput) -> (ModelState, Seq<Effect>) {
        if 0 <= index < self.devices.len() && (self.adapter || msg is StateUpdated) {
            let entry = self.devices[index];
            (
                ModelState { devices: self.devices.update(index, entry.after(msg)), ..self },
                task_effects(requested_task(entry.state, msg), entry.address),
            )
        } else {
            (self, Seq::empty())
        }
    }

    /// Chooses the peripheral at `index`: stops the scan, then requests the
    /// connection.
    pub open spec fn selected(self, index: int) -> (ModelState, Seq<Effect>) {
        let (stopped, abort) = self.scan_cancelled();
        let (next, connect) = stopped.delivered(index, DeviceInput::Connect);
        (next, abort + connect)
    }

    /// Lists the loaded peripherals at the back and takes the automatic
    /// action at startup.
    pub open spec fn known_devices_loaded(self, loaded: Seq<DeviceInfo>) -> (ModelState, Seq<Effect>) {
        let listed = ModelState { devices: appended_all(self.devices, loaded), ..self };
        match auto_selection(connected_address(loaded), listed.devices.len()) {
            AutoSelection::ReportConnected(address) => if self.adapter {
                (listed, seq![Effect::Emit(Output::DeviceConnected(address))])
            } else {
                (listed, Seq::empty())
            },
            AutoSelection::Scan => listed.scan_started(),
            AutoSelection::ConnectOnly => listed.selected(0),
            AutoSelection::Wait => (listed, Seq::empty()),
        }
    }

    /// The model after `msg`, and the effects of `msg` in their order.
    pub open spec fn update(self, msg: Input) -> (ModelState, Seq<Effect>) {
        match msg {
            Input::AdapterInit => (self, seq![Effect::InitAdapter]),
            Input::ScanToggled => if self.scanning {
                self.scan_cancelled()
            } else {
                self.scan_started()
            },
            Input::ScanFailed => (ModelState { scanning: false, ..self }, Seq::empty()),
            Input::DeviceInfoReady(info) => (
                ModelState { devices: upserted_front(self.devices, info), ..self },
                Seq::empty(),
            ),
            Input::DeviceAdded(address) => if self.adapter {
                (self, seq![Effect::ProbeDevice(address)])
            } else {
                (self, Seq::empty())
            },
            Input::DeviceRemoved(address) => (
                ModelState { devices: without_address(self.devices, address), ..self },
                Seq::empty(),
            ),
            Input::DeviceSelected(index) => self.selected(index as int),
            Input::DeviceConnected(address) => (
                self,
                seq![Effect::Emit(Output::DeviceConnected(address))],
            ),
            Input::DeviceDisconnected(address) => (
                self,
                seq![Effect::Emit(Output::DeviceDisconnected(address))],
            ),
        }
    }

    /// The model after the result `msg`, and the effects of `msg` in their
    /// order.
    pub open spec fn update_cmd(self, msg: CommandOutput) -> (ModelState, Seq<Effect>) {
        match msg {
            CommandOutput::AdapterInitResult(Ok(_)) => (
                ModelState { adapter: true, ..self },
                seq![Effect::StartGattServices, Effect::LoadKnownDevices],
            ),
            CommandOutput::AdapterInitResult(Err(_)) => (self, Seq::empty()),
            CommandOutput::GattServicesResult(Ok(_)) => (
                ModelState { gatt_server: true, ..self },
                Seq::empty(),
            ),
            CommandOutput::GattServicesResult(Err(_)) => (
                self,
                seq![Effect::Emit(Output::Toast(GATT_SERVER_FAILURE))],
            ),
            CommandOutput::KnownDevices(loaded) => self.known_devices_loaded(loaded@),
        }
    }

    /// The model after `msg` went to the peripheral that has `address`, and
    /// the effects of `msg`. Nothing happens if the address is not listed.
    pub open spec fn update_device(self, address: PeripheralAddress, msg: DeviceInput) -> (
        ModelState,
        Seq<Effect>,
    ) {
        match position_of(self.devices, address) {
            Some(index) => self.delivered(index, msg),
            None => (self, Seq::empty()),
        }
    }

    /// The model after the mailbox message `msg`, and the effects of `msg`.
    pub open spec fn dispatch(self, msg: Message) -> (ModelState, Seq<Effect>) {
        match msg {
            Message::Input(input) => self.update(input),
            Message::Command(output) => self.update_cmd(output),
            Message::Device(address, input) => self.update_device(address, input),
        }
    }
}

/// The orchestrator.
pub struct Model {
    devices: DeviceRegistry,
    adapter: bool,
    gatt_server: bool,
    scanning: bool,
}

impl View for Model {
    type V = ModelState;

    closed spec fn view(&self) -> ModelState {
        ModelState {
            devices: self.devices@,
            adapter: self.adapter,
            gatt_server: self.gatt_server,
            scanning: self.scanning,
        }
    }
}

impl Model {
    /// The invariant of the orchestrator, which every handler keeps.
    pub open spec fn wf(&self) -> bool {
        self@.wf()
    }

    /// The orchestrator at startup, and its first effect: to make the
    /// adapter ready.
    pub fn init() -> (start: (Model, Vec<Effect>))
        ensures
            start.0@ == ModelState::initial(),
            start.0.wf(),
            start.1@ == ModelState::initial().update(Input::AdapterInit).1,
    {
        let mut model = Model {
            devices: DeviceRegistry::new(),
            adapter: false,
            gatt_server: false,
            scanning: false,
        };
        let effects = model.update(Input::AdapterInit);
        (model, effects)
    }

    /// Stops the scan if one runs.
    fn cancel_scan(&mut self) -> (effects: Vec<Effect>)
        requires
            old(self).wf(),
        ensures
            final(self).wf(),
            final(self)@ == old(self)@.scan_cancelled().0,
            effects@ == old(self)@.scan_cancelled().1,
    {
        let mut effects = Vec::new();
        if self.scanning {
            self.scanning = false;
            effects.push(Effect::AbortScan);
        }
        effects
    }

    /// Starts a scan on an empty list, unless a scan runs already or the
    /// adapter is unavailable.
    fn start_scan(&mut self) -> (effects: Vec<Effect>)
        requires
            old(self).wf(),
        ensures
            final(self).wf(),
            final(self)@ == old(self)@.scan_started().0,
            effects@ == old(self)@.scan_started().1,
    {
        let mut effects = Vec::new();
        if self.adapter && !self.scanning {
            self.devices.clear();
            self.scanning = true;
            effects.push(Effect::StartScan);
        }
        effects
    }

    /// Hands `msg` to the peripheral at `index`, if that place is on the
    /// list.
    fn deliver(&mut self, index: usize, msg: DeviceInput) -> (effects: Vec<Effect>)
        requires
            old(self).wf(),
        ensures
            final(self).wf(),
            final(self)@ == old(self)@.delivered(index as int, msg).0,
            effects@ == old(self)@.delivered(index as int, msg).1,
    {
        let mut effects = Vec::new();
        let report = match msg {
            DeviceInput::StateUpdated(_) => true,
            _ => false,
        };
        if self.adapter || report {
            if let Some(info) = self.devices.get(index) {
                let address = info.address;
                match self.devices.send(index, msg) {
                    Some(DeviceTask::Connect) => effects.push(Effect::Connect(address)),
                    Some(DeviceTask::Disconnect) => effects.push(Effect::Disconnect(address)),
                    None => {},
                }
            }
        }
        effects
    }

    /// Chooses the peripheral at `index`: stops the scan, then requests the
    /// connection.
    fn select(&mut self, index: i32) -> (effects: Vec<Effect>)
        requires
            old(self).wf(),
        ensures
            final(self).wf(),
            final(self)@ == old(self)@.selected(index as int).0,
            effects@ == old(self)@.selected(index as int).1,
    {
        let mut effects = self.cancel_scan();
        if index >= 0 {
            let mut connect = self.deliver(index as usize, DeviceInput::Connect);
            effects.append(&mut connect);
        }
        effects
    }

    /// Handles a message from the front-end, from the scan, or from a listed
    /// peripheral.
    pub fn update(&mut self, msg: Input) -> (effects: Vec<Effect>)
        requires
            old(self).wf(),
        ensures
            final(self).wf(),
            final(self)@ == old(self)@.update(msg).0,
            effects@ == old(self)@.update(msg).1,
    {
        match msg {
            Input::AdapterInit => {
                let mut effects = Vec::new();
                effects.push(Effect::InitAdapter);
                effects
            },
            Input::ScanToggled => {
                if self.scanning {
                    self.cancel_scan()
                } else {
                    self.start_scan()
                }
            },
            Input::ScanFailed => {
                self.scanning = false;
                Vec::new()
            },
            Input::DeviceInfoReady(info) => {
                self.devices.upsert_front(info);
                Vec::new()
            },
            Input::DeviceAdded(address) => {
                let mut effects = Vec::new();
                if self.adapter {
                    effects.push(Effect::ProbeDevice(address));
                }
                effects
            },
            Input::DeviceRemoved(address) => {
                self.devices.remove_by_address(address);
                Vec::new()
            },
            Input::DeviceSelected(index) => self.select(index),
            Input::DeviceConnected(address) => {
                let mut effects = Vec::new();
                effects.push(Effect::Emit(Output::DeviceConnected(address)));
                effects
            },
            Input::DeviceDisconnected(address) => {
                let mut effects = Vec::new();
                effects.push(Effect::Emit(Output::DeviceDisconnected(address)));
                effects
            },
        }
    }

    /// Lists the loaded peripherals at the back, in their order.
    fn append_all(&mut self, loaded: Vec<DeviceInfo>)
        requires
            old(self).wf(),
        ensures
            final(self).wf(),
            final(self)@ == (ModelState {
                devices: appended_all(old(self)@.devices, loaded@),
                ..old(self)@
            }),
    {
        let ghost before = self.devices@;
        let ghost all = loaded@;
        for info in it: loaded
            invariant
                self.devices.wf(),
                self.devices@ == appended_all(before, all.take(it.index() as int)),
                self.adapter == old(self).adapter,
                self.gatt_server == old(self).gatt_server,
                self.scanning == old(self).scanning,
                it.seq() == all,
        {
            proof {
                let k = it.index() as int;
                assert(all.take(k + 1).drop_last() =~= all.take(k));
                assert(all.take(k + 1).last() == info);
            }
            self.devices.append_known(info);
        }
        proof {
            assert(all.take(all.len() as int) =~= all);
        }
    }

    /// Handles the result of an operation that was started at the adapter.
    pub fn update_cmd(&mut self, msg: CommandOutput) -> (effects: Vec<Effect>)
        requires
            old(self).wf(),
        ensures
            final(self).wf(),
            final(self)@ == old(self)@.update_cmd(msg).0,
            effects@ == old(self)@.update_cmd(msg).1,
    {
        match msg {
            CommandOutput::AdapterInitResult(Ok(_)) => {
                self.adapter = true;
                let mut effects = Vec::new();
                effects.push(Effect::StartGattServices);
                effects.push(Effect::LoadKnownDevices);
                effects
            },
            CommandOutput::AdapterInitResult(Err(_)) => Vec::new(),
            CommandOutput::GattServicesResult(Ok(_)) => {
                self.gatt_server = true;
                Vec::new()
            },
            CommandOutput::GattServicesResult(Err(_)) => {
                let mut effects = Vec::new();
                effects.push(Effect::Emit(Output::Toast(GATT_SERVER_FAILURE)));
                effects
            },
            CommandOutput::KnownDevices(loaded) => {
                let connected = connected_among(&loaded);
                self.append_all(loaded);
                match auto_select(connected, &self.devices) {
                    AutoSelection::ReportConnected(address) => {
                        let mut effects = Vec::new();
                        if self.adapter {
                            effects.push(Effect::Emit(Output::DeviceConnected(address)));
                        }
                        effects
                    },
                    AutoSelection::Scan => self.start_scan(),
                    AutoSelection::ConnectOnly => self.select(0),
                    AutoSelection::Wait => Vec::new(),
                }
            },
        }
    }

    /// Handles a message to the listed peripheral that has `address`. The
    /// message is dropped if the address is not listed.
    pub fn update_device(&mut self, address: PeripheralAddress, msg: DeviceInput) -> (effects: Vec<
        Effect,
    >)
        requires
            old(self).wf(),
        ensures
            final(self).wf(),
            final(self)@ == old(self)@.update_device(address, msg).0,
            effects@ == old(self)@.update_device(address, msg).1,
    {
        match self.devices.position(address) {
            Some(index) => self.deliver(index, msg),
            None => Vec::new(),
        }
    }

    /// Handles the next message of the mailbox.
    pub fn dispatch(&mut self, msg: Message) -> (effects: Vec<Effect>)
        requires
            old(self).wf(),
        ensures
            final(self).wf(),
            final(self)@ == old(self)@.dispatch(msg).0,
            effects@ == old(self)@.dispatch(msg).1,
    {
        match msg {
            Message::Input(input) => self.update(input),
            Message::Command(output) => self.update_cmd(output),
            Message::Device(address, input) => self.update_device(address, input),
        }
    }

    /// The registry of listed peripherals.
    pub fn devices(&self) -> (devices: &DeviceRegistry)
        ensures
            devices@ == self@.devices,
    {
        &self.devices
    }

    /// Whether the radio adapter is available. While it is not, the
    /// front-end shows that no adapter was found and offers a retry.
    pub fn adapter_available(&self) -> (available: bool)
        ensures
            available == self@.adapter,
    {
        self.adapter
    }

    /// Whether the local service endpoint runs.
    pub fn gatt_server_running(&self) -> (running: bool)
        ensures
            running == self@.gatt_server,
    {
        self.gatt_server
    }

    /// Whether the discovery task runs.
    pub fn is_scanning(&self) -> (scanning: bool)
        ensures
            scanning == self@.scanning,
    {
        self.scanning
    }
}

} // verus!
