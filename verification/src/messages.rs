//! The messages that the orchestrator takes and the effects that it asks
//! for.
//!
//! Two classes of messages reach the orchestrator: `Input`, which holds the
//! commands of the front-end together with what the scan and the listed
//! peripherals report, and `CommandOutput`, which holds the results of the
//! operations that the orchestrator started at the adapter. A third kind,
//! `DeviceInput`, goes to one listed peripheral. `Message` is the union of
//! the three, as they lie in the mailbox.

use vstd::prelude::*;
use crate::address::PeripheralAddress;
use crate::device::{DeviceInfo, DeviceInput, DeviceOutput};

verus! {

/// Why the radio adapter could not be made ready.
#[derive(Clone, Copy, Debug, PartialEq, Eq, Structural)]
pub enum AdapterError {
    /// No radio is present, or the wireless stack gave no session.
    NoRadio,
    /// The radio refused to power on.
    PowerRefused,
}

/// Why the local service endpoint did not start. The cause is of no
/// consequence to the orchestrator.
#[derive(Clone, Copy, Debug, PartialEq, Eq, Structural)]
pub struct ServiceError {}

/// A message to the orchestrator from the front-end, from the scan, or from
/// a listed peripheral.
#[derive(Debug, PartialEq, Eq)]
pub enum Input {
    /// Make the adapter ready; sent at startup and on a manual retry.
    AdapterInit,
    /// Start a scan, or stop the one that runs.
    ScanToggled,
    /// The scan broke off.
    ScanFailed,
    /// A peripheral that the scan found passed the compatibility check, and
    /// its summary was read.
    DeviceInfoReady(DeviceInfo),
    /// The scan saw a peripheral appear.
    DeviceAdded(PeripheralAddress),
    /// The scan saw a peripheral disappear.
    DeviceRemoved(PeripheralAddress),
    /// The user chose the peripheral at this place of the list.
    DeviceSelected(i32),
    /// A listed peripheral reports that it is connected.
    DeviceConnected(PeripheralAddress),
    /// A listed peripheral reports that it is no longer connected.
    DeviceDisconnected(PeripheralAddress),
}

/// An event that the orchestrator emits to the front-end.
#[derive(Clone, Copy, Debug, PartialEq, Eq)]
pub enum Output {
    DeviceConnected(PeripheralAddress),
    DeviceDisconnected(PeripheralAddress),
    /// A short notice to show to the user.
    Toast(&'static str),
}

/// The result of an operation that the orchestrator started at the adapter.
#[derive(Debug, PartialEq, Eq)]
pub enum CommandOutput {
    AdapterInitResult(Result<(), AdapterError>),
    GattServicesResult(Result<(), ServiceError>),
    /// The peripherals that were known before this session, all loaded.
    KnownDevices(Vec<DeviceInfo>),
}

/// A message as it lies in the mailbox of the orchestrator.
#[derive(Debug, PartialEq, Eq)]
pub enum Message {
    Input(Input),
    Command(CommandOutput),
    /// A message to the listed peripheral that has this address.
    Device(PeripheralAddress, DeviceInput),
}

/// Something that the orchestrator asks the surrounding program to do.
#[derive(Clone, Copy, Debug, PartialEq, Eq)]
pub enum Effect {
    /// Acquire a session with the wireless stack, select the default radio
    /// and power it on; answer with `CommandOutput::AdapterInitResult`.
    InitAdapter,
    /// Start the local service endpoint; answer with
    /// `CommandOutput::GattServicesResult`.
    StartGattServices,
    /// Read the summaries of the peripherals that were known before; answer
    /// with `CommandOutput::KnownDevices`.
    LoadKnownDevices,
    /// Start the discovery task.
    StartScan,
    /// Abort the discovery task.
    AbortScan,
    /// Check the appeared peripheral for compatibility and read its summary;
    /// answer with `Input::DeviceInfoReady` if it is compatible.
    ProbeDevice(PeripheralAddress),
    /// Connect to the peripheral.
    Connect(PeripheralAddress),
    /// Disconnect from the peripheral.
    Disconnect(PeripheralAddress),
    /// Hand the event to the front-end.
    Emit(Output),
}

/// The message by which the orchestrator learns of `output`.
pub open spec fn parent_input(output: DeviceOutput) -> Input {
    match output {
        DeviceOutput::Connected(address) => Input::DeviceConnected(address),
        DeviceOutput::Disconnected(address) => Input::DeviceDisconnected(address),
    }
}

impl DeviceInfo {
    /// Turns the notification of a listed peripheral into the message that
    /// tells the orchestrator of it. Every notification is passed on.
    pub fn output_to_parent_input(output: DeviceOutput) -> (input: Option<Input>)
        ensures
            input == Some(parent_input(output)),
    {
        Some(
            match output {
                DeviceOutput::Connected(address) => Input::DeviceConnected(address),
                DeviceOutput::Disconnected(address) => Input::DeviceDisconnected(address),
            },
        )
    }
}

} // verus!
