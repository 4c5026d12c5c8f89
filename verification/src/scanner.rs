//! What the discovery task makes of the discovery stream.
//!
//! The task opens the stream and hands on, one at a time, what the stream
//! delivers. It tells the orchestrator which peripherals appeared and
//! disappeared and never touches the registry itself. The task ends when the
//! stream cannot be opened or breaks off; it then tells the orchestrator that
//! the scan failed.

use vstd::prelude::*;
use crate::address::PeripheralAddress;
use crate::device::DeviceInfo;
use crate::messages::Input;

verus! {

/// What happens to the discovery stream.
#[derive(Clone, Copy, Debug, PartialEq, Eq)]
pub enum ScanEvent {
    /// The stream is open.
    Opened,
    /// The stream could not be opened.
    OpenFailed,
    /// A peripheral with this address appeared.
    DeviceAdded(PeripheralAddress),
    /// The peripheral with this address disappeared.
    DeviceRemoved(PeripheralAddress),
    /// A property of the adapter changed.
    PropertyChanged,
    /// The stream broke off.
    Closed,
}

/// What the discovery task does after an event.
#[derive(Debug, PartialEq, Eq)]
pub struct ScanStep {
    /// The message for the orchestrator, if the event calls for one.
    pub post: Option<Input>,
    /// Whether the task goes on to the next event.
    pub proceed: bool,
}

/// The message that `event` calls for.
pub open spec fn scan_message(event: ScanEvent) -> Option<Input> {
    match event {
        ScanEvent::DeviceAdded(address) => Some(Input::DeviceAdded(address)),
        ScanEvent::DeviceRemoved(address) => Some(Input::DeviceRemoved(address)),
        ScanEvent::OpenFailed | ScanEvent::Closed => Some(Input::ScanFailed),
        ScanEvent::Opened | ScanEvent::PropertyChanged => None,
    }
}

/// Whether `event` ends the discovery task.
pub open spec fn scan_ends(event: ScanEvent) -> bool {
    event is OpenFailed || event is Closed
}

/// Decides what the discovery task does after `event`.
pub fn scan_step(event: ScanEvent) -> (step: ScanStep)
    ensures
        step.post == scan_message(event),
        step.proceed == !scan_ends(event),
{
    match event {
        ScanEvent::Opened => ScanStep { post: None, proceed: true },
        ScanEvent::OpenFailed => ScanStep { post: Some(Input::ScanFailed), proceed: false },
        ScanEvent::DeviceAdded(address) => ScanStep {
            post: Some(Input::DeviceAdded(address)),
            proceed: true,
        },
        ScanEvent::DeviceRemoved(address) => ScanStep {
            post: Some(Input::DeviceRemoved(address)),
            proceed: true,
        },
        ScanEvent::PropertyChanged => ScanStep { post: None, proceed: true },
        ScanEvent::Closed => ScanStep { post: Some(Input::ScanFailed), proceed: false },
    }
}

/// Decides what becomes of a peripheral that appeared, once it was probed:
/// it is announced to the orchestrator if it is compatible and its summary
/// could be read, and passed over otherwise.
pub fn probe_finished(compatible: bool, summary: Option<DeviceInfo>) -> (post: Option<Input>)
    ensures
        post == match summary {
            Some(info) if compatible => Some(Input::DeviceInfoReady(info)),
            _ => None,
        },
{
    match summary {
        Some(info) => if compatible {
            Some(Input::DeviceInfoReady(info))
        } else {
            None
        },
        None => None,
    }
}

} // verus!
