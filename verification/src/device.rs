//! A peripheral as the orchestrator lists it, and its connection lifecycle.
//!
//! A peripheral rests in `Disconnected` or `Connected`. A request to connect
//! or to disconnect moves it to `Transitioning` and asks for one operation on
//! the radio link; the report of that operation moves it on to a resting
//! state. While an operation is pending, further requests are ignored, so at
//! most one operation per peripheral is in flight.

use vstd::prelude::*;
use crate::address::PeripheralAddress;

verus! {

/// Where a peripheral stands in its connection lifecycle.
#[derive(Clone, Copy, Debug, PartialEq, Eq, Structural)]
pub enum DeviceState {
    Disconnected,
    Transitioning,
    Connected,
}

/// A message to one listed peripheral.
#[derive(Clone, Copy, Debug, PartialEq, Eq, Structural)]
pub enum DeviceInput {
    /// The user asks for a connection.
    Connect,
    /// The user asks to end the connection.
    Disconnect,
    /// A pending operation reports the state it ended in.
    StateUpdated(DeviceState),
}

/// A notification from one listed peripheral to the orchestrator.
#[derive(Clone, Copy, Debug, PartialEq, Eq)]
pub enum DeviceOutput {
    Connected(PeripheralAddress),
    Disconnected(PeripheralAddress),
}

/// An operation on the radio link that a request asks for.
#[derive(Clone, Copy, Debug, PartialEq, Eq, Structural)]
pub enum DeviceTask {
    Connect,
    Disconnect,
}

/// Why an operation on the radio link did not go through. The cause is of no
/// consequence to the lifecycle.
#[derive(Clone, Copy, Debug, PartialEq, Eq, Structural)]
pub struct ConnectionError {}

/// What a finished operation reports.
#[derive(Clone, Copy, Debug, PartialEq, Eq)]
pub struct TaskReport {
    /// The message for the peripheral that the operation ran on.
    pub input: DeviceInput,
    /// The notification for the orchestrator, present after a success.
    pub output: Option<DeviceOutput>,
}

/// Summary of a peripheral.
#[derive(Clone, Debug, PartialEq, Eq)]
pub struct DeviceInfo {
    pub address: PeripheralAddress,
    /// Name shown to the user.
    pub alias: String,
    /// Signal strength, known only for a peripheral that a scan has just
    /// found, not for one that was known before.
    pub rssi: Option<i16>,
    pub state: DeviceState,
}

/// The state that `msg` leaves a peripheral in that was in `state`.
///
/// A request takes a resting peripheral to `Transitioning`. A report takes a
/// peripheral in `Transitioning` to the resting state it names. Everything
/// else changes nothing: a request while an operation is pending, a report
/// that no request preceded, a report that names `Transitioning`.
pub open spec fn next_state(state: DeviceState, msg: DeviceInput) -> DeviceState {
    match msg {
        DeviceInput::Connect | DeviceInput::Disconnect => DeviceState::Transitioning,
        DeviceInput::StateUpdated(reported) => if state == DeviceState::Transitioning
            && reported != DeviceState::Transitioning {
            reported
        } else {
            state
        },
    }
}

/// The operation that `msg` asks for of a peripheral that was in `state`.
pub open spec fn requested_task(state: DeviceState, msg: DeviceInput) -> Option<DeviceTask> {
    if state == DeviceState::Transitioning {
        None
    } else {
        match msg {
            DeviceInput::Connect => Some(DeviceTask::Connect),
            DeviceInput::Disconnect => Some(DeviceTask::Disconnect),
            DeviceInput::StateUpdated(_) => None,
        }
    }
}

/// The resting state that `task` ends in.
pub open spec fn reported_state(task: DeviceTask, succeeded: bool) -> DeviceState {
    match task {
        DeviceTask::Connect => if succeeded {
            DeviceState::Connected
        } else {
            DeviceState::Disconnected
        },
        DeviceTask::Disconnect => if succeeded {
            DeviceState::Disconnected
        } else {
            DeviceState::Connected
        },
    }
}

/// The notification that follows `task` on the peripheral at `address`.
pub open spec fn reported_output(
    task: DeviceTask,
    address: PeripheralAddress,
    succeeded: bool,
) -> Option<DeviceOutput> {
    if succeeded {
        match task {
            DeviceTask::Connect => Some(DeviceOutput::Connected(address)),
            DeviceTask::Disconnect => Some(DeviceOutput::Disconnected(address)),
        }
    } else {
        None
    }
}

impl DeviceTask {
    /// What this operation reports once it has ended on the peripheral at
    /// `address`. A success names the state that was asked for and notifies
    /// the orchestrator; a failure names the opposite state and notifies
    /// nobody.
    pub fn finished(self, address: PeripheralAddress, outcome: Result<(), ConnectionError>) -> (report:
        TaskReport)
        ensures
            report.input == DeviceInput::StateUpdated(reported_state(self, outcome is Ok)),
            report.output == reported_output(self, address, outcome is Ok),
    {
        let succeeded = outcome.is_ok();
        match self {
            DeviceTask::Connect => if succeeded {
                TaskReport {
                    input: DeviceInput::StateUpdated(DeviceState::Connected),
                    output: Some(DeviceOutput::Connected(address)),
                }
            } else {
                TaskReport {
                    input: DeviceInput::StateUpdated(DeviceState::Disconnected),
                    output: None,
                }
            },
            DeviceTask::Disconnect => if succeeded {
                TaskReport {
                    input: DeviceInput::StateUpdated(DeviceState::Disconnected),
                    output: Some(DeviceOutput::Disconnected(address)),
                }
            } else {
                TaskReport { input: DeviceInput::StateUpdated(DeviceState::Connected), output: None }
            },
        }
    }
}

impl DeviceInfo {
    /// The summary of a peripheral from what was read of it: it is
    /// `Connected` if the link is up, `Disconnected` if not.
    pub fn new(address: PeripheralAddress, alias: String, rssi: Option<i16>, connected: bool) -> (info:
        Self)
        ensures
            info.address == address,
            info.alias == alias,
            info.rssi == rssi,
            info.state == if connected {
                DeviceState::Connected
            } else {
                DeviceState::Disconnected
            },
    {
        let state = if connected {
            DeviceState::Connected
        } else {
            DeviceState::Disconnected
        };
        DeviceInfo { address, alias, rssi, state }
    }

    /// This summary with another state.
    pub open spec fn with_state(self, state: DeviceState) -> DeviceInfo {
        DeviceInfo { address: self.address, alias: self.alias, rssi: self.rssi, state }
    }

    /// This summary after `msg`.
    pub open spec fn after(self, msg: DeviceInput) -> DeviceInfo {
        self.with_state(next_state(self.state, msg))
    }

    /// Handles one message: moves the peripheral to its next state and
    /// returns the operation to start on the radio link, if `msg` asks for
    /// one.
    pub fn update(&mut self, msg: DeviceInput) -> (task: Option<DeviceTask>)
        ensures
            *final(self) == old(self).after(msg),
            task == requested_task(old(self).state, msg),
    {
        match msg {
            DeviceInput::Connect => {
                if self.state == DeviceState::Transitioning {
                    None
                } else {
                    self.state = DeviceState::Transitioning;
                    Some(DeviceTask::Connect)
                }
            },
            DeviceInput::Disconnect => {
                if self.state == DeviceState::Transitioning {
                    None
                } else {
                    self.state = DeviceState::Transitioning;
                    Some(DeviceTask::Disconnect)
                }
            },
            DeviceInput::StateUpdated(reported) => {
                if self.state == DeviceState::Transitioning && reported
                    != DeviceState::Transitioning {
                    self.state = reported;
                }
                None
            },
        }
    }
}

} // verus!
