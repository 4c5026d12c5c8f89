use watchmate::address::PeripheralAddress;
use watchmate::device::{
    ConnectionError, DeviceInfo, DeviceInput, DeviceOutput, DeviceState, DeviceTask, TaskReport,
};
use watchmate::messages::Input;

fn address() -> PeripheralAddress {
    PeripheralAddress::new([0xD2, 0x11, 0x5E, 0x90, 0x0A, 0x42])
}

fn device(state: DeviceState) -> DeviceInfo {
    let mut info = DeviceInfo::new(address(), "InfiniTime".to_string(), Some(-57), false);
    info.state = state;
    info
}

#[test]
fn new_summary_of_a_connected_peripheral_is_connected() {
    let info = DeviceInfo::new(address(), "InfiniTime".to_string(), None, true);
    assert_eq!(info.address, address());
    assert_eq!(info.alias, "InfiniTime");
    assert_eq!(info.rssi, None);
    assert_eq!(info.state, DeviceState::Connected);
}

#[test]
fn new_summary_of_an_unconnected_peripheral_is_disconnected() {
    let info = DeviceInfo::new(address(), "Pine".to_string(), Some(-80), false);
    assert_eq!(info.alias, "Pine");
    assert_eq!(info.rssi, Some(-80));
    assert_eq!(info.state, DeviceState::Disconnected);
}

#[test]
fn connect_request_enters_transitioning_and_asks_for_a_connect() {
    let mut info = device(DeviceState::Disconnected);
    assert_eq!(info.update(DeviceInput::Connect), Some(DeviceTask::Connect));
    assert_eq!(info.state, DeviceState::Transitioning);
    assert_eq!(info.address, address());
    assert_eq!(info.alias, "InfiniTime");
    assert_eq!(info.rssi, Some(-57));
}

#[test]
fn connect_path_succeeds_through_transitioning() {
    let mut info = device(DeviceState::Disconnected);
    let task = info.update(DeviceInput::Connect).unwrap();
    assert_eq!(info.state, DeviceState::Transitioning);
    let report = task.finished(address(), Ok(()));
    assert_eq!(
        report,
        TaskReport {
            input: DeviceInput::StateUpdated(DeviceState::Connected),
            output: Some(DeviceOutput::Connected(address())),
        }
    );
    assert_eq!(info.update(report.input), None);
    assert_eq!(info.state, DeviceState::Connected);
}

#[test]
fn connect_path_fails_back_to_disconnected() {
    let mut info = device(DeviceState::Disconnected);
    let task = info.update(DeviceInput::Connect).unwrap();
    let report = task.finished(address(), Err(ConnectionError {}));
    assert_eq!(report.input, DeviceInput::StateUpdated(DeviceState::Disconnected));
    assert_eq!(report.output, None);
    info.update(report.input);
    assert_eq!(info.state, DeviceState::Disconnected);
}

#[test]
fn disconnect_path_succeeds_through_transitioning() {
    let mut info = device(DeviceState::Connected);
    let task = info.update(DeviceInput::Disconnect).unwrap();
    assert_eq!(task, DeviceTask::Disconnect);
    assert_eq!(info.state, DeviceState::Transitioning);
    let report = task.finished(address(), Ok(()));
    assert_eq!(report.input, DeviceInput::StateUpdated(DeviceState::Disconnected));
    assert_eq!(report.output, Some(DeviceOutput::Disconnected(address())));
    info.update(report.input);
    assert_eq!(info.state, DeviceState::Disconnected);
}

#[test]
fn disconnect_path_fails_back_to_connected() {
    let mut info = device(DeviceState::Connected);
    let task = info.update(DeviceInput::Disconnect).unwrap();
    let report = task.finished(address(), Err(ConnectionError {}));
    assert_eq!(report.input, DeviceInput::StateUpdated(DeviceState::Connected));
    assert_eq!(report.output, None);
    info.update(report.input);
    assert_eq!(info.state, DeviceState::Connected);
}

#[test]
fn connect_request_on_a_connected_peripheral_connects_again() {
    let mut info = device(DeviceState::Connected);
    assert_eq!(info.update(DeviceInput::Connect), Some(DeviceTask::Connect));
    assert_eq!(info.state, DeviceState::Transitioning);
}

#[test]
fn requests_while_transitioning_are_ignored() {
    let mut info = device(DeviceState::Disconnected);
    assert_eq!(info.update(DeviceInput::Connect), Some(DeviceTask::Connect));
    assert_eq!(info.update(DeviceInput::Connect), None);
    assert_eq!(info.state, DeviceState::Transitioning);
    assert_eq!(info.update(DeviceInput::Disconnect), None);
    assert_eq!(info.state, DeviceState::Transitioning);
}

#[test]
fn report_without_a_pending_operation_is_ignored() {
    let mut info = device(DeviceState::Disconnected);
    assert_eq!(info.update(DeviceInput::StateUpdated(DeviceState::Connected)), None);
    assert_eq!(info.state, DeviceState::Disconnected);
    let mut info = device(DeviceState::Connected);
    assert_eq!(info.update(DeviceInput::StateUpdated(DeviceState::Disconnected)), None);
    assert_eq!(info.state, DeviceState::Connected);
}

#[test]
fn report_of_transitioning_is_ignored() {
    for state in [DeviceState::Disconnected, DeviceState::Transitioning, DeviceState::Connected] {
        let mut info = device(state);
        assert_eq!(info.update(DeviceInput::StateUpdated(DeviceState::Transitioning)), None);
        assert_eq!(info.state, state);
    }
}

#[test]
fn output_to_parent_input_passes_every_notification_on() {
    assert_eq!(
        DeviceInfo::output_to_parent_input(DeviceOutput::Connected(address())),
        Some(Input::DeviceConnected(address()))
    );
    assert_eq!(
        DeviceInfo::output_to_parent_input(DeviceOutput::Disconnected(address())),
        Some(Input::DeviceDisconnected(address()))
    );
}
