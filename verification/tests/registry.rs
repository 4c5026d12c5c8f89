use watchmate::address::PeripheralAddress;
use watchmate::device::{DeviceInfo, DeviceInput, DeviceState, DeviceTask};
use watchmate::registry::DeviceRegistry;

fn address(last: u8) -> PeripheralAddress {
    PeripheralAddress::new([0xC0, 0xFF, 0xEE, 0x00, 0x00, last])
}

fn found(last: u8, alias: &str, rssi: i16) -> DeviceInfo {
    DeviceInfo::new(address(last), alias.to_string(), Some(rssi), false)
}

fn known(last: u8, alias: &str, connected: bool) -> DeviceInfo {
    DeviceInfo::new(address(last), alias.to_string(), None, connected)
}

fn addresses(registry: &DeviceRegistry) -> Vec<PeripheralAddress> {
    let mut listed = Vec::new();
    let mut index = 0;
    while let Some(info) = registry.get(index) {
        listed.push(info.address);
        index += 1;
    }
    listed
}

#[test]
fn new_registry_is_empty() {
    let registry = DeviceRegistry::new();
    assert_eq!(registry.len(), 0);
    assert!(registry.is_empty());
    assert!(registry.get(0).is_none());
    assert!(registry.find_connected().is_none());
    assert_eq!(registry.position(address(1)), None);
}

#[test]
fn upsert_front_puts_the_latest_find_first() {
    let mut registry = DeviceRegistry::new();
    registry.upsert_front(found(1, "first", -40));
    registry.upsert_front(found(2, "second", -50));
    registry.upsert_front(found(3, "third", -60));
    assert_eq!(registry.len(), 3);
    assert!(!registry.is_empty());
    assert_eq!(addresses(&registry), vec![address(3), address(2), address(1)]);
    assert_eq!(registry.get(0), Some(&found(3, "third", -60)));
    assert_eq!(registry.get(2), Some(&found(1, "first", -40)));
    assert!(registry.get(3).is_none());
}

#[test]
fn upsert_front_of_a_listed_address_replaces_and_moves_to_front() {
    let mut registry = DeviceRegistry::new();
    registry.upsert_front(found(1, "one", -40));
    registry.upsert_front(found(2, "two", -50));
    registry.upsert_front(found(3, "three", -60));
    registry.upsert_front(found(1, "one again", -35));
    assert_eq!(registry.len(), 3);
    assert_eq!(addresses(&registry), vec![address(1), address(3), address(2)]);
    assert_eq!(registry.get(0), Some(&found(1, "one again", -35)));
}

#[test]
fn upsert_front_of_the_front_entry_keeps_one_entry() {
    let mut registry = DeviceRegistry::new();
    registry.upsert_front(found(7, "seven", -70));
    registry.upsert_front(found(7, "seven", -71));
    assert_eq!(registry.len(), 1);
    assert_eq!(registry.get(0).unwrap().rssi, Some(-71));
}

#[test]
fn append_known_puts_entries_at_the_back_in_order() {
    let mut registry = DeviceRegistry::new();
    registry.upsert_front(found(9, "found", -40));
    registry.append_known(known(1, "a", false));
    registry.append_known(known(2, "b", true));
    assert_eq!(addresses(&registry), vec![address(9), address(1), address(2)]);
    assert_eq!(registry.get(1).unwrap().rssi, None);
    assert_eq!(registry.get(2).unwrap().state, DeviceState::Connected);
}

#[test]
fn append_known_of_a_listed_address_replaces_and_moves_to_back() {
    let mut registry = DeviceRegistry::new();
    registry.append_known(known(1, "a", false));
    registry.append_known(known(2, "b", false));
    registry.append_known(known(1, "a later", true));
    assert_eq!(addresses(&registry), vec![address(2), address(1)]);
    assert_eq!(registry.get(1), Some(&known(1, "a later", true)));
}

#[test]
fn remove_by_address_takes_the_entry_and_keeps_the_order() {
    let mut registry = DeviceRegistry::new();
    registry.append_known(known(1, "a", false));
    registry.append_known(known(2, "b", false));
    registry.append_known(known(3, "c", false));
    registry.remove_by_address(address(2));
    assert_eq!(addresses(&registry), vec![address(1), address(3)]);
    registry.remove_by_address(address(1));
    assert_eq!(addresses(&registry), vec![address(3)]);
    registry.remove_by_address(address(3));
    assert!(registry.is_empty());
}

#[test]
fn remove_by_address_of_an_absent_address_changes_nothing() {
    let mut registry = DeviceRegistry::new();
    registry.remove_by_address(address(5));
    assert!(registry.is_empty());
    registry.append_known(known(1, "a", false));
    registry.append_known(known(2, "b", false));
    registry.remove_by_address(address(5));
    assert_eq!(addresses(&registry), vec![address(1), address(2)]);
    assert_eq!(registry.get(0), Some(&known(1, "a", false)));
}

#[test]
fn upsert_then_remove_restores_an_empty_registry() {
    let mut registry = DeviceRegistry::new();
    registry.upsert_front(found(4, "four", -44));
    assert_eq!(registry.len(), 1);
    registry.remove_by_address(address(4));
    assert_eq!(registry.len(), 0);
    assert!(registry.is_empty());
}

#[test]
fn upsert_then_remove_restores_a_registry_without_that_address() {
    let mut registry = DeviceRegistry::new();
    registry.append_known(known(1, "a", false));
    registry.append_known(known(2, "b", true));
    registry.upsert_front(found(4, "four", -44));
    registry.remove_by_address(address(4));
    assert_eq!(registry.len(), 2);
    assert_eq!(registry.get(0), Some(&known(1, "a", false)));
    assert_eq!(registry.get(1), Some(&known(2, "b", true)));
}

#[test]
fn find_connected_returns_the_first_connected_entry() {
    let mut registry = DeviceRegistry::new();
    registry.append_known(known(1, "a", false));
    assert!(registry.find_connected().is_none());
    registry.append_known(known(2, "b", true));
    registry.append_known(known(3, "c", true));
    assert_eq!(registry.find_connected(), Some(&known(2, "b", true)));
}

#[test]
fn find_connected_passes_over_a_transitioning_entry() {
    let mut registry = DeviceRegistry::new();
    registry.append_known(known(1, "a", false));
    assert_eq!(registry.send(0, DeviceInput::Connect), Some(DeviceTask::Connect));
    assert_eq!(registry.get(0).unwrap().state, DeviceState::Transitioning);
    assert!(registry.find_connected().is_none());
}

#[test]
fn position_gives_the_place_of_an_address() {
    let mut registry = DeviceRegistry::new();
    registry.append_known(known(1, "a", false));
    registry.append_known(known(2, "b", false));
    registry.append_known(known(3, "c", false));
    assert_eq!(registry.position(address(1)), Some(0));
    assert_eq!(registry.position(address(3)), Some(2));
    assert_eq!(registry.position(address(4)), None);
}

#[test]
fn clear_empties_the_registry() {
    let mut registry = DeviceRegistry::new();
    registry.append_known(known(1, "a", false));
    registry.upsert_front(found(2, "b", -50));
    registry.clear();
    assert!(registry.is_empty());
    assert_eq!(registry.len(), 0);
    registry.clear();
    assert!(registry.is_empty());
}

#[test]
fn send_changes_only_the_state_of_the_addressed_entry() {
    let mut registry = DeviceRegistry::new();
    registry.append_known(known(1, "a", false));
    registry.append_known(known(2, "b", true));
    let task = registry.send(1, DeviceInput::Disconnect);
    assert_eq!(task, Some(DeviceTask::Disconnect));
    assert_eq!(registry.get(0), Some(&known(1, "a", false)));
    let second = registry.get(1).unwrap();
    assert_eq!(second.address, address(2));
    assert_eq!(second.alias, "b");
    assert_eq!(second.rssi, None);
    assert_eq!(second.state, DeviceState::Transitioning);
    let report = registry.send(1, DeviceInput::StateUpdated(DeviceState::Disconnected));
    assert_eq!(report, None);
    assert_eq!(registry.get(1), Some(&known(2, "b", false)));
}

#[test]
fn addresses_differ_by_any_octet() {
    let base = PeripheralAddress::new([1, 2, 3, 4, 5, 6]);
    assert_eq!(base, PeripheralAddress::new([1, 2, 3, 4, 5, 6]));
    assert_eq!(base.octets(), [1, 2, 3, 4, 5, 6]);
    for changed in 0..6 {
        let mut octets = [1, 2, 3, 4, 5, 6];
        octets[changed] = 0xFF;
        assert_ne!(base, PeripheralAddress::new(octets));
    }
}
