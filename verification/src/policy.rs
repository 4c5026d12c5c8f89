//! What the orchestrator does by itself once the peripherals that were known
//! before this session are loaded.
//!
//! The choice is made once, in this order: if one of the loaded peripherals
//! is already connected, it is reported as connected; else, if nothing is
//! listed, a scan starts; else, if exactly one peripheral is listed, a
//! connection to it is requested; else the user has to choose.

use vstd::prelude::*;
use crate::address::PeripheralAddress;
use crate::device::{DeviceInfo, DeviceState};
use crate::registry::{DeviceRegistry, first_connected, first_connected_from};

verus! {

/// The automatic action at startup.
#[derive(Clone, Copy, Debug, PartialEq, Eq)]
pub enum AutoSelection {
    /// Report this peripheral, which the platform had connected already.
    ReportConnected(PeripheralAddress),
    /// Nothing is listed: start a scan.
    Scan,
    /// One peripheral is listed: request a connection to it.
    ConnectOnly,
    /// Several peripherals are listed and none is connected: wait for the
    /// user.
    Wait,
}

/// The address of the first of `loaded` whose state is `Connected`.
pub open spec fn connected_address(loaded: Seq<DeviceInfo>) -> Option<PeripheralAddress> {
    match first_connected(loaded) {
        Some(index) => Some(loaded[index].address),
        None => None,
    }
}

/// The automatic action, given the address of a loaded peripheral that is
/// connected already, if there is one, and the number of peripherals listed
/// after the load.
pub open spec fn auto_selection(connected: Option<PeripheralAddress>, listed: nat) -> AutoSelection {
    match connected {
        Some(address) => AutoSelection::ReportConnected(address),
        None => if listed == 0 {
            AutoSelection::Scan
        } else if listed == 1 {
            AutoSelection::ConnectOnly
        } else {
            AutoSelection::Wait
        },
    }
}

/// The address of the first of `loaded` whose state is `Connected`.
pub fn connected_among(loaded: &Vec<DeviceInfo>) -> (connected: Option<PeripheralAddress>)
    ensures
        connected == connected_address(loaded@),
{
    let mut i: usize = 0;
    while i < loaded.len()
        invariant
            i <= loaded@.len(),
            first_connected(loaded@) == first_connected_from(loaded@, i as int),
        decreases loaded@.len() - i,
    {
        if loaded[i].state == DeviceState::Connected {
            return Some(loaded[i].address);
        }
        i += 1;
    }
    None
}

/// Chooses the automatic action at startup: `connected` is what
/// `connected_among` found in the loaded peripherals, and `registry` lists
/// the peripherals after the load.
pub fn auto_select(connected: Option<PeripheralAddress>, registry: &DeviceRegistry) -> (choice:
    AutoSelection)
    ensures
        choice == auto_selection(connected, registry@.len()),
{
    match connected {
        Some(address) => AutoSelection::ReportConnected(address),
        None => {
            if registry.is_empty() {
                AutoSelection::Scan
            } else if registry.len() == 1 {
                AutoSelection::ConnectOnly
            } else {
                AutoSelection::Wait
            }
        },
    }
}

} // verus!
