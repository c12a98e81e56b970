//! Event-hub specific payload pieces that arrive with a delivery.

use vstd::prelude::*;

verus! {

/// System properties the hub attaches to a delivery: the identifier of
/// the device that produced the event.
pub struct EventHubPayloadSystemProperties {
    pub device_id: String,
}

} // verus!
