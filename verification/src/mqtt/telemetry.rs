//! The envelope in which a ground station hands on a received frame.

use crate::time::Timestamp;
use vstd::prelude::*;

verus! {

/// One received frame: the station that received it, when, and the bytes as
/// they came. The bytes are not decoded or checked here.
#[derive(Debug)]
pub struct TelemetryMessage {
    pub ground_station_id: String,
    pub timestamp: Timestamp,
    pub payload: Vec<u8>,
}

impl TelemetryMessage {
    /// Wraps the three values as they are.
    pub fn new(ground_station_id: String, timestamp: Timestamp, payload: Vec<u8>) -> (m:
        TelemetryMessage)
        ensures
            m == (TelemetryMessage { ground_station_id, timestamp, payload }),
    {
        TelemetryMessage { ground_station_id, timestamp, payload }
    }
}

} // verus!
