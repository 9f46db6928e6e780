//! Radio slot addressing: which register file slots hold the channel id,
//! send and receive flags, and the four payload values of each radio.
//!
//! The mapping is a lookup from radio number to slot tags, validated against
//! the slot layout by contract: each radio occupies a contiguous block of
//! `RADIO_STRIDE` slots starting at the block of radio zero.
use vstd::prelude::*;
use crate::slots::{slot_index_spec, SystemState};

verus! {

/// Number of independently addressable radios.
pub const MAX_RADIOS: usize = 8;

/// Slots per radio block.
pub const RADIO_STRIDE: usize = 7;

/// Index of the first slot of radio zero.
pub open spec fn radio_base_spec() -> int {
    slot_index_spec(SystemState::Radio0Channel)
}

/// The slot tags of one radio.
pub struct RadioIndices {
    /// Slot holding the channel id the radio is tuned to.
    pub channel: SystemState,
    /// Slot holding the send flag.
    pub send: SystemState,
    /// Slot holding the receive flag.
    pub receive: SystemState,
    /// Slots holding the four payload values.
    pub data: [SystemState; 4],
}

/// The slot tags of radio `sel`: a contiguous block of `RADIO_STRIDE` slots,
/// laid out as channel, send flag, receive flag, then the four payload slots.
pub fn radio_indices(sel: usize) -> (r: RadioIndices)
    requires
        sel < MAX_RADIOS,
    ensures
        slot_index_spec(r.channel) == radio_base_spec() + RADIO_STRIDE * sel,
        slot_index_spec(r.send) == radio_base_spec() + RADIO_STRIDE * sel + 1,
        slot_index_spec(r.receive) == radio_base_spec() + RADIO_STRIDE * sel + 2,
        forall|i: int| 0 <= i < 4
            ==> slot_index_spec(r.data[i]) == radio_base_spec() + RADIO_STRIDE * sel + 3 + i,
{
    match sel {
        0 => RadioIndices {
            channel: SystemState::Radio0Channel,
            send: SystemState::Radio0Send,
            receive: SystemState::Radio0Receive,
            data: [
                SystemState::Radio0Data0,
                SystemState::Radio0Data1,
                SystemState::Radio0Data2,
                SystemState::Radio0Data3,
            ],
        },
        1 => RadioIndices {
            channel: SystemState::Radio1Channel,
            send: SystemState::Radio1Send,
            receive: SystemState::Radio1Receive,
            data: [
                SystemState::Radio1Data0,
                SystemState::Radio1Data1,
                SystemState::Radio1Data2,
                SystemState::Radio1Data3,
            ],
        },
        2 => RadioIndices {
            channel: SystemState::Radio2Channel,
            send: SystemState::Radio2Send,
            receive: SystemState::Radio2Receive,
            data: [
                SystemState::Radio2Data0,
                SystemState::Radio2Data1,
                SystemState::Radio2Data2,
                SystemState::Radio2Data3,
            ],
        },
        3 => RadioIndices {
            channel: SystemState::Radio3Channel,
            send: SystemState::Radio3Send,
            receive: SystemState::Radio3Receive,
            data: [
                SystemState::Radio3Data0,
                SystemState::Radio3Data1,
                SystemState::Radio3Data2,
                SystemState::Radio3Data3,
            ],
        },
        4 => RadioIndices {
            channel: SystemState::Radio4Channel,
            send: SystemState::Radio4Send,
            receive: SystemState::Radio4Receive,
            data: [
                SystemState::Radio4Data0,
                SystemState::Radio4Data1,
                SystemState::Radio4Data2,
                SystemState::Radio4Data3,
            ],
        },
        5 => RadioIndices {
            channel: SystemState::Radio5Channel,
            send: SystemState::Radio5Send,
            receive: SystemState::Radio5Receive,
            data: [
                SystemState::Radio5Data0,
                SystemState::Radio5Data1,
                SystemState::Radio5Data2,
                SystemState::Radio5Data3,
            ],
        },
        6 => RadioIndices {
            channel: SystemState::Radio6Channel,
            send: SystemState::Radio6Send,
            receive: SystemState::Radio6Receive,
            data: [
                SystemState::Radio6Data0,
                SystemState::Radio6Data1,
                SystemState::Radio6Data2,
                SystemState::Radio6Data3,
            ],
        },
        7 => RadioIndices {
            channel: SystemState::Radio7Channel,
            send: SystemState::Radio7Send,
            receive: SystemState::Radio7Receive,
            data: [
                SystemState::Radio7Data0,
                SystemState::Radio7Data1,
                SystemState::Radio7Data2,
                SystemState::Radio7Data3,
            ],
        },
        _ => RadioIndices {
            channel: SystemState::Radio0Channel,
            send: SystemState::Radio0Send,
            receive: SystemState::Radio0Receive,
            data: [
                SystemState::Radio0Data0,
                SystemState::Radio0Data1,
                SystemState::Radio0Data2,
                SystemState::Radio0Data3,
            ],
        },
    }
}

} // verus!
