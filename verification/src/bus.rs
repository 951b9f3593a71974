//! Bus negotiation policy: which buses to activate and how many output
//! channels to drive.
//!
//! The queries themselves are dispatch calls the embedding application
//! makes; the answers come back here as plain values and every decision
//! about them is verified.

use vstd::prelude::*;

use crate::abi::v3_bus_info;

verus! {

/// Default activation policy for one bus: activate it exactly when the
/// host has a non-zero channel budget for the direction and the bus itself
/// reports a non-zero channel count.  An instance with no negotiated
/// output channels is left fully deactivated on the output side.
pub fn should_activate_bus(host_channels: i32, bus_channels: i32) -> (r: bool)
    ensures
        r <==> host_channels > 0 && bus_channels > 0,
{
    host_channels > 0 && bus_channels > 0
}

/// Picks the output channel count to drive, from the reported output bus
/// count and the first output bus's description (when one was readable).
///
/// A rejected or empty bus query falls back to stereo; otherwise the first
/// output bus's channel count is used when it is positive, and stereo
/// again when it is not.
pub fn detect_output_channels(bus_count: i32, first_bus: Option<&v3_bus_info>) -> (r: i32)
    ensures
        bus_count <= 0 ==> r == 2,
        bus_count > 0 ==> match first_bus {
            Some(info) => r == if info.channel_count > 0 {
                info.channel_count
            } else {
                2
            },
            None => r == 2,
        },
        r > 0,
{
    if bus_count <= 0 {
        return 2;
    }
    match first_bus {
        Some(info) => if info.channel_count > 0 {
            info.channel_count
        } else {
            2
        },
        None => 2,
    }
}

/// The default activation routine's plan: one decision per reported bus,
/// in bus order, each by the activation policy for the direction's channel
/// budget.
pub fn activation_plan(host_channels: i32, buses: &Vec<v3_bus_info>) -> (r: Vec<bool>)
    ensures
        r@.len() == buses@.len(),
        forall|i: int|
            0 <= i < buses@.len() ==> r@[i] == (host_channels > 0 && buses@[i].channel_count > 0),
{
    let n = buses.len();
    let mut r: Vec<bool> = Vec::new();
    let mut i: usize = 0;
    while i < n
        invariant
            n == buses@.len(),
            i <= n,
            r@.len() == i,
            forall|j: int|
                0 <= j < i ==> r@[j] == (host_channels > 0 && buses@[j].channel_count > 0),
        decreases n - i,
    {
        r.push(should_activate_bus(host_channels, buses[i].channel_count));
        i += 1;
    }
    r
}

/// Whether a re-application of speaker arrangements is owed at all: an
/// empty arrangement list on both sides is a no-op, not an error.
pub fn arrangements_needed(input_buses: usize, output_buses: usize) -> (r: bool)
    ensures
        r <==> input_buses > 0 || output_buses > 0,
{
    input_buses > 0 || output_buses > 0
}

} // verus!
