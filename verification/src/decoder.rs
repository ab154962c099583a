//! What the decoder is to do when it is asked for its next step.
//!
//! Bytes reach the decoder in chunks that do not line up with the container
//! or with its packets. The decoder therefore queues them, and before each
//! step decides from what it has queued whether to wait for more, to find
//! out the container, or to decode a packet: the container is probed only
//! when enough bytes are queued to tell it, and a packet is read only when
//! enough are queued to hold one, so that neither is cut short by an empty
//! queue. Once the source has ended, what is queued is all there will be.

use vstd::prelude::*;

verus! {

/// Bytes that must be queued before the container is probed.
pub const PROBE_BYTES: usize = 65536;

/// Bytes that must be queued before a packet is read.
pub const PACKET_BYTES: usize = 16384;

/// What the decoder does in a step.
#[derive(Clone, Copy, Debug, PartialEq, Eq, Structural)]
pub enum DecodePlan {
    /// Nothing: the source ended before it delivered a single byte to probe.
    /// The decoder has nothing pending.
    Drained,
    /// Nothing yet: more bytes are needed.
    Wait,
    /// Find out the container and the codec, then plan again.
    Probe,
    /// Read and decode the next packet.
    Decode,
}

/// The plan for a step, given the number of bytes queued, whether the source
/// has ended, and whether the container has been probed.
pub open spec fn spec_decode_plan(queued: nat, ended: bool, probed: bool) -> DecodePlan {
    if probed {
        if ended || queued >= PACKET_BYTES {
            DecodePlan::Decode
        } else {
            DecodePlan::Wait
        }
    } else if ended {
        if queued == 0 {
            DecodePlan::Drained
        } else {
            DecodePlan::Probe
        }
    } else if queued >= PROBE_BYTES {
        DecodePlan::Probe
    } else {
        DecodePlan::Wait
    }
}

/// The plan for the decoder's next step.
pub fn decode_plan(queued: usize, ended: bool, probed: bool) -> (plan: DecodePlan)
    ensures
        plan == spec_decode_plan(queued as nat, ended, probed),
{
    if probed {
        if ended || queued >= PACKET_BYTES {
            DecodePlan::Decode
        } else {
            DecodePlan::Wait
        }
    } else if ended {
        if queued == 0 {
            DecodePlan::Drained
        } else {
            DecodePlan::Probe
        }
    } else if queued >= PROBE_BYTES {
        DecodePlan::Probe
    } else {
        DecodePlan::Wait
    }
}

/// The decoder waits only for bytes that can still come: once the source has
/// ended it never waits, so a stream that has ended is decoded to its end.
pub proof fn ended_source_is_never_waited_for(queued: nat, probed: bool)
    ensures
        spec_decode_plan(queued, true, probed) != DecodePlan::Wait,
{
}

/// More bytes never turn work into waiting: if the decoder has work to do
/// with what is queued, it has work to do with more.
pub proof fn more_bytes_never_stall(queued: nat, more: nat, ended: bool, probed: bool)
    requires
        queued <= more,
        spec_decode_plan(queued, ended, probed) != DecodePlan::Wait,
        spec_decode_plan(queued, ended, probed) != DecodePlan::Drained,
    ensures
        spec_decode_plan(more, ended, probed) == spec_decode_plan(queued, ended, probed),
{
}

} // verus!
