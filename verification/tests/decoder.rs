use radio::decoder::{decode_plan, DecodePlan, PACKET_BYTES, PROBE_BYTES};

#[test]
fn the_thresholds_are_as_documented() {
    assert_eq!(PROBE_BYTES, 64 * 1024);
    assert_eq!(PACKET_BYTES, 16 * 1024);
}

#[test]
fn the_container_is_probed_once_enough_is_queued() {
    assert_eq!(decode_plan(0, false, false), DecodePlan::Wait);
    assert_eq!(decode_plan(1, false, false), DecodePlan::Wait);
    assert_eq!(decode_plan(PACKET_BYTES, false, false), DecodePlan::Wait);
    assert_eq!(decode_plan(65535, false, false), DecodePlan::Wait);
    assert_eq!(decode_plan(65536, false, false), DecodePlan::Probe);
    assert_eq!(decode_plan(usize::MAX, false, false), DecodePlan::Probe);
}

#[test]
fn a_short_stream_is_probed_when_it_has_ended() {
    assert_eq!(decode_plan(1, true, false), DecodePlan::Probe);
    assert_eq!(decode_plan(100, true, false), DecodePlan::Probe);
    assert_eq!(decode_plan(65536, true, false), DecodePlan::Probe);
}

#[test]
fn a_stream_without_a_byte_is_drained_at_once() {
    assert_eq!(decode_plan(0, true, false), DecodePlan::Drained);
}

#[test]
fn a_packet_is_read_once_enough_is_queued() {
    assert_eq!(decode_plan(0, false, true), DecodePlan::Wait);
    assert_eq!(decode_plan(16383, false, true), DecodePlan::Wait);
    assert_eq!(decode_plan(16384, false, true), DecodePlan::Decode);
    assert_eq!(decode_plan(65536, false, true), DecodePlan::Decode);
}

#[test]
fn what_is_left_is_decoded_when_the_stream_has_ended() {
    assert_eq!(decode_plan(0, true, true), DecodePlan::Decode);
    assert_eq!(decode_plan(1, true, true), DecodePlan::Decode);
    assert_eq!(decode_plan(16383, true, true), DecodePlan::Decode);
    assert_eq!(decode_plan(16384, true, true), DecodePlan::Decode);
}

#[test]
fn an_ended_stream_is_never_waited_for() {
    for queued in [0, 1, 100, 16383, 16384, 65535, 65536, 1 << 20] {
        for probed in [false, true] {
            assert_ne!(decode_plan(queued, true, probed), DecodePlan::Wait);
        }
    }
}
