//! Tests for the TRB codec and the three ring kinds.

use devices::rings::{
    CommandRing, CompletionCode, EventRing, EventRingSegment, MalformedTrb, Trb, TransferRing,
    TrbType,
};

#[test]
fn test_trb_creation() {
    let mut trb = Trb::new(0x12345678, 0x100, 0);
    trb.set_trb_type(TrbType::Normal);
    trb.set_last(true);
    trb.set_cycle_bit(true);

    assert_eq!(trb.trb_type(), Some(TrbType::Normal));
    assert!(trb.is_last());
    assert!(trb.cycle_bit());
}

#[test]
fn test_command_ring() {
    let mut ring = CommandRing::new();
    ring.init(0x10000, 256);

    assert!(ring.is_running());
    assert_eq!(ring.enqueue_ptr(), 0x10000);
}

#[test]
fn test_event_ring() {
    let mut ring = EventRing::new();
    let segment = EventRingSegment::new(0x20000, 16);
    ring.set_segments(vec![segment]);

    let event = Trb::new(0, 0, 0);
    assert!(ring.queue(event));
}

#[test]
fn test_trb_codec_round_trip() {
    // Decoding the encoding of a TRB yields the TRB back
    let mut trb = Trb::new(0xDEAD_BEEF_CAFE_F00D, 0x0102_0304, 0);
    trb.set_trb_type(TrbType::SetupStage);
    trb.set_cycle_bit(true);
    let bytes = trb.as_bytes();
    let decoded = Trb::from_bytes(&bytes);
    assert_eq!(decoded, trb);
    assert_eq!(bytes.len(), 16);
    // Little-endian: the low parameter byte comes first
    assert_eq!(bytes[0], 0x0D);
    assert_eq!(bytes[8], 0x04);
}

#[test]
fn test_trb_type_rejects_unknown() {
    // Unrecognized type codes are rejected, never coerced
    assert!(TrbType::try_from(0).is_err());
    assert!(TrbType::try_from(24).is_err());
    assert!(TrbType::try_from(31).is_err());
    assert!(TrbType::try_from(40).is_err());
    assert_eq!(TrbType::try_from(9), Ok(TrbType::EnableSlot));
    assert_eq!(TrbType::try_from(33), Ok(TrbType::CommandCompletion));
}

#[test]
fn test_command_ring_fifo() {
    // Queued TRBs come back in submission order; an empty ring yields
    // nothing
    let mut ring = CommandRing::new();
    let a = Trb::new(1, 0, 0);
    let b = Trb::new(2, 0, 0);
    let c = Trb::new(3, 0, 0);
    ring.queue(a);
    ring.queue(b);
    ring.queue(c);
    assert_eq!(ring.next().map(|t| t.parameter), Some(1));
    assert_eq!(ring.next().map(|t| t.parameter), Some(2));
    assert_eq!(ring.next().map(|t| t.parameter), Some(3));
    assert!(ring.next().is_none());
}

#[test]
fn test_transfer_ring_fifo() {
    let mut ring = TransferRing::new(1);
    assert!(ring.init(0x4000, 8));
    ring.queue(Trb::new(10, 0, 0));
    ring.queue(Trb::new(20, 0, 0));
    assert!(ring.has_pending());
    assert_eq!(ring.next().map(|t| t.parameter), Some(10));
    assert_eq!(ring.next().map(|t| t.parameter), Some(20));
    assert!(ring.next().is_none());
    assert!(!ring.has_pending());
}

#[test]
fn test_ring_init_rejects_zero() {
    // Zero-size and null-base rings are rejected at init
    let mut cmd = CommandRing::new();
    assert!(!cmd.init(0, 16));
    assert!(!cmd.init(0x1000, 0));
    assert!(!cmd.is_running());
    let mut tr = TransferRing::new(2);
    assert!(!tr.init(0, 16));
    assert!(!tr.init(0x1000, 0));
    assert!(tr.init(0x1000, 16));
}

#[test]
fn test_event_ring_cycle_toggles_once() {
    // Queuing exactly segment.size events into a single-segment ring
    // flips the producer cycle bit once; the next event carries the
    // flipped bit
    let mut ring = EventRing::new();
    ring.set_segments(vec![EventRingSegment::new(0x20000, 4)]);
    for _ in 0..4 {
        ring.queue(Trb::new(0, 0, 0));
    }
    // The first four events carry the initial cycle bit
    for _ in 0..4 {
        let ev = ring.next().unwrap();
        assert!(ev.cycle_bit());
    }
    // The fifth event carries the flipped bit
    ring.queue(Trb::new(0, 0, 0));
    let ev = ring.next().unwrap();
    assert!(!ev.cycle_bit());
}

#[test]
fn test_event_ring_dequeue_pointer() {
    // An address inside a segment resolves to its slot; one outside every
    // segment leaves the pointer unchanged
    let mut ring = EventRing::new();
    ring.set_segments(vec![
        EventRingSegment::new(0x1000, 4),
        EventRingSegment::new(0x8000, 4),
    ]);
    ring.set_dequeue_ptr(0x8020);
    assert_eq!(ring.dequeue_ptr(), 0x8020);
    ring.set_dequeue_ptr(0xF000);
    assert_eq!(ring.dequeue_ptr(), 0x8020);
    ring.set_dequeue_ptr(0x1010);
    assert_eq!(ring.dequeue_ptr(), 0x1010);
}

#[test]
fn test_completion_event_carries_parameter() {
    let ring = CommandRing::new();
    let command = Trb::new(0xABCD, 0, 0);
    let event = ring.create_completion_event(&command, 5, CompletionCode::Success);
    assert_eq!(event.parameter, 0xABCD);
    assert_eq!(event.trb_type(), Some(TrbType::CommandCompletion));
    assert_eq!(event.completion_code(), 1);
    assert_eq!(event.status & 0xFF, 5);
    assert!(event.cycle_bit());
}

#[test]
fn test_decode_rejects_malformed() {
    // A recognized type code decodes; an unrecognized one is rejected,
    // never coerced
    let mut valid = Trb::new(0x55, 0, 0);
    valid.set_trb_type(TrbType::Normal);
    let decoded = Trb::decode(&valid.encode()).unwrap();
    assert_eq!(decoded, valid);
    // Type code 0 is unrecognized
    let malformed = Trb::new(0x55, 0, 0);
    assert_eq!(Trb::decode(&malformed.encode()), Err(MalformedTrb));
    // Type code 31 is unrecognized too
    let mut gap = Trb::new(0, 0, 31 << 10);
    gap.set_cycle_bit(true);
    assert_eq!(Trb::decode(&gap.encode()), Err(MalformedTrb));
}

#[test]
fn test_transfer_event_length_masked() {
    // The residual length occupies status bits 0..17 only; bits above
    // never bleed into the completion code
    let ring = TransferRing::new(1);
    let trb = Trb::new(0x99, 0, 0);
    let event = ring.create_transfer_event(&trb, CompletionCode::Success, 0x200_0000);
    assert_eq!(event.completion_code(), 1);
    assert_eq!(event.transfer_length(), 0);
    let event = ring.create_transfer_event(&trb, CompletionCode::Success, 0x2_FFFF);
    assert_eq!(event.completion_code(), 1);
    assert_eq!(event.transfer_length(), 0xFFFF);
}

#[test]
fn test_transfer_event_fields() {
    let ring = TransferRing::new(3);
    let trb = Trb::new(0x77, 0, 0);
    let event = ring.create_transfer_event(&trb, CompletionCode::ShortPacket, 42);
    assert_eq!(event.parameter, 0x77);
    assert_eq!(event.trb_type(), Some(TrbType::TransferEvent));
    assert_eq!(event.completion_code(), 13);
    assert_eq!(event.transfer_length(), 42);
}
