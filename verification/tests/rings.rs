use xhci::error::Error;
use xhci::ring::{CommandRing, EventRing, EventRingSegmentTableEntry, TransferRing};
use xhci::runtime::{
    EventRingDequeuePointerRegister, EventRingSegmentTableBaseAddressRegister,
    EventRingSegmentTableSizeRegister, InterrupterManagementRegister,
    InterrupterModerationRegister, InterrupterRegisterSet,
};
use xhci::trb::{Block, Type};

fn noop_command() -> Block {
    // TRB Type 23 (No Op Command) in dword 3 bits 10..=15.
    Block { dw0: 0, dw1: 0, dw2: 0, dw3: 23 << 10 }
}

fn normal_transfer(tag: u32) -> Block {
    Block { dw0: tag, dw1: 0, dw2: 0, dw3: 1 << 10 }
}

fn event_block(tag: u32, cycle: bool) -> Block {
    // TRB Type 32 (Transfer Event) with the given cycle bit.
    Block { dw0: tag, dw1: 0, dw2: 0, dw3: (32 << 10) | (cycle as u32) }
}

fn zero_interrupter() -> InterrupterRegisterSet {
    InterrupterRegisterSet {
        iman: InterrupterManagementRegister(0),
        imod: InterrupterModerationRegister(0),
        erstsz: EventRingSegmentTableSizeRegister(0),
        erstba: EventRingSegmentTableBaseAddressRegister(0),
        erdp: EventRingDequeuePointerRegister(0),
    }
}

#[test]
fn command_ring_fills_slots_then_links() {
    let base: u64 = 0x1000;
    let mut ring = CommandRing::new(4, base);
    assert!(ring.is_init());
    assert!(ring.cycle_bit());

    let b = noop_command();
    assert_eq!(ring.push(b), Ok(0x1000));
    assert_eq!(ring.push(b), Ok(0x1010));
    assert_eq!(ring.push(b), Ok(0x1020));

    // Slots 0..=2 hold the payloads with cycle bit 1.
    for i in 0..3 {
        let w = ring.read_block(0, i);
        assert_eq!(w.dw3, (23 << 10) | 1);
        assert!(w.cycle_bit());
    }
    // Slot 3 holds the Link TRB back to the segment base, Toggle Cycle
    // set, written with the old cycle bit.
    let link = ring.read_block(0, 3);
    assert_eq!(link.trb_type(), Some(Type::Link));
    assert_eq!(link.dw0, base as u32);
    assert_eq!(link.dw1, 0);
    assert_eq!(link.dw3, 0x1802 | 1);

    // The third push wrapped: the internal cycle bit flipped.
    assert!(!ring.cycle_bit());

    // The fourth push lands on slot 0 of the same segment, cycle bit 0.
    assert_eq!(ring.push(b), Ok(0x1000));
    let w = ring.read_block(0, 0);
    assert_eq!(w.dw3, 23 << 10);
    assert!(!w.cycle_bit());
}

#[test]
fn command_ring_rejects_foreign_trb_types() {
    let mut ring = CommandRing::new(4, 0x1000);
    // A Transfer Event is not a command.
    assert_eq!(ring.push(event_block(0, false)), Err(Error::InvalidTrbType));
    // A Normal TRB belongs to transfer rings.
    assert_eq!(ring.push(normal_transfer(0)), Err(Error::InvalidTrbType));
    // An all-zero block has no valid TRB type at all.
    assert_eq!(ring.push(Block::new([0; 4])), Err(Error::InvalidTrbType));
}

#[test]
fn transfer_ring_accepts_transfer_trbs() {
    let mut ring = TransferRing::new(8, 0x2000);
    assert_eq!(ring.push(normal_transfer(7)), Ok(0x2000));
    assert_eq!(ring.push(noop_command()), Err(Error::InvalidTrbType));
    let w = ring.read_block(0, 0);
    assert_eq!(w.dw0, 7);
    assert_eq!(w.dw3, (1 << 10) | 1);
}

#[test]
fn push_on_uninitialized_ring_fails() {
    let mut cmd = CommandRing::new_uninit();
    assert!(!cmd.is_init());
    assert_eq!(cmd.push(noop_command()), Err(Error::Uninitialized));
    let mut tr = TransferRing::new_uninit();
    assert_eq!(tr.push(normal_transfer(0)), Err(Error::Uninitialized));
}

#[test]
fn fresh_segments_carry_complement_cycle_bit() {
    let ring = TransferRing::new(4, 0x4000);
    for i in 0..4 {
        let w = ring.read_block(0, i);
        assert_eq!(w, Block { dw0: 0, dw1: 0, dw2: 0, dw3: 0 });
    }
}

#[test]
fn cycle_toggles_once_per_full_loop() {
    // Two segments of three slots: one loop is 2 * (3 - 1) = 4 pushes.
    let mut ring = TransferRing::new_uninit();
    ring.add_segment(3, 0x5000);
    ring.add_segment(3, 0x6000);
    let b = normal_transfer(1);

    assert_eq!(ring.push(b), Ok(0x5000));
    assert!(ring.cycle_bit());
    // The second push writes the first segment's Link TRB (no toggle) and
    // crosses to segment 1.
    assert_eq!(ring.push(b), Ok(0x5010));
    assert!(ring.cycle_bit());
    let link0 = ring.read_block(0, 2);
    assert_eq!(link0.trb_type(), Some(Type::Link));
    assert_eq!(link0.dw0, 0x6000);
    assert_eq!(link0.dw3, 0x1800 | 1);

    assert_eq!(ring.push(b), Ok(0x6000));
    assert!(ring.cycle_bit());
    // The fourth push writes the wrapping Link TRB with Toggle Cycle and
    // flips the cycle bit: exactly once per loop.
    assert_eq!(ring.push(b), Ok(0x6010));
    assert!(!ring.cycle_bit());
    let link1 = ring.read_block(1, 2);
    assert_eq!(link1.dw0, 0x5000);
    assert_eq!(link1.dw3, 0x1802 | 1);

    // The next full loop flips it back.
    for _ in 0..4 {
        ring.push(b).unwrap();
    }
    assert!(ring.cycle_bit());
}

#[test]
fn event_ring_initial_pop_is_empty() {
    let mut er = EventRing::new(zero_interrupter(), 0x2000, 8, 0x3000).unwrap();
    assert!(er.is_init());
    // Freshly zeroed buffer: every cycle bit is the complement of C.
    assert_eq!(er.pop(), Ok(None));
    assert_eq!(er.pop(), Ok(None));
}

#[test]
fn event_ring_publishes_table_and_erdp() {
    let er = EventRing::new(zero_interrupter(), 0x2000, 8, 0x3000).unwrap();
    let intr = er.interrupter();
    assert_eq!(intr.erstsz.get(), 1);
    assert_eq!(intr.erstba.get(), 0x2000);
    assert_eq!(intr.erdp.event_ring_dequeue_pointer(), 0x3000);
    assert_eq!(intr.erdp.dequeue_erst_segment_index(), 0);
    let entry = er.segment_table_entry(0);
    assert_eq!(entry.ring_segment_base_address(), 0x3000);
    assert_eq!(entry.ring_segment_size(), 8);
    assert_eq!(entry.ring_segment_bound_address(), 0x3000 + 8 * 16);
}

#[test]
fn event_ring_pop_returns_published_blocks() {
    let mut er = EventRing::new(zero_interrupter(), 0x2000, 8, 0x3000).unwrap();

    // Seed block 0 with cycle = 1: pop returns it and advances erdp by 16.
    er.write_block(0, 0, event_block(0xa, true));
    assert_eq!(er.pop(), Ok(Some(event_block(0xa, true))));
    assert_eq!(er.interrupter().erdp.event_ring_dequeue_pointer(), 0x3010);

    // Block 1 still carries cycle = 0: no new event.
    assert_eq!(er.pop(), Ok(None));
    assert_eq!(er.interrupter().erdp.event_ring_dequeue_pointer(), 0x3010);

    // Publish block 1: pop returns it.
    er.write_block(0, 1, event_block(0xb, true));
    assert_eq!(er.pop(), Ok(Some(event_block(0xb, true))));
    assert_eq!(er.interrupter().erdp.event_ring_dequeue_pointer(), 0x3020);
}

#[test]
fn event_ring_traversal_flips_cycle_once() {
    let mut er = EventRing::new(zero_interrupter(), 0x2000, 2, 0x3000).unwrap();
    er.add_segment(2, 0x4000).unwrap();
    assert!(er.cycle_bit());

    // Publish all four slots with cycle 1 and consume them.
    er.write_block(0, 0, event_block(1, true));
    er.write_block(0, 1, event_block(2, true));
    er.write_block(1, 0, event_block(3, true));
    er.write_block(1, 1, event_block(4, true));

    assert_eq!(er.pop(), Ok(Some(event_block(1, true))));
    assert!(er.cycle_bit());
    assert_eq!(er.pop(), Ok(Some(event_block(2, true))));
    // Crossing into segment 1 does not flip the cycle bit.
    assert!(er.cycle_bit());
    assert_eq!(er.interrupter().erdp.dequeue_erst_segment_index(), 1);
    assert_eq!(er.interrupter().erdp.event_ring_dequeue_pointer(), 0x4000);
    assert_eq!(er.pop(), Ok(Some(event_block(3, true))));
    assert!(er.cycle_bit());
    // Wrapping back to segment 0 flips it: exactly once per traversal.
    assert_eq!(er.pop(), Ok(Some(event_block(4, true))));
    assert!(!er.cycle_bit());
    assert_eq!(er.interrupter().erdp.dequeue_erst_segment_index(), 0);
    assert_eq!(er.interrupter().erdp.event_ring_dequeue_pointer(), 0x3000);

    // The old generation (cycle 1) is now stale.
    assert_eq!(er.pop(), Ok(None));
}

#[test]
fn event_ring_pop_preserves_event_handler_busy() {
    let mut intr = zero_interrupter();
    intr.erdp = EventRingDequeuePointerRegister(1 << 3);
    let mut er = EventRing::new(intr, 0x2000, 4, 0x3000).unwrap();
    er.write_block(0, 0, event_block(9, true));
    assert_eq!(er.pop(), Ok(Some(event_block(9, true))));
    assert!(er.interrupter().erdp.event_handler_busy());
}

#[test]
fn event_ring_segment_limits() {
    let mut er = EventRing::new_uninit(zero_interrupter(), 0x2000);
    assert_eq!(er.pop(), Err(Error::Uninitialized));
    assert_eq!(er.add_segment(65536, 0x3000), Err(Error::SegmentLimitExceeded));
    assert_eq!(er.add_segment(4, 0x3008), Err(Error::Misaligned));
    for i in 0..8 {
        assert_eq!(er.add_segment(4, 0x3000 + 0x1000 * i), Ok(()));
    }
    assert_eq!(er.add_segment(4, 0xb000), Err(Error::SegmentLimitExceeded));
}

#[test]
fn event_ring_new_propagates_failures() {
    assert!(matches!(
        EventRing::new(zero_interrupter(), 0x2000, 70000, 0x3000),
        Err(Error::SegmentLimitExceeded)
    ));
    assert!(matches!(
        EventRing::new(zero_interrupter(), 0x2000, 8, 0x3004),
        Err(Error::Misaligned)
    ));
}

#[test]
fn segment_table_entry_round_trip() {
    let mut entry = EventRingSegmentTableEntry::new(0xdead_0000, 64);
    assert_eq!(entry.ring_segment_base_address(), 0xdead_0000);
    assert_eq!(entry.ring_segment_size(), 64);
    assert_eq!(entry.len(), 64);
    assert_eq!(entry.ring_segment_bound_address(), 0xdead_0000 + 64 * 16);
    assert_eq!(entry.set_ring_segment_base_address(0x1234_5678), Err(Error::Misaligned));
    assert_eq!(entry.set_ring_segment_base_address(0x1_2345_6740), Ok(()));
    assert_eq!(entry.ring_segment_base_address(), 0x1_2345_6740);
    entry.set_ring_segment_size(16);
    assert_eq!(entry.ring_segment_size(), 16);
}

#[test]
fn block_accessors() {
    let mut b = Block::new([1, 2, 3, 0]);
    assert_eq!(b.into_raw(), [1, 2, 3, 0]);
    assert_eq!(b.trb_type(), None);
    b.set_cycle_bit();
    assert!(b.cycle_bit());
    b.set_chain_bit();
    assert!(b.chain_bit());
    assert_eq!(b.dw3, 0b10001);
    b.clear_cycle_bit();
    assert!(!b.cycle_bit());
    assert!(b.chain_bit());
    let z = Block::zero_with_cycle_bit(true);
    assert_eq!(z, Block { dw0: 0, dw1: 0, dw2: 0, dw3: 1 });
}

#[test]
fn multi_segment_producer_addresses() {
    let mut ring = CommandRing::new_uninit();
    ring.add_segment(4, 0x1000);
    ring.add_segment(4, 0x8000);
    assert_eq!(ring.segment_count(), 2);
    assert_eq!(ring.segment_base(0), 0x1000);
    assert_eq!(ring.segment_base(1), 0x8000);
    assert_eq!(ring.segment_size(1), 4);
    let b = noop_command();
    ring.push(b).unwrap();
    ring.push(b).unwrap();
    // The third push writes segment 0's Link TRB, which points at
    // segment 1, and continues there.
    ring.push(b).unwrap();
    let link = ring.read_block(0, 3);
    assert_eq!(link.dw0, 0x8000);
    assert_eq!(link.dw3, 0x1800 | 1);
    assert_eq!(ring.push(b), Ok(0x8000));
}
