//! The Ring subsystem: Command and Transfer Rings on the producer side,
//! and the Event Ring on the consumer side.
//!
//! A ring is a cycle of 64-byte-aligned segments of 16-byte TRB slots.
//! Ring memory is owned by software and shared with the controller, which
//! addresses it through the segment base addresses the caller supplies;
//! the producer rings chain their segments with Link TRBs, the Event Ring
//! publishes its segments through an Event Ring Segment Table and one
//! Interrupter Register Set. For each ring, software keeps a cycle bit
//! `C`: fresh segment memory is filled with the complement of `C`, a
//! producer stamps `C` into every TRB it publishes, and a consumer accepts
//! a TRB only when the TRB's cycle bit equals `C`.

use vstd::prelude::*;

use crate::bits;
use crate::error::Error;
use crate::runtime::EventRingDequeuePointerRegister;
use crate::runtime::InterrupterRegisterSet;
use crate::trb;
use crate::trb::Block;

verus! {

/// The ring buffer base alignment.
pub const RING_BUF_BASE_ALIGN: u64 = 64;

/// The sequence of segment contents of `segs`.
pub open spec fn segs_view(segs: Vec<Vec<Block>>) -> Seq<Seq<Block>> {
    segs@.map_values(|s: Vec<Block>| s@)
}

/// The mathematical state of a producer (Command or Transfer) ring.
#[verifier::ext_equal]
pub struct ProducerRingView {
    /// The contents of each segment, a sequence of TRB slots.
    pub segs: Seq<Seq<Block>>,
    /// The base address of each segment.
    pub bases: Seq<u64>,
    /// The segment the next TRB will be written into.
    pub seg_cur: int,
    /// The slot the next TRB will be written into.
    pub block_cur: int,
    /// The producer cycle state.
    pub cycle: bool,
}

impl ProducerRingView {
    /// Structural validity. Every segment leaves its last slot for a Link
    /// TRB, so it holds at least two slots; bases are 64-byte aligned and
    /// the whole segment lies below the address-space limit; the enqueue
    /// position points at a non-Link slot of a live segment.
    pub open spec fn wf(self) -> bool {
        &&& self.segs.len() == self.bases.len()
        &&& forall|i: int|
            0 <= i < self.segs.len() ==> 2 <= (#[trigger] self.segs[i]).len() <= 65536
        &&& forall|i: int| 0 <= i < self.bases.len() ==> (#[trigger] self.bases[i]) % 64 == 0
        &&& forall|i: int|
            0 <= i < self.bases.len() ==> (#[trigger] self.bases[i]) + 16 * self.segs[i].len()
                <= u64::MAX
        &&& (self.segs.len() == 0 ==> self.seg_cur == 0 && self.block_cur == 0)
        &&& (self.segs.len() > 0 ==> 0 <= self.seg_cur < self.segs.len() && 0 <= self.block_cur
            < self.segs[self.seg_cur].len() - 1)
    }

    /// The address the next push will write to.
    pub open spec fn enqueue_address(self) -> int {
        self.bases[self.seg_cur] + 16 * self.block_cur
    }
}

/// The state after one successful push of `b`: the block, stamped with
/// the current cycle bit, lands in the current slot. If the slot before
/// the segment's last is now reached, a Link TRB to the next segment is
/// written into that last slot, with its Toggle Cycle bit set exactly
/// when the link wraps back to segment 0, and the enqueue position moves
/// to slot 0 of the next segment, flipping the cycle bit on a wrap.
pub open spec fn spec_push(v: ProducerRingView, b: Block) -> ProducerRingView
    recommends
        v.wf(),
        v.segs.len() > 0,
{
    let s = v.seg_cur;
    let k = v.block_cur;
    let seg_len = v.segs[s].len() as int;
    let written = v.segs.update(s, v.segs[s].update(k, trb::spec_with_cycle(b, v.cycle)));
    if k + 1 < seg_len - 1 {
        ProducerRingView { segs: written, block_cur: k + 1, ..v }
    } else {
        let next = if s + 1 == v.segs.len() as int {
            0int
        } else {
            s + 1
        };
        let toggle = next == 0;
        let link = trb::spec_with_cycle(trb::spec_link(v.bases[next], toggle), v.cycle);
        let written2 = written.update(s, written[s].update(seg_len - 1, link));
        ProducerRingView {
            segs: written2,
            seg_cur: next,
            block_cur: 0,
            cycle: if toggle {
                !v.cycle
            } else {
                v.cycle
            },
            ..v
        }
    }
}

/// The shared state and enqueue protocol of the producer rings.
struct ProducerRing {
    /// The contents of each ring segment: the image of the memory the
    /// controller reads.
    segs: Vec<Vec<Block>>,
    /// The base address of each segment, as the controller sees it.
    bases: Vec<u64>,
    /// Current segment index for push.
    seg_cur: usize,
    /// Current block index for push.
    block_cur: usize,
    /// Current cycle bit.
    cycle_bit: bool,
}

impl View for ProducerRing {
    type V = ProducerRingView;

    closed spec fn view(&self) -> ProducerRingView {
        ProducerRingView {
            segs: segs_view(self.segs),
            bases: self.bases@,
            seg_cur: self.seg_cur as int,
            block_cur: self.block_cur as int,
            cycle: self.cycle_bit,
        }
    }
}

/// Fills a fresh segment: `size` zero TRBs carrying cycle bit `cycle`.
fn zero_segment(size: usize, cycle: bool) -> (r: Vec<Block>)
    ensures
        r@ == Seq::new(size as nat, |i: int| trb::spec_zero_block(cycle)),
{
    let mut v: Vec<Block> = Vec::new();
    let mut k: usize = 0;
    while k < size
        invariant
            k <= size,
            v.len() == k,
            forall|i: int| 0 <= i < k ==> v@[i] == trb::spec_zero_block(cycle),
        decreases size - k,
    {
        v.push(Block::zero_with_cycle_bit(cycle));
        k += 1;
    }
    proof {
        assert(v@ =~= Seq::new(size as nat, |i: int| trb::spec_zero_block(cycle)));
    }
    v
}

impl ProducerRing {
    fn new_uninit() -> (r: Self)
        ensures
            r@.wf(),
            r@.segs.len() == 0,
            r@.cycle == true,
    {
        ProducerRing { segs: Vec::new(), bases: Vec::new(), seg_cur: 0, block_cur: 0, cycle_bit: true }
    }

    fn is_init(&self) -> (r: bool)
        ensures
            r == (self@.segs.len() > 0),
    {
        self.segs.len() > 0
    }

    fn cycle_bit(&self) -> (r: bool)
        ensures
            r == self@.cycle,
    {
        self.cycle_bit
    }

    fn segment_count(&self) -> (r: usize)
        ensures
            r == self@.segs.len(),
    {
        self.segs.len()
    }

    fn segment_base(&self, i: usize) -> (r: u64)
        requires
            i < self@.bases.len(),
        ensures
            r == self@.bases[i as int],
    {
        self.bases[i]
    }

    fn segment_size(&self, i: usize) -> (r: usize)
        requires
            i < self@.segs.len(),
        ensures
            r == self@.segs[i as int].len(),
    {
        self.segs[i].len()
    }

    fn read_block(&self, seg_index: usize, block_index: usize) -> (r: Block)
        requires
            seg_index < self@.segs.len(),
            block_index < self@.segs[seg_index as int].len(),
        ensures
            r == self@.segs[seg_index as int][block_index as int],
    {
        self.segs[seg_index][block_index]
    }

    fn add_segment(&mut self, size: usize, base: u64)
        requires
            old(self)@.wf(),
            2 <= size <= 65536,
            base % 64 == 0,
            base + 16 * size <= u64::MAX,
        ensures
            final(self)@.wf(),
            final(self)@.segs == old(self)@.segs.push(
                Seq::new(size as nat, |i: int| trb::spec_zero_block(!old(self)@.cycle)),
            ),
            final(self)@.bases == old(self)@.bases.push(base),
            final(self)@.seg_cur == old(self)@.seg_cur,
            final(self)@.block_cur == old(self)@.block_cur,
            final(self)@.cycle == old(self)@.cycle,
    {
        let seg = zero_segment(size, !self.cycle_bit);
        self.segs.push(seg);
        self.bases.push(base);
        proof {
            assert(self@.segs =~~= old(self)@.segs.push(
                Seq::new(size as nat, |i: int| trb::spec_zero_block(!old(self)@.cycle)),
            ));
        }
    }

    fn push_slot(&mut self, block: Block) -> (r: u64)
        requires
            old(self)@.wf(),
            old(self)@.segs.len() > 0,
        ensures
            final(self)@.wf(),
            r == old(self)@.enqueue_address(),
            final(self)@ == spec_push(old(self)@, block),
    {
        let ghost v0 = self@;
        let s: usize = self.seg_cur;
        let k: usize = self.block_cur;
        let seg_len: usize = self.segs[s].len();
        let addr: u64 = self.bases[s] + 16 * (k as u64);

        // Stamp the producer cycle bit into the block and publish it.
        let mut stamped = block;
        if self.cycle_bit {
            stamped.set_cycle_bit();
        } else {
            stamped.clear_cycle_bit();
        }
        self.segs[s][k] = stamped;
        self.block_cur = k + 1;

        if k + 1 == seg_len - 1 {
            // The next slot is the segment's last, reserved for the Link
            // TRB: write it, chain to the next segment, and flip the
            // cycle bit when the link wraps back to segment 0.
            let next: usize = if s == self.segs.len() - 1 {
                0
            } else {
                s + 1
            };
            let toggle: bool = next == 0;
            proof {
                bits::lemma_align64(self.bases@[next as int]);
            }
            let mut link = Block::link(self.bases[next], toggle);
            if self.cycle_bit {
                link.set_cycle_bit();
            } else {
                link.clear_cycle_bit();
            }
            self.segs[s][k + 1] = link;
            self.seg_cur = next;
            self.block_cur = 0;
            if toggle {
                self.cycle_bit = !self.cycle_bit;
            }
            proof {
                assert(self@.segs =~~= spec_push(v0, block).segs);
                assert(self@ =~= spec_push(v0, block));
            }
        } else {
            proof {
                assert(self@.segs =~~= spec_push(v0, block).segs);
                assert(self@ =~= spec_push(v0, block));
            }
        }
        addr
    }
}

/// A Command Ring: the producer ring software pushes Command TRBs onto.
pub struct CommandRing {
    inner: ProducerRing,
}

/// A Transfer Ring: the producer ring software pushes transfer TRBs onto.
pub struct TransferRing {
    inner: ProducerRing,
}

impl View for CommandRing {
    type V = ProducerRingView;

    closed spec fn view(&self) -> ProducerRingView {
        self.inner@
    }
}

impl View for TransferRing {
    type V = ProducerRingView;

    closed spec fn view(&self) -> ProducerRingView {
        self.inner@
    }
}

impl CommandRing {
    /// Creates an uninitialized ring with no segments allocated and the
    /// cycle bit starting at `true`.
    pub fn new_uninit() -> (r: Self)
        ensures
            r@.wf(),
            r@.segs.len() == 0,
            r@.cycle == true,
    {
        CommandRing { inner: ProducerRing::new_uninit() }
    }

    /// Creates a ring with a single segment of `size` slots whose memory
    /// the controller will address at `base`.
    pub fn new(size: usize, base: u64) -> (r: Self)
        requires
            2 <= size <= 65536,
            base % 64 == 0,
            base + 16 * size <= u64::MAX,
        ensures
            r@.wf(),
            r@.segs =~= seq![Seq::new(size as nat, |i: int| trb::spec_zero_block(false))],
            r@.bases =~= seq![base],
            r@.seg_cur == 0,
            r@.block_cur == 0,
            r@.cycle == true,
    {
        let mut r = Self::new_uninit();
        r.add_segment(size, base);
        r
    }

    /// Returns whether the ring has any segment to use.
    pub fn is_init(&self) -> (r: bool)
        ensures
            r == (self@.segs.len() > 0),
    {
        self.inner.is_init()
    }

    /// Returns the current producer cycle bit.
    pub fn cycle_bit(&self) -> (r: bool)
        ensures
            r == self@.cycle,
    {
        self.inner.cycle_bit()
    }

    /// Returns the number of segments.
    pub fn segment_count(&self) -> (r: usize)
        ensures
            r == self@.segs.len(),
    {
        self.inner.segment_count()
    }

    /// Returns the base address of the `i`th segment.
    pub fn segment_base(&self, i: usize) -> (r: u64)
        requires
            i < self@.bases.len(),
        ensures
            r == self@.bases[i as int],
    {
        self.inner.segment_base(i)
    }

    /// Returns the slot count of the `i`th segment.
    pub fn segment_size(&self, i: usize) -> (r: usize)
        requires
            i < self@.segs.len(),
        ensures
            r == self@.segs[i as int].len(),
    {
        self.inner.segment_size(i)
    }

    /// Reads back one TRB slot, as the controller would.
    pub fn read_block(&self, seg_index: usize, block_index: usize) -> (r: Block)
        requires
            seg_index < self@.segs.len(),
            block_index < self@.segs[seg_index as int].len(),
        ensures
            r == self@.segs[seg_index as int][block_index as int],
    {
        self.inner.read_block(seg_index, block_index)
    }

    /// Adds a segment of `size` slots at address `base` to the ring. Its
    /// memory is initialized to zero TRBs carrying the complement of the
    /// current cycle bit, so the controller sees them as not yet
    /// published.
    pub fn add_segment(&mut self, size: usize, base: u64)
        requires
            old(self)@.wf(),
            2 <= size <= 65536,
            base % 64 == 0,
            base + 16 * size <= u64::MAX,
        ensures
            final(self)@.wf(),
            final(self)@.segs == old(self)@.segs.push(
                Seq::new(size as nat, |i: int| trb::spec_zero_block(!old(self)@.cycle)),
            ),
            final(self)@.bases == old(self)@.bases.push(base),
            final(self)@.seg_cur == old(self)@.seg_cur,
            final(self)@.block_cur == old(self)@.block_cur,
            final(self)@.cycle == old(self)@.cycle,
    {
        self.inner.add_segment(size, base);
    }

    /// Pushes a block onto the ring, stamping the producer cycle bit into
    /// it, and returns the address the block was written to; the caller
    /// correlates that address with Command Completion Events. Only Command
    /// TRB types are accepted; a push onto a ring with no
    /// segments fails with `Uninitialized`.
    pub fn push(&mut self, block: Block) -> (r: Result<u64, Error>)
        requires
            old(self)@.wf(),
        ensures
            final(self)@.wf(),
            old(self)@.segs.len() == 0 ==> r == Err::<u64, Error>(Error::Uninitialized) && final(self)@ == old(self)@,
            old(self)@.segs.len() > 0 && !trb::spec_command_allowed(block) ==> r == Err::<u64, Error>(
                Error::InvalidTrbType,
            ) && final(self)@ == old(self)@,
            old(self)@.segs.len() > 0 && trb::spec_command_allowed(block) ==> r == Ok::<u64, Error>(
                old(self)@.enqueue_address() as u64,
            ) && final(self)@ == spec_push(old(self)@, block),
    {
        if !self.inner.is_init() {
            return Err(Error::Uninitialized);
        }
        if !trb::command_allowed(&block) {
            return Err(Error::InvalidTrbType);
        }
        Ok(self.inner.push_slot(block))
    }
}

impl TransferRing {
    /// Creates an uninitialized ring with no segments allocated and the
    /// cycle bit starting at `true`.
    pub fn new_uninit() -> (r: Self)
        ensures
            r@.wf(),
            r@.segs.len() == 0,
            r@.cycle == true,
    {
        TransferRing { inner: ProducerRing::new_uninit() }
    }

    /// Creates a ring with a single segment of `size` slots whose memory
    /// the controller will address at `base`.
    pub fn new(size: usize, base: u64) -> (r: Self)
        requires
            2 <= size <= 65536,
            base % 64 == 0,
            base + 16 * size <= u64::MAX,
        ensures
            r@.wf(),
            r@.segs =~= seq![Seq::new(size as nat, |i: int| trb::spec_zero_block(false))],
            r@.bases =~= seq![base],
            r@.seg_cur == 0,
            r@.block_cur == 0,
            r@.cycle == true,
    {
        let mut r = Self::new_uninit();
        r.add_segment(size, base);
        r
    }

    /// Returns whether the ring has any segment to use.
    pub fn is_init(&self) -> (r: bool)
        ensures
            r == (self@.segs.len() > 0),
    {
        self.inner.is_init()
    }

    /// Returns the current producer cycle bit.
    pub fn cycle_bit(&self) -> (r: bool)
        ensures
            r == self@.cycle,
    {
        self.inner.cycle_bit()
    }

    /// Returns the number of segments.
    pub fn segment_count(&self) -> (r: usize)
        ensures
            r == self@.segs.len(),
    {
        self.inner.segment_count()
    }

    /// Returns the base address of the `i`th segment.
    pub fn segment_base(&self, i: usize) -> (r: u64)
        requires
            i < self@.bases.len(),
        ensures
            r == self@.bases[i as int],
    {
        self.inner.segment_base(i)
    }

    /// Returns the slot count of the `i`th segment.
    pub fn segment_size(&self, i: usize) -> (r: usize)
        requires
            i < self@.segs.len(),
        ensures
            r == self@.segs[i as int].len(),
    {
        self.inner.segment_size(i)
    }

    /// Reads back one TRB slot, as the controller would.
    pub fn read_block(&self, seg_index: usize, block_index: usize) -> (r: Block)
        requires
            seg_index < self@.segs.len(),
            block_index < self@.segs[seg_index as int].len(),
        ensures
            r == self@.segs[seg_index as int][block_index as int],
    {
        self.inner.read_block(seg_index, block_index)
    }

    /// Adds a segment of `size` slots at address `base` to the ring. Its
    /// memory is initialized to zero TRBs carrying the complement of the
    /// current cycle bit, so the controller sees them as not yet
    /// published.
    pub fn add_segment(&mut self, size: usize, base: u64)
        requires
            old(self)@.wf(),
            2 <= size <= 65536,
            base % 64 == 0,
            base + 16 * size <= u64::MAX,
        ensures
            final(self)@.wf(),
            final(self)@.segs == old(self)@.segs.push(
                Seq::new(size as nat, |i: int| trb::spec_zero_block(!old(self)@.cycle)),
            ),
            final(self)@.bases == old(self)@.bases.push(base),
            final(self)@.seg_cur == old(self)@.seg_cur,
            final(self)@.block_cur == old(self)@.block_cur,
            final(self)@.cycle == old(self)@.cycle,
    {
        self.inner.add_segment(size, base);
    }

    /// Pushes a block onto the ring, stamping the producer cycle bit into
    /// it, and returns the address the block was written to; the caller
    /// correlates that address with Command Completion Events. Only transfer
    /// TRB types are accepted; a push onto a ring with no
    /// segments fails with `Uninitialized`.
    pub fn push(&mut self, block: Block) -> (r: Result<u64, Error>)
        requires
            old(self)@.wf(),
        ensures
            final(self)@.wf(),
            old(self)@.segs.len() == 0 ==> r == Err::<u64, Error>(Error::Uninitialized) && final(self)@ == old(self)@,
            old(self)@.segs.len() > 0 && !trb::spec_transfer_allowed(block) ==> r == Err::<u64, Error>(
                Error::InvalidTrbType,
            ) && final(self)@ == old(self)@,
            old(self)@.segs.len() > 0 && trb::spec_transfer_allowed(block) ==> r == Ok::<u64, Error>(
                old(self)@.enqueue_address() as u64,
            ) && final(self)@ == spec_push(old(self)@, block),
    {
        if !self.inner.is_init() {
            return Err(Error::Uninitialized);
        }
        if !trb::transfer_allowed(&block) {
            return Err(Error::InvalidTrbType);
        }
        Ok(self.inner.push_slot(block))
    }
}

/// The Event Ring Segment Table entry: sixteen bytes that describe one
/// segment by base address and slot count. An entry holds a raw address
/// and does not own the segment memory.
#[derive(Copy, Clone, Debug)]
pub struct EventRingSegmentTableEntry(pub [u32; 4]);

impl EventRingSegmentTableEntry {
    /// The Ring Segment Base Address this entry carries.
    pub open spec fn spec_base(self) -> u64 {
        ((self.0[1] as u64) << 32) | (self.0[0] as u64)
    }

    /// The Ring Segment Size (in TRB slots) this entry carries.
    pub open spec fn spec_size(self) -> u32 {
        bits::field32(self.0[2], 0, 16)
    }

    /// Creates an entry for a segment of `size` slots based at `base`,
    /// which must be 64-byte aligned.
    pub fn new(base: u64, size: u16) -> (r: Self)
        requires
            base % 64 == 0,
        ensures
            r.spec_base() == base,
            r.spec_size() == size,
            r.0[0] == base as u32,
            r.0[1] == (base >> 32) as u32,
            r.0[2] == size as u32,
            r.0[3] == 0,
    {
        proof {
            bits::lemma_split_join64(base);
            lemma_low16(size as u32);
        }
        EventRingSegmentTableEntry([base as u32, (base >> 32) as u32, size as u32, 0])
    }

    /// Returns the value of the Ring Segment Base Address field.
    pub fn ring_segment_base_address(&self) -> (r: u64)
        ensures
            r == self.spec_base(),
    {
        ((self.0[1] as u64) << 32) | (self.0[0] as u64)
    }

    /// Sets the value of the Ring Segment Base Address field. A value
    /// that is not 64-byte aligned is rejected.
    pub fn set_ring_segment_base_address(&mut self, p: u64) -> (r: Result<(), Error>)
        ensures
            p % 64 != 0 ==> r == Err::<(), Error>(Error::Misaligned) && final(self).0 == old(self).0,
            p % 64 == 0 ==> r == Ok::<(), Error>(()) && final(self).spec_base() == p
                && final(self).0[0] == p as u32 && final(self).0[1] == (p >> 32) as u32
                && final(self).0[2] == old(self).0[2] && final(self).0[3] == old(self).0[3],
    {
        if p % 64 != 0 {
            Err(Error::Misaligned)
        } else {
            proof {
                bits::lemma_split_join64(p);
            }
            self.0[0] = p as u32;
            self.0[1] = (p >> 32) as u32;
            Ok(())
        }
    }

    /// Returns the value of the Ring Segment Size field: the entry count
    /// of the segment.
    pub fn ring_segment_size(&self) -> (r: u16)
        ensures
            r == self.spec_size(),
    {
        bits::get_field32(self.0[2], 0, 16) as u16
    }

    /// Sets the value of the Ring Segment Size field: the entry count of
    /// the segment.
    pub fn set_ring_segment_size(&mut self, v: u16)
        ensures
            final(self).spec_size() == v,
            final(self).0[2] == bits::with_field32(old(self).0[2], v as u32, 0, 16),
            final(self).0[0] == old(self).0[0],
            final(self).0[1] == old(self).0[1],
            final(self).0[3] == old(self).0[3],
            final(self).spec_base() == old(self).spec_base(),
    {
        proof {
            bits::lemma_with_field32_read(self.0[2], v as u32, 0, 16);
            lemma_low16(v as u32);
        }
        self.0[2] = bits::set_field32(self.0[2], v as u32, 0, 16);
    }

    /// Returns the entry count of the segment.
    pub fn len(&self) -> (r: usize)
        ensures
            r == self.spec_size(),
    {
        self.ring_segment_size() as usize
    }

    /// Returns the address one past the segment's last slot.
    pub fn ring_segment_bound_address(&self) -> (r: u64)
        requires
            self.spec_base() + 16 * self.spec_size() <= u64::MAX,
        ensures
            r == self.spec_base() + 16 * self.spec_size(),
    {
        self.ring_segment_base_address() + 16 * (self.ring_segment_size() as u64)
    }
}

/// A 16-bit value stored in a 32-bit word fills exactly its low half.
proof fn lemma_low16(v: u32)
    by (bit_vector)
    ensures
        bits::field32(v, 0, 16) == v % 0x10000,
        v < 0x10000 ==> bits::field32(v, 0, 16) == v,
        v < 0x10000 ==> (v & 0xffffu32) == v,
{
}

/// The Event Ring Dequeue Pointer register value after software
/// acknowledges events up to `p` in segment `seg_index`: the two fields
/// are replaced and every other bit, the W1C Event Handler Busy bit
/// among them, is preserved.
pub open spec fn spec_erdp_update(e: u64, seg_index: u64, p: u64) -> u64 {
    (bits::with_field64(e, seg_index, 0, 3) & bits::mask64(4)) | p
}

/// What the dequeue-pointer update does: the segment index field reads
/// back, the pointer reads back, and the Event Handler Busy bit is left
/// untouched.
pub proof fn lemma_erdp_update(e: u64, idx: u64, p: u64)
    by (bit_vector)
    requires
        idx <= 7,
        p & bits::mask64(4) == 0,
    ensures
        bits::field64(spec_erdp_update(e, idx, p), 0, 3) == idx,
        spec_erdp_update(e, idx, p) & !bits::mask64(4) == p,
        bits::bit64(spec_erdp_update(e, idx, p), 3) == bits::bit64(e, 3),
{
}

/// The mathematical state of an Event Ring.
#[verifier::ext_equal]
pub struct EventRingView {
    /// The Interrupter Register Set the ring is bound to.
    pub interrupter: InterrupterRegisterSet,
    /// The Event Ring Segment Table.
    pub seg_table: Seq<EventRingSegmentTableEntry>,
    /// The contents of each segment: the image of the memory the
    /// controller writes events into.
    pub segs: Seq<Seq<Block>>,
    /// The address at which the controller sees the segment table.
    pub erst_base: u64,
    /// The consumer cycle state.
    pub cycle: bool,
}

impl EventRingView {
    /// The segment index the dequeue pointer register points into.
    pub open spec fn deq_seg(self) -> int {
        bits::field64(self.interrupter.erdp.0, 0, 3) as int
    }

    /// The dequeue address the dequeue pointer register holds.
    pub open spec fn deq_ptr(self) -> u64 {
        self.interrupter.erdp.0 & !bits::mask64(4)
    }

    /// The slot index the dequeue address falls on within its segment.
    pub open spec fn deq_idx(self) -> int
        recommends
            0 <= self.deq_seg() < self.seg_table.len(),
    {
        (self.deq_ptr() - self.seg_table[self.deq_seg()].spec_base()) / 16
    }

    /// The block at the dequeue pointer.
    pub open spec fn front(self) -> Block
        recommends
            self.wf(),
            self.segs.len() > 0,
    {
        self.segs[self.deq_seg()][self.deq_idx()]
    }

    /// Whether the block at the dequeue pointer has been published by the
    /// controller: its cycle bit equals the consumer cycle state.
    pub open spec fn has_event(self) -> bool
        recommends
            self.wf(),
            self.segs.len() > 0,
    {
        bits::bit32(self.front().dw3, 0) == self.cycle
    }

    /// Structural validity. The table describes the segments one to one;
    /// segment bases are 64-byte aligned and segments lie below the
    /// address-space limit; the table base is 64-byte aligned; and the
    /// dequeue pointer register points at a slot of a live segment.
    pub open spec fn wf(self) -> bool {
        &&& self.seg_table.len() == self.segs.len()
        &&& self.segs.len() <= 8
        &&& self.erst_base % 64 == 0
        &&& forall|i: int|
            0 <= i < self.segs.len() ==> 1 <= (#[trigger] self.segs[i]).len() <= 65535
        &&& forall|i: int|
            0 <= i < self.segs.len() ==> (#[trigger] self.seg_table[i]).spec_size()
                == self.segs[i].len()
        &&& forall|i: int|
            0 <= i < self.segs.len() ==> (#[trigger] self.seg_table[i]).spec_base() % 64 == 0
        &&& forall|i: int|
            0 <= i < self.segs.len() ==> (#[trigger] self.seg_table[i]).spec_base() + 16
                * self.segs[i].len() <= u64::MAX
        &&& (self.segs.len() > 0 ==> {
            &&& 0 <= self.deq_seg() < self.segs.len()
            &&& self.seg_table[self.deq_seg()].spec_base() <= self.deq_ptr()
            &&& self.deq_ptr() < self.seg_table[self.deq_seg()].spec_base() + 16 * self.segs[
                self.deq_seg()
            ].len()
            &&& (self.deq_ptr() - self.seg_table[self.deq_seg()].spec_base()) % 16 == 0
        })
    }
}

/// The state after one successful dequeue: the dequeue pointer advances
/// by one slot, wrapping to the next segment's base at a segment bound;
/// on a wrap that reaches segment 0 again the consumer cycle bit flips.
pub open spec fn spec_pop_state(v: EventRingView) -> EventRingView
    recommends
        v.wf(),
        v.segs.len() > 0,
        v.has_event(),
{
    let s = v.deq_seg();
    let i = v.deq_idx();
    if i + 1 < v.segs[s].len() as int {
        EventRingView {
            interrupter: InterrupterRegisterSet {
                erdp: EventRingDequeuePointerRegister(
                    spec_erdp_update(v.interrupter.erdp.0, s as u64, (v.deq_ptr() + 16) as u64),
                ),
                ..v.interrupter
            },
            ..v
        }
    } else {
        let next = if s + 1 == v.segs.len() as int {
            0int
        } else {
            s + 1
        };
        EventRingView {
            interrupter: InterrupterRegisterSet {
                erdp: EventRingDequeuePointerRegister(
                    spec_erdp_update(
                        v.interrupter.erdp.0,
                        next as u64,
                        v.seg_table[next].spec_base(),
                    ),
                ),
                ..v.interrupter
            },
            cycle: if next == 0 {
                !v.cycle
            } else {
                v.cycle
            },
            ..v
        }
    }
}

/// An Event Ring: the consumer ring the controller publishes Event TRBs
/// into, bound to one Interrupter Register Set and described to the
/// controller by its Event Ring Segment Table.
pub struct EventRing {
    /// The Interrupter associated with the event ring.
    interrupter: InterrupterRegisterSet,
    /// The Event Ring Segment Table.
    seg_table: Vec<EventRingSegmentTableEntry>,
    /// The contents of each ring segment.
    segs: Vec<Vec<Block>>,
    /// The address at which the controller sees the segment table.
    erst_base: u64,
    /// Current cycle bit.
    cycle_bit: bool,
}

impl View for EventRing {
    type V = EventRingView;

    closed spec fn view(&self) -> EventRingView {
        EventRingView {
            interrupter: self.interrupter,
            seg_table: self.seg_table@,
            segs: segs_view(self.segs),
            erst_base: self.erst_base,
            cycle: self.cycle_bit,
        }
    }
}

impl EventRing {
    /// Creates an Event Ring with no segments, bound to `interrupter`,
    /// whose segment table the controller will address at `erst_base`.
    pub fn new_uninit(interrupter: InterrupterRegisterSet, erst_base: u64) -> (r: Self)
        requires
            erst_base % 64 == 0,
        ensures
            r@.wf(),
            r@.segs.len() == 0,
            r@.seg_table.len() == 0,
            r@.interrupter == interrupter,
            r@.erst_base == erst_base,
            r@.cycle == true,
    {
        EventRing {
            interrupter,
            seg_table: Vec::new(),
            segs: Vec::new(),
            erst_base,
            cycle_bit: true,
        }
    }

    /// Returns whether the ring has any segment to use.
    pub fn is_init(&self) -> (r: bool)
        ensures
            r == (self@.segs.len() > 0),
    {
        self.segs.len() > 0
    }

    /// Returns the current consumer cycle bit.
    pub fn cycle_bit(&self) -> (r: bool)
        ensures
            r == self@.cycle,
    {
        self.cycle_bit
    }

    /// Returns the number of segments.
    pub fn segment_count(&self) -> (r: usize)
        ensures
            r == self@.segs.len(),
    {
        self.segs.len()
    }

    /// Returns a snapshot of the Interrupter Register Set the ring keeps.
    pub fn interrupter(&self) -> (r: InterrupterRegisterSet)
        ensures
            r == self@.interrupter,
    {
        self.interrupter
    }

    /// Returns the `i`th Event Ring Segment Table entry.
    pub fn segment_table_entry(&self, i: usize) -> (r: EventRingSegmentTableEntry)
        requires
            i < self@.seg_table.len(),
        ensures
            r == self@.seg_table[i as int],
    {
        self.seg_table[i]
    }

    /// Reads back one TRB slot.
    pub fn read_block(&self, seg_index: usize, block_index: usize) -> (r: Block)
        requires
            seg_index < self@.segs.len(),
            block_index < self@.segs[seg_index as int].len(),
        ensures
            r == self@.segs[seg_index as int][block_index as int],
    {
        self.segs[seg_index][block_index]
    }

    /// Writes a block into a segment slot: what the controller does when
    /// it publishes an event, and what a test harness does to feed the
    /// ring.
    pub fn write_block(&mut self, seg_index: usize, block_index: usize, block: Block)
        requires
            old(self)@.wf(),
            seg_index < old(self)@.segs.len(),
            block_index < old(self)@.segs[seg_index as int].len(),
        ensures
            final(self)@.wf(),
            final(self)@ == (EventRingView {
                segs: old(self)@.segs.update(
                    seg_index as int,
                    old(self)@.segs[seg_index as int].update(block_index as int, block),
                ),
                ..old(self)@
            }),
    {
        let ghost v0 = self@;
        self.segs[seg_index][block_index] = block;
        proof {
            let expected = EventRingView {
                segs: v0.segs.update(
                    seg_index as int,
                    v0.segs[seg_index as int].update(block_index as int, block),
                ),
                ..v0
            };
            assert(self@.segs =~~= expected.segs);
            assert(self@ =~= expected);
        }
    }

    /// Sets the Event Ring Dequeue Pointer register to the given segment
    /// index and dequeue address, preserving every other bit of the
    /// register.
    fn set_erdp(&mut self, seg_index: u8, dequeue_pointer: u64)
        requires
            seg_index <= 7,
            dequeue_pointer % 16 == 0,
        ensures
            final(self).interrupter.erdp.0 == spec_erdp_update(
                old(self).interrupter.erdp.0,
                seg_index as u64,
                dequeue_pointer,
            ),
            final(self).interrupter.iman == old(self).interrupter.iman,
            final(self).interrupter.imod == old(self).interrupter.imod,
            final(self).interrupter.erstsz == old(self).interrupter.erstsz,
            final(self).interrupter.erstba == old(self).interrupter.erstba,
            final(self).seg_table == old(self).seg_table,
            final(self).segs == old(self).segs,
            final(self).erst_base == old(self).erst_base,
            final(self).cycle_bit == old(self).cycle_bit,
    {
        proof {
            bits::lemma_align64(dequeue_pointer);
        }
        self.interrupter.erdp.set_dequeue_erst_segment_index(seg_index);
        let res = self.interrupter.erdp.set_event_ring_dequeue_pointer(dequeue_pointer);
        proof {
            assert(res is Ok);
        }
    }
    /// Adds a segment of `size` slots based at `base`, initialized to
    /// zero TRBs carrying the complement of the consumer cycle bit. The
    /// segment is published to the controller through a new segment table
    /// entry; the table size register is written first and the table base
    /// register last, because the controller enables and rebinds the ring
    /// on the base-register write. The first segment also initializes the
    /// dequeue pointer register to the segment's base. A ring that
    /// already has 8 segments, or a size above 65535, is rejected with
    /// `SegmentLimitExceeded`; a base that is not 64-byte aligned is
    /// rejected with `Misaligned`.
    pub fn add_segment(&mut self, size: usize, base: u64) -> (r: Result<(), Error>)
        requires
            old(self)@.wf(),
            1 <= size,
            base + 16 * size <= u64::MAX,
        ensures
            final(self)@.wf(),
            old(self)@.segs.len() >= 8 || size > 65535 ==> r == Err::<(), Error>(
                Error::SegmentLimitExceeded,
            ) && final(self)@ == old(self)@,
            old(self)@.segs.len() < 8 && size <= 65535 && base % 64 != 0 ==> r == Err::<(), Error>(
                Error::Misaligned,
            ) && final(self)@ == old(self)@,
            old(self)@.segs.len() < 8 && size <= 65535 && base % 64 == 0 ==> {
                &&& r == Ok::<(), Error>(())
                &&& final(self)@.segs == old(self)@.segs.push(
                    Seq::new(size as nat, |i: int| trb::spec_zero_block(!old(self)@.cycle)),
                )
                &&& final(self)@.seg_table.len() == old(self)@.seg_table.len() + 1
                &&& forall|j: int|
                    0 <= j < old(self)@.seg_table.len() ==> final(self)@.seg_table[j] == old(
                        self,
                    )@.seg_table[j]
                &&& final(self)@.seg_table.last().spec_base() == base
                &&& final(self)@.seg_table.last().spec_size() == size
                &&& final(self)@.erst_base == old(self)@.erst_base
                &&& final(self)@.cycle == old(self)@.cycle
                &&& final(self)@.interrupter.iman == old(self)@.interrupter.iman
                &&& final(self)@.interrupter.imod == old(self)@.interrupter.imod
                &&& final(self)@.interrupter.erstsz.0 == bits::with_field32(
                    old(self)@.interrupter.erstsz.0,
                    (old(self)@.segs.len() + 1) as u32,
                    0,
                    16,
                )
                &&& final(self)@.interrupter.erstba.0 == (old(self)@.interrupter.erstba.0
                    & bits::mask64(6)) | old(self)@.erst_base
                &&& (old(self)@.segs.len() == 0 ==> final(self)@.interrupter.erdp.0
                    == spec_erdp_update(old(self)@.interrupter.erdp.0, 0, base))
                &&& (old(self)@.segs.len() > 0 ==> final(self)@.interrupter.erdp == old(
                    self,
                )@.interrupter.erdp)
            },
    {
        if self.seg_table.len() >= 8 || size > 65535 {
            return Err(Error::SegmentLimitExceeded);
        }
        if base % 64 != 0 {
            return Err(Error::Misaligned);
        }
        let ghost v0 = self@;
        let first: bool = self.seg_table.len() == 0;

        let seg = zero_segment(size, !self.cycle_bit);
        self.segs.push(seg);
        self.seg_table.push(EventRingSegmentTableEntry::new(base, size as u16));

        if first {
            proof {
                bits::lemma_align64(base);
            }
            self.set_erdp(0, base);
        }
        // The write order is load-bearing: erstsz first, erstba last.
        let len: u16 = self.seg_table.len() as u16;
        self.interrupter.erstsz.set(len);
        let res = self.interrupter.erstba.set(self.erst_base);
        proof {
            bits::lemma_align64(self.erst_base);
            assert(res is Ok);
            assert(self@.segs =~~= v0.segs.push(
                Seq::new(size as nat, |i: int| trb::spec_zero_block(!v0.cycle)),
            ));
            if v0.segs.len() == 0 {
                lemma_erdp_update(v0.interrupter.erdp.0, 0, base);
            }
            assert(self@.wf()) by {
                assert(self@.segs.len() > 0);
                let s = self@.deq_seg();
                if v0.segs.len() == 0 {
                    assert(s == 0);
                    assert(self@.deq_ptr() == base);
                } else {
                    assert(self@.interrupter.erdp == v0.interrupter.erdp);
                    assert(s == v0.deq_seg());
                }
            }
        }
        Ok(())
    }

    /// Creates an Event Ring bound to `interrupter` with one segment of
    /// `size` slots based at `base`, publishing it to the controller as
    /// `add_segment` does. A size above 65535 is rejected with
    /// `SegmentLimitExceeded` and a misaligned base with `Misaligned`.
    pub fn new(interrupter: InterrupterRegisterSet, erst_base: u64, size: usize, base: u64) -> (r:
        Result<Self, Error>)
        requires
            erst_base % 64 == 0,
            1 <= size,
            base + 16 * size <= u64::MAX,
        ensures
            size > 65535 ==> r == Err::<Self, Error>(Error::SegmentLimitExceeded),
            size <= 65535 && base % 64 != 0 ==> r == Err::<Self, Error>(Error::Misaligned),
            size <= 65535 && base % 64 == 0 ==> {
                &&& r matches Ok(er)
                &&& er@.wf()
                &&& er@.segs =~~= seq![
                    Seq::new(size as nat, |i: int| trb::spec_zero_block(false)),
                ]
                &&& er@.seg_table.len() == 1
                &&& er@.seg_table[0].spec_base() == base
                &&& er@.seg_table[0].spec_size() == size
                &&& er@.erst_base == erst_base
                &&& er@.cycle == true
                &&& er@.interrupter.iman == interrupter.iman
                &&& er@.interrupter.imod == interrupter.imod
                &&& er@.interrupter.erstsz.0 == bits::with_field32(interrupter.erstsz.0, 1, 0, 16)
                &&& er@.interrupter.erstba.0 == (interrupter.erstba.0 & bits::mask64(6))
                    | erst_base
                &&& er@.interrupter.erdp.0 == spec_erdp_update(interrupter.erdp.0, 0, base)
            },
    {
        let mut er = Self::new_uninit(interrupter, erst_base);
        match er.add_segment(size, base) {
            Ok(()) => Ok(er),
            Err(e) => Err(e),
        }
    }

    /// Performs one dequeue. If the block at the dequeue pointer carries
    /// the consumer cycle bit, it is consumed: the dequeue pointer
    /// register advances by one slot (wrapping to the next segment's base
    /// at a segment bound, and flipping the consumer cycle bit when the
    /// wrap reaches segment 0 again), and the block is returned. The
    /// block is read before the register is written: the register write
    /// is the acknowledgement the controller observes. If the block
    /// carries the complement, there is no new event and nothing changes.
    /// A pop on a ring with no segments fails with `Uninitialized`.
    pub fn pop(&mut self) -> (r: Result<Option<Block>, Error>)
        requires
            old(self)@.wf(),
        ensures
            final(self)@.wf(),
            old(self)@.segs.len() == 0 ==> r == Err::<Option<Block>, Error>(Error::Uninitialized)
                && final(self)@ == old(self)@,
            old(self)@.segs.len() > 0 && !old(self)@.has_event() ==> r == Ok::<
                Option<Block>,
                Error,
            >(None) && final(self)@ == old(self)@,
            old(self)@.segs.len() > 0 && old(self)@.has_event() ==> r == Ok::<Option<Block>, Error>(
                Some(old(self)@.front()),
            ) && final(self)@ == spec_pop_state(old(self)@),
    {
        if self.segs.len() == 0 {
            return Err(Error::Uninitialized);
        }
        let ghost v0 = self@;

        // Locate the dequeue pointer.
        let seg_cur: usize = self.interrupter.erdp.dequeue_erst_segment_index() as usize;
        let dq: u64 = self.interrupter.erdp.event_ring_dequeue_pointer();
        let base: u64 = self.seg_table[seg_cur].ring_segment_base_address();
        let seg_len: usize = self.segs[seg_cur].len();
        proof {
            lemma_offset_in_segment(base, dq, self.segs@[seg_cur as int].len() as int);
        }
        let off: usize = ((dq - base) / 16) as usize;

        // Read the front block, then decide whether it was published.
        let front: Block = self.segs[seg_cur][off];
        if front.cycle_bit() != self.cycle_bit {
            return Ok(None);
        }

        // Consume: advance the dequeue pointer, wrapping at the segment
        // bound; flip the cycle bit when the wrap reaches segment 0.
        let incremented: u64 = dq + 16;
        let bound: u64 = self.seg_table[seg_cur].ring_segment_bound_address();
        if incremented == bound {
            let seg_next: usize = if seg_cur == self.seg_table.len() - 1 {
                0
            } else {
                seg_cur + 1
            };
            if seg_cur == self.seg_table.len() - 1 {
                self.cycle_bit = !self.cycle_bit;
            }
            let next_base: u64 = self.seg_table[seg_next].ring_segment_base_address();
            proof {
                bits::lemma_align64(next_base);
            }
            self.set_erdp(seg_next as u8, next_base);
            proof {
                lemma_erdp_update(
                    v0.interrupter.erdp.0,
                    seg_next as u64,
                    v0.seg_table[seg_next as int].spec_base(),
                );
                bits::lemma_align64(v0.seg_table[seg_next as int].spec_base());
                assert(self@ =~= spec_pop_state(v0));
            }
        } else {
            proof {
                lemma_step_in_segment(base, dq, self.segs@[seg_cur as int].len() as int);
            }
            self.set_erdp(seg_cur as u8, incremented);
            proof {
                bits::lemma_align64((v0.deq_ptr() + 16) as u64);
                lemma_erdp_update(v0.interrupter.erdp.0, seg_cur as u64, (v0.deq_ptr() + 16) as u64);
                assert(self@ =~= spec_pop_state(v0));
            }
        }
        Ok(Some(front))
    }
}

/// A dequeue address that lies in a segment resolves to exactly one slot.
proof fn lemma_offset_in_segment(base: u64, p: u64, len: int)
    requires
        base % 64 == 0,
        base <= p,
        p < base + 16 * len,
        (p - base) % 16 == 0,
    ensures
        0 <= (p - base) / 16 < len,
        p == base + 16 * ((p - base) / 16),
        p % 16 == 0,
    decreases 0int,
{
    let d: int = p - base;
    assert(0 <= d / 16 < len && d == 16 * (d / 16)) by (nonlinear_arith)
        requires
            0 <= d,
            d < 16 * len,
            d % 16 == 0,
    ;
    assert(p % 16 == 0) by (nonlinear_arith)
        requires
            base % 64 == 0,
            (p - base) % 16 == 0,
            base <= p,
    ;
}

/// One slot forward inside the same segment stays 16-byte aligned and in
/// range.
proof fn lemma_step_in_segment(base: u64, p: u64, len: int)
    requires
        base % 64 == 0,
        base <= p,
        p < base + 16 * len,
        (p - base) % 16 == 0,
        p + 16 != base + 16 * len,
    ensures
        base <= p + 16,
        p + 16 < base + 16 * len,
        ((p + 16) - base) % 16 == 0,
        (p + 16) % 16 == 0,
    decreases 0int,
{
    lemma_offset_in_segment(base, p, len);
    let i: int = (p - base) / 16;
    assert(p + 16 == base + 16 * (i + 1));
    assert(i + 1 <= len);
    assert((p + 16 - base) % 16 == 0 && (p + 16) % 16 == 0 && (i + 1 < len ==> p + 16 < base + 16
        * len)) by (nonlinear_arith)
        requires
            p + 16 == base + 16 * (i + 1),
            p % 16 == 0,
            0 <= i,
    ;
    if i + 1 == len {
        assert(false);
    }
}

// ------------------------------------------------------------------
// Laws of the ring protocols
// ------------------------------------------------------------------

/// The state after pushing each block of `blocks` in order.
pub open spec fn spec_push_n(v: ProducerRingView, blocks: Seq<Block>) -> ProducerRingView
    decreases blocks.len(),
{
    if blocks.len() == 0 {
        v
    } else {
        spec_push_n(spec_push(v, blocks[0]), blocks.drop_first())
    }
}

/// Pushing `blocks` and then `b` is pushing `blocks.push(b)`.
pub proof fn lemma_spec_push_n_snoc(v: ProducerRingView, blocks: Seq<Block>)
    requires
        blocks.len() > 0,
    ensures
        spec_push_n(v, blocks) == spec_push(spec_push_n(v, blocks.drop_last()), blocks.last()),
    decreases blocks.len(),
{
    if blocks.len() == 1 {
        assert(blocks.drop_last() =~= Seq::<Block>::empty());
        assert(blocks.drop_first() =~= Seq::<Block>::empty());
        assert(spec_push_n(v, blocks) == spec_push_n(spec_push(v, blocks[0]), blocks.drop_first()));
        assert(spec_push_n(spec_push(v, blocks[0]), blocks.drop_first()) == spec_push(
            v,
            blocks[0],
        ));
        assert(spec_push_n(v, blocks.drop_last()) == v);
    } else {
        let tail = blocks.drop_first();
        lemma_spec_push_n_snoc(spec_push(v, blocks[0]), tail);
        assert(tail.drop_last() =~= blocks.drop_last().drop_first());
        assert(blocks.drop_last()[0] == blocks[0]);
        assert(tail.last() == blocks.last());
        assert(spec_push_n(v, blocks) == spec_push_n(spec_push(v, blocks[0]), tail));
        assert(blocks.drop_last().len() > 0);
        assert(spec_push_n(v, blocks.drop_last()) == spec_push_n(
            spec_push(v, blocks.drop_last()[0]),
            blocks.drop_last().drop_first(),
        ));
    }
}

/// A TRB stamped by the producer carries the producer's cycle bit.
pub proof fn lemma_stamped_cycle(b: Block, c: bool)
    ensures
        bits::bit32(trb::spec_with_cycle(b, c).dw3, 0) == c,
{
    bits::lemma_with_bit32(b.dw3, 0, c, 0);
}

/// A zero-initialized slot carries the cycle bit it was filled with.
pub proof fn lemma_zero_block_cycle(c: bool)
    by (bit_vector)
    ensures
        bits::bit32(trb::spec_zero_block(c).dw3, 0) == c,
{
}

/// Filling a fresh single-segment ring of capacity `S` with up to `S - 1`
/// payloads places payload `i` at slot `i`, stamped with cycle bit
/// `true`, and leaves the other slots untouched. The `S - 1`th push also
/// writes the Link TRB into the last slot, pointing back at the segment
/// base with its Toggle Cycle bit set, and moves the enqueue position to
/// slot 0 with the cycle bit flipped to `false`.
pub proof fn lemma_single_segment_fill(v0: ProducerRingView, ps: Seq<Block>)
    requires
        v0.wf(),
        v0.segs.len() == 1,
        v0.seg_cur == 0,
        v0.block_cur == 0,
        v0.cycle == true,
        ps.len() <= v0.segs[0].len() - 1,
    ensures
        spec_push_n(v0, ps).wf(),
        spec_push_n(v0, ps).bases == v0.bases,
        spec_push_n(v0, ps).segs.len() == 1,
        spec_push_n(v0, ps).segs[0].len() == v0.segs[0].len(),
        forall|i: int|
            0 <= i < ps.len() ==> spec_push_n(v0, ps).segs[0][i] == trb::spec_with_cycle(
                ps[i],
                true,
            ),
        forall|i: int|
            ps.len() <= i < v0.segs[0].len() - 1 ==> spec_push_n(v0, ps).segs[0][i]
                == v0.segs[0][i],
        ps.len() < v0.segs[0].len() - 1 ==> spec_push_n(v0, ps).seg_cur == 0 && spec_push_n(
            v0,
            ps,
        ).block_cur == ps.len() && spec_push_n(v0, ps).cycle == true && spec_push_n(v0, ps).segs[0][
            v0.segs[0].len() - 1
        ] == v0.segs[0][v0.segs[0].len() - 1],
        ps.len() == v0.segs[0].len() - 1 ==> spec_push_n(v0, ps).seg_cur == 0 && spec_push_n(
            v0,
            ps,
        ).block_cur == 0 && spec_push_n(v0, ps).cycle == false && spec_push_n(v0, ps).segs[0][
            v0.segs[0].len() - 1
        ] == trb::spec_with_cycle(trb::spec_link(v0.bases[0], true), true),
    decreases ps.len(),
{
    if ps.len() == 0 {
        assert(spec_push_n(v0, ps) == v0);
    } else {
        let j = ps.len() as int;
        let prev = spec_push_n(v0, ps.drop_last());
        lemma_single_segment_fill(v0, ps.drop_last());
        lemma_spec_push_n_snoc(v0, ps);
        assert(spec_push_n(v0, ps) == spec_push(prev, ps.last()));
        assert(forall|i: int| 0 <= i < j - 1 ==> ps.drop_last()[i] == ps[i]);
        assert(ps.last() == ps[j - 1]);
    }
}

/// After exactly `S - 1` pushes into a fresh single-segment ring, the
/// enqueue position is back at slot 0 of the same segment and the cycle
/// bit has flipped to `false`; the next push writes its block at the
/// segment base, stamped with cycle bit `false`.
pub proof fn lemma_wrap_push(v0: ProducerRingView, ps: Seq<Block>, b: Block)
    requires
        v0.wf(),
        v0.segs.len() == 1,
        v0.seg_cur == 0,
        v0.block_cur == 0,
        v0.cycle == true,
        ps.len() == v0.segs[0].len() - 1,
    ensures
        spec_push_n(v0, ps).enqueue_address() == v0.bases[0],
        spec_push_n(v0, ps).cycle == false,
        spec_push(spec_push_n(v0, ps), b).segs[0][0] == trb::spec_with_cycle(b, false),
        bits::bit32(spec_push(spec_push_n(v0, ps), b).segs[0][0].dw3, 0) == false,
{
    lemma_single_segment_fill(v0, ps);
    lemma_stamped_cycle(b, false);
}

/// A freshly zeroed Event Ring holds no event: every slot carries the
/// complement of the consumer cycle bit, so the initial pop returns
/// empty.
pub proof fn lemma_fresh_pop_empty(v: EventRingView)
    requires
        v.wf(),
        v.segs.len() > 0,
        forall|s: int, i: int|
            0 <= s < v.segs.len() && 0 <= i < v.segs[s].len() ==> (#[trigger] v.segs[s][i])
                == trb::spec_zero_block(!v.cycle),
    ensures
        !v.has_event(),
{
    lemma_zero_block_cycle(!v.cycle);
}

/// What one successful pop does to the dequeue pointer register: within a
/// segment it advances by exactly 16 bytes; at a segment bound it wraps
/// to the next segment's base; and it never touches the Event Handler
/// Busy bit.
pub proof fn lemma_pop_advance(v: EventRingView)
    requires
        v.wf(),
        v.segs.len() > 0,
        v.has_event(),
    ensures
        v.deq_idx() + 1 < v.segs[v.deq_seg()].len() ==> spec_pop_state(v).deq_ptr() == v.deq_ptr()
            + 16 && spec_pop_state(v).deq_seg() == v.deq_seg() && spec_pop_state(v).cycle
            == v.cycle,
        v.deq_idx() + 1 == v.segs[v.deq_seg()].len() ==> spec_pop_state(v).deq_ptr()
            == v.seg_table[if v.deq_seg() + 1 == v.segs.len() {
            0int
        } else {
            v.deq_seg() + 1
        }].spec_base(),
        bits::bit64(spec_pop_state(v).interrupter.erdp.0, 3) == bits::bit64(
            v.interrupter.erdp.0,
            3,
        ),
    decreases 0int,
{
    let s = v.deq_seg();
    let base = v.seg_table[s].spec_base();
    lemma_offset_in_segment(base, v.deq_ptr(), v.segs[s].len() as int);
    let i = v.deq_idx();
    if i + 1 < v.segs[s].len() {
        bits::lemma_align64((v.deq_ptr() + 16) as u64);
        lemma_erdp_update(v.interrupter.erdp.0, s as u64, (v.deq_ptr() + 16) as u64);
    } else {
        let next = if s + 1 == v.segs.len() as int {
            0int
        } else {
            s + 1
        };
        bits::lemma_align64(v.seg_table[next].spec_base());
        lemma_erdp_update(v.interrupter.erdp.0, next as u64, v.seg_table[next].spec_base());
    }
}

/// Filling a ring of `M` equal segments of capacity `S` toggles the
/// cycle bit exactly once per full loop: across the first `M * (S - 1)`
/// pushes it stays `true` while the enqueue position walks the segments
/// in order, and exactly the `M * (S - 1)`th push flips it to `false`,
/// back at slot 0 of segment 0. No segment boundary within the loop
/// toggles it.
pub proof fn lemma_full_loop_cycle(v0: ProducerRingView, ps: Seq<Block>, s: int)
    requires
        v0.wf(),
        v0.segs.len() > 0,
        forall|i: int| 0 <= i < v0.segs.len() ==> (#[trigger] v0.segs[i]).len() == s,
        v0.seg_cur == 0,
        v0.block_cur == 0,
        v0.cycle == true,
        ps.len() <= v0.segs.len() * (s - 1),
    ensures
        spec_push_n(v0, ps).wf(),
        spec_push_n(v0, ps).bases == v0.bases,
        spec_push_n(v0, ps).segs.len() == v0.segs.len(),
        forall|i: int|
            0 <= i < v0.segs.len() ==> (#[trigger] spec_push_n(v0, ps).segs[i]).len() == s,
        ps.len() < v0.segs.len() * (s - 1) ==> spec_push_n(v0, ps).cycle == true && spec_push_n(
            v0,
            ps,
        ).seg_cur == (ps.len() as int) / (s - 1) && spec_push_n(v0, ps).block_cur == (ps.len() as int) % (s - 1),
        ps.len() == v0.segs.len() * (s - 1) ==> spec_push_n(v0, ps).cycle == false && spec_push_n(
            v0,
            ps,
        ).seg_cur == 0 && spec_push_n(v0, ps).block_cur == 0,
    decreases ps.len(),
{
    let m = v0.segs.len() as int;
    if ps.len() == 0 {
        assert(spec_push_n(v0, ps) == v0);
        assert(2 <= v0.segs[0].len());
        assert(m * (s - 1) > 0) by (nonlinear_arith)
            requires
                m >= 1,
                s >= 2,
        ;
        vstd::arithmetic::div_mod::lemma_fundamental_div_mod_converse(0, s - 1, 0, 0);
    } else {
        let j = ps.len() as int;
        let prev = spec_push_n(v0, ps.drop_last());
        lemma_full_loop_cycle(v0, ps.drop_last(), s);
        lemma_spec_push_n_snoc(v0, ps);
        assert(spec_push_n(v0, ps) == spec_push(prev, ps.last()));
        assert(j - 1 < m * (s - 1));
        let q = (j - 1) / (s - 1);
        let r = (j - 1) % (s - 1);
        vstd::arithmetic::div_mod::lemma_fundamental_div_mod(j - 1, s - 1);
        assert(j - 1 == q * (s - 1) + r);
        assert(0 <= r < s - 1) by {
            vstd::arithmetic::div_mod::lemma_mod_bound(j - 1, s - 1);
        }
        assert(0 <= q < m) by (nonlinear_arith)
            requires
                j - 1 == q * (s - 1) + r,
                j - 1 < m * (s - 1),
                0 <= r < s - 1,
                0 <= j - 1,
                s >= 2,
        ;
        if r + 1 < s - 1 {
            // The push stays inside segment q.
            assert(j == q * (s - 1) + (r + 1));
            vstd::arithmetic::div_mod::lemma_fundamental_div_mod_converse(j, s - 1, q, r + 1);
            assert(j < m * (s - 1)) by (nonlinear_arith)
                requires
                    j == q * (s - 1) + r + 1,
                    r + 1 < s - 1,
                    q < m,
                    s >= 2,
            ;
        } else {
            // The push writes the Link TRB and crosses to the next
            // segment.
            assert(j == (q + 1) * (s - 1)) by (nonlinear_arith)
                requires
                    j - 1 == q * (s - 1) + r,
                    r + 1 == s - 1,
            ;
            if q + 1 < m {
                vstd::arithmetic::div_mod::lemma_fundamental_div_mod_converse(j, s - 1, q + 1, 0);
                assert(j < m * (s - 1)) by (nonlinear_arith)
                    requires
                        j == (q + 1) * (s - 1),
                        q + 1 < m,
                        s >= 2,
                ;
            } else {
                assert(j == m * (s - 1));
            }
        }
    }
}

/// The total number of TRB slots across `segs`.
pub open spec fn sum_lens(segs: Seq<Seq<Block>>) -> int
    decreases segs.len(),
{
    if segs.len() == 0 {
        0
    } else {
        segs[0].len() + sum_lens(segs.drop_first())
    }
}

/// The state after `k` successful dequeues.
pub open spec fn spec_pop_n(v: EventRingView, k: int) -> EventRingView
    decreases k,
{
    if k <= 0 {
        v
    } else {
        spec_pop_state(spec_pop_n(v, k - 1))
    }
}

proof fn lemma_sum_lens_nonneg(segs: Seq<Seq<Block>>)
    ensures
        sum_lens(segs) >= 0,
    decreases segs.len(),
{
    if segs.len() > 0 {
        lemma_sum_lens_nonneg(segs.drop_first());
    }
}

/// One more segment in a prefix adds exactly its slot count.
proof fn lemma_sum_take_succ(segs: Seq<Seq<Block>>, q: int)
    requires
        0 <= q < segs.len(),
    ensures
        sum_lens(segs.take(q + 1)) == sum_lens(segs.take(q)) + segs[q].len(),
    decreases q,
{
    if q == 0 {
        assert(segs.take(0) =~= Seq::<Seq<Block>>::empty());
        assert(segs.take(1).drop_first() =~= Seq::<Seq<Block>>::empty());
        assert(segs.take(1)[0] == segs[0]);
        assert(segs.take(1).len() == 1);
        assert(sum_lens(Seq::<Seq<Block>>::empty()) == 0);
        assert(sum_lens(segs.take(1)) == segs[0].len());
    } else {
        lemma_sum_take_succ(segs.drop_first(), q - 1);
        assert(segs.take(q + 1).drop_first() =~= segs.drop_first().take(q));
        assert(segs.take(q).drop_first() =~= segs.drop_first().take(q - 1));
        assert(segs.take(q + 1)[0] == segs[0]);
        assert(segs.take(q)[0] == segs[0]);
        assert(segs.drop_first()[q - 1] == segs[q]);
    }
}

/// A prefix of segments, plus the one that follows it, never holds more
/// slots than the whole ring.
proof fn lemma_prefix_bound(segs: Seq<Seq<Block>>, q: int)
    requires
        0 <= q < segs.len(),
    ensures
        sum_lens(segs.take(q)) + segs[q].len() <= sum_lens(segs),
        sum_lens(segs.take(q)) >= 0,
    decreases q,
{
    if q == 0 {
        assert(segs.take(0) =~= Seq::<Seq<Block>>::empty());
        lemma_sum_lens_nonneg(segs.drop_first());
    } else {
        lemma_prefix_bound(segs.drop_first(), q - 1);
        assert(segs.take(q).drop_first() =~= segs.drop_first().take(q - 1));
        assert(segs.take(q)[0] == segs[0]);
        assert(segs.drop_first()[q - 1] == segs[q]);
    }
}

/// Across one complete traversal of all segments, the consumer cycle bit
/// flips exactly once: while fewer events than the ring holds slots have
/// been consumed, the cycle bit keeps its starting value and the dequeue
/// position has walked exactly `k` slots from the start; consuming the
/// final slot wraps the dequeue pointer back to the base of segment 0
/// and flips the cycle bit, and nothing else flips it.
pub proof fn lemma_consumer_traversal(v0: EventRingView, k: int)
    requires
        v0.wf(),
        v0.segs.len() > 0,
        v0.deq_seg() == 0,
        v0.deq_ptr() == v0.seg_table[0].spec_base(),
        forall|si: int, i: int|
            0 <= si < v0.segs.len() && 0 <= i < v0.segs[si].len() ==> bits::bit32(
                (#[trigger] v0.segs[si][i]).dw3,
                0,
            ) == v0.cycle,
        0 <= k <= sum_lens(v0.segs),
    ensures
        spec_pop_n(v0, k).wf(),
        spec_pop_n(v0, k).segs == v0.segs,
        spec_pop_n(v0, k).seg_table == v0.seg_table,
        spec_pop_n(v0, k).cycle == (if k == sum_lens(v0.segs) {
            !v0.cycle
        } else {
            v0.cycle
        }),
        k < sum_lens(v0.segs) ==> sum_lens(v0.segs.take(spec_pop_n(v0, k).deq_seg()))
            + spec_pop_n(v0, k).deq_idx() == k && spec_pop_n(v0, k).has_event(),
        k == sum_lens(v0.segs) ==> spec_pop_n(v0, k).deq_seg() == 0 && spec_pop_n(v0, k).deq_ptr()
            == v0.seg_table[0].spec_base(),
    decreases k,
{
    let m = v0.segs.len() as int;
    if k == 0 {
        assert(v0.segs.take(0) =~= Seq::<Seq<Block>>::empty());
        lemma_offset_in_segment(
            v0.seg_table[0].spec_base(),
            v0.deq_ptr(),
            v0.segs[0].len() as int,
        );
        lemma_prefix_bound(v0.segs, 0);
        assert(v0.deq_idx() == 0);
        assert(sum_lens(v0.segs) >= v0.segs[0].len());
    } else {
        lemma_consumer_traversal(v0, k - 1);
        let vp = spec_pop_n(v0, k - 1);
        assert(spec_pop_n(v0, k) == spec_pop_state(vp));
        let q = vp.deq_seg();
        let r = vp.deq_idx();
        let base = vp.seg_table[q].spec_base();
        lemma_offset_in_segment(base, vp.deq_ptr(), vp.segs[q].len() as int);
        lemma_prefix_bound(v0.segs, q);
        if r + 1 < vp.segs[q].len() {
            // The dequeue pointer stays in segment `q`.
            bits::lemma_align64((vp.deq_ptr() + 16) as u64);
            lemma_erdp_update(vp.interrupter.erdp.0, q as u64, (vp.deq_ptr() + 16) as u64);
            lemma_offset_in_segment(
                base,
                (vp.deq_ptr() + 16) as u64,
                vp.segs[q].len() as int,
            );
        } else {
            let next = if q + 1 == m {
                0int
            } else {
                q + 1
            };
            bits::lemma_align64(v0.seg_table[next].spec_base());
            lemma_erdp_update(
                vp.interrupter.erdp.0,
                next as u64,
                v0.seg_table[next].spec_base(),
            );
            lemma_offset_in_segment(
                v0.seg_table[next].spec_base(),
                v0.seg_table[next].spec_base(),
                v0.segs[next].len() as int,
            );
            if q + 1 == m {
                // The wrap reaches segment 0: the one flip of the loop.
                lemma_sum_take_succ(v0.segs, q);
                assert(v0.segs.take(m) =~= v0.segs);
                assert(k == sum_lens(v0.segs));
                assert(v0.segs.take(0) =~= Seq::<Seq<Block>>::empty());
            } else {
                // A segment boundary inside the loop: no flip.
                lemma_sum_take_succ(v0.segs, q);
                lemma_prefix_bound(v0.segs, q + 1);
            }
        }
    }
}


} // verus!
