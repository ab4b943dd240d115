//! Descriptor layouts of the 82540EM and the index bookkeeping of a
//! descriptor ring.

use vstd::prelude::*;

use core::marker::PhantomData;

use vstd::arithmetic::div_mod::{lemma_mod_self_0, lemma_small_mod};

use crate::e1000::regs::{RXD_ERR_FRAME_ERR_MASK, RXD_STAT_DD, RXD_STAT_EOP};

verus! {

/// Legacy receive descriptor (16 bytes), matching the hardware layout.
#[derive(Clone, Copy, Debug, PartialEq, Eq, Structural)]
pub struct E1000RxDesc {
    /// Physical address of the receive buffer.
    pub buffer_addr: u64,
    /// Length of received data in bytes.
    pub length: u16,
    /// Packet checksum.
    pub csum: u16,
    /// Descriptor status bits (DD, EOP, etc.).
    pub status: u8,
    /// Descriptor error bits.
    pub errors: u8,
    /// Special field (VLAN tag).
    pub special: u16,
}

/// Size of a receive descriptor in bytes.
pub const E1000_RX_DESC_SIZE: usize = 16;

/// Size of a transmit descriptor in bytes.
pub const E1000_TX_DESC_SIZE: usize = 16;

impl E1000RxDesc {
    /// A descriptor that hands the buffer at `buffer_addr` to the hardware,
    /// every write-back field cleared.
    pub fn for_buffer(buffer_addr: u64) -> (d: Self)
        ensures
            d.buffer_addr == buffer_addr,
            d.length == 0,
            d.csum == 0,
            d.status == 0,
            d.errors == 0,
            d.special == 0,
    {
        E1000RxDesc { buffer_addr, length: 0, csum: 0, status: 0, errors: 0, special: 0 }
    }

    /// Returns true if the hardware has finished writing to this descriptor.
    pub fn done(&self) -> (r: bool)
        ensures
            r == (self.status & RXD_STAT_DD != 0),
    {
        self.status & RXD_STAT_DD != 0
    }

    /// Returns true if this is the last descriptor in a packet.
    pub fn end_of_packet(&self) -> (r: bool)
        ensures
            r == (self.status & RXD_STAT_EOP != 0),
    {
        self.status & RXD_STAT_EOP != 0
    }

    /// Returns true if any frame-level error bit (CRC, symbol, sequence,
    /// carrier extension or RX data error) is set.
    pub fn has_error(&self) -> (r: bool)
        ensures
            r == (self.errors & RXD_ERR_FRAME_ERR_MASK != 0),
    {
        self.errors & RXD_ERR_FRAME_ERR_MASK != 0
    }
}

/// Legacy transmit descriptor (16 bytes), matching the hardware layout.
#[derive(Clone, Copy, Debug, PartialEq, Eq, Structural)]
pub struct E1000TxDesc {
    /// Physical address of the transmit buffer.
    pub buffer_addr: u64,
    /// Lower data: length (bits 15:0), cso (bits 23:16), cmd (bits 31:24).
    pub lower: u32,
    /// Upper data: status (bits 7:0), css (bits 15:8), special (bits 31:16).
    pub upper: u32,
}

impl E1000TxDesc {
    /// Returns true if the hardware has processed this descriptor (DD bit,
    /// bit 0 of the status byte, set).
    pub fn done(&self) -> (r: bool)
        ensures
            r == (self.upper % 2 == 1),
    {
        let u = self.upper;
        let r = (u & 0x01) != 0;
        assert(r == (u % 2 == 1)) by (bit_vector)
            requires
                r == ((u & 0x01) != 0),
        ;
        r
    }

    /// Creates a legacy transmit descriptor for a data buffer: the length
    /// in the low 16 bits, the command byte in the top byte, no checksum
    /// offset and a clear upper word.
    pub fn new_data(buffer_addr: u64, length: u16, cmd: u8) -> (d: Self)
        ensures
            d.buffer_addr == buffer_addr,
            d.lower == length as int + cmd as int * 0x100_0000,
            d.upper == 0,
    {
        let l = length as u32;
        let c = cmd as u32;
        let lower = l | (c << 24u32);
        assert(lower == l + c * 0x100_0000u32) by (bit_vector)
            requires
                l < 0x1_0000u32,
                c < 0x100u32,
                lower == l | (c << 24u32),
        ;
        Self { buffer_addr, lower, upper: 0 }
    }
}

/// Offload context descriptor (16 bytes).
#[derive(Clone, Copy, Debug, PartialEq, Eq, Structural)]
pub struct E1000ContextDesc {
    pub lower_setup: u32,
    pub upper_setup: u32,
    pub cmd_and_length: u32,
    pub tcp_seg_setup: u32,
}

/// Tracks the software indexes of a ring of `count` descriptors of type `T`.
pub struct DescRing<T> {
    /// Number of descriptors in the ring.
    count: usize,
    /// Next descriptor to use (software write pointer).
    next_to_use: usize,
    /// Next descriptor to check for completion (software read pointer).
    next_to_clean: usize,
    /// Phantom type marker.
    _marker: PhantomData<T>,
}

/// Number of descriptors handed out and not yet cleaned in a ring of
/// `count` descriptors with the given indexes.
pub open spec fn ring_used(count: int, ntu: int, ntc: int) -> int {
    if ntu >= ntc {
        ntu - ntc
    } else {
        ntu - ntc + count
    }
}

/// The index after `i` in a ring of `count` slots.
proof fn lemma_wrap_next(i: nat, count: nat)
    requires
        i < count,
    ensures
        (i + 1) % count == (if i + 1 < count {
            i + 1
        } else {
            0
        }),
{
    if i + 1 < count {
        lemma_small_mod(i + 1, count);
    } else {
        lemma_mod_self_0(count as int);
    }
}

impl<T> DescRing<T> {
    /// The ring size.
    pub closed spec fn count_spec(&self) -> nat {
        self.count as nat
    }

    /// The next-to-use index.
    pub closed spec fn ntu(&self) -> nat {
        self.next_to_use as nat
    }

    /// The next-to-clean index.
    pub closed spec fn ntc(&self) -> nat {
        self.next_to_clean as nat
    }

    /// The ring has at least one descriptor and both indexes lie in it.
    pub open spec fn wf(&self) -> bool {
        &&& self.count_spec() > 0
        &&& self.ntu() < self.count_spec()
        &&& self.ntc() < self.count_spec()
    }

    /// Descriptors handed out and not yet cleaned.
    pub open spec fn used(&self) -> int {
        ring_used(self.count_spec() as int, self.ntu() as int, self.ntc() as int)
    }

    /// Creates a new descriptor ring tracker with `count` entries, both
    /// indexes at zero. A ring of zero entries is not well formed.
    pub fn new(count: usize) -> (r: Self)
        ensures
            r.count_spec() == count,
            r.ntu() == 0,
            r.ntc() == 0,
            count > 0 ==> r.wf(),
    {
        Self { count, next_to_use: 0, next_to_clean: 0, _marker: PhantomData }
    }

    /// Returns the ring size (number of descriptors).
    pub fn count(&self) -> (r: usize)
        ensures
            r == self.count_spec(),
    {
        self.count
    }

    /// Returns the next-to-use index.
    pub fn next_to_use(&self) -> (r: usize)
        ensures
            r == self.ntu(),
    {
        self.next_to_use
    }

    /// Returns the next-to-clean index.
    pub fn next_to_clean(&self) -> (r: usize)
        ensures
            r == self.ntc(),
    {
        self.next_to_clean
    }

    /// Advances next_to_use by one, wrapping around; one more descriptor
    /// is in use unless the ring was full.
    pub fn advance_use(&mut self)
        requires
            old(self).wf(),
        ensures
            final(self).wf(),
            final(self).count_spec() == old(self).count_spec(),
            final(self).ntc() == old(self).ntc(),
            final(self).ntu() == (old(self).ntu() + 1) % old(self).count_spec(),
            old(self).used() < old(self).count_spec() - 1 ==> final(self).used() == old(
                self,
            ).used() + 1,
    {
        proof {
            lemma_wrap_next(self.next_to_use as nat, self.count as nat);
        }
        self.next_to_use = (self.next_to_use + 1) % self.count;
    }

    /// Advances next_to_clean by one, wrapping around; one descriptor
    /// fewer is in use when any was.
    pub fn advance_clean(&mut self)
        requires
            old(self).wf(),
        ensures
            final(self).wf(),
            final(self).count_spec() == old(self).count_spec(),
            final(self).ntu() == old(self).ntu(),
            final(self).ntc() == (old(self).ntc() + 1) % old(self).count_spec(),
            old(self).used() > 0 ==> final(self).used() == old(self).used() - 1,
    {
        proof {
            lemma_wrap_next(self.next_to_clean as nat, self.count as nat);
        }
        self.next_to_clean = (self.next_to_clean + 1) % self.count;
    }

    /// Sets the next_to_use index explicitly.
    pub fn set_next_to_use(&mut self, val: usize)
        ensures
            final(self).ntu() == val,
            final(self).ntc() == old(self).ntc(),
            final(self).count_spec() == old(self).count_spec(),
            old(self).wf() && val < old(self).count_spec() ==> final(self).wf(),
    {
        self.next_to_use = val;
    }

    /// Sets the next_to_clean index explicitly.
    pub fn set_next_to_clean(&mut self, val: usize)
        ensures
            final(self).ntc() == val,
            final(self).ntu() == old(self).ntu(),
            final(self).count_spec() == old(self).count_spec(),
            old(self).wf() && val < old(self).count_spec() ==> final(self).wf(),
    {
        self.next_to_clean = val;
    }

    /// Returns the number of unused descriptors available: one slot is
    /// always kept free to tell a full ring from an empty one.
    pub fn unused_count(&self) -> (r: usize)
        requires
            self.wf(),
        ensures
            r == self.count_spec() - 1 - self.used(),
    {
        let clean = self.next_to_clean;
        let used = self.next_to_use;
        if clean > used {
            clean - used - 1
        } else {
            self.count - (used - clean) - 1
        }
    }

    /// Returns true if the ring is full (only the guard slot left).
    pub fn is_full(&self) -> (r: bool)
        requires
            self.wf(),
        ensures
            r == (self.used() == self.count_spec() - 1),
    {
        self.unused_count() == 0
    }
}

} // verus!
