//! The network device of the smaller driver: its MAC address, the buffers
//! posted to each ring slot and the two tail indexes, with the decisions of
//! receive, send and transmit-buffer reclamation.

use vstd::prelude::*;

use crate::e1000_basic::desc::{RxDesc, TxDesc};
use crate::e1000_basic::regs::{
    NUM_RX_DESCS, NUM_TX_DESCS, REG_RDT, REG_TDT, RXD_STAT_DD, TXCMD_EOP, TXCMD_IFCS, TXCMD_RS,
    TXD_STAT_DD,
};
use crate::net::NetError;

verus! {

/// Name under which the network device is registered.
pub const DEVICE_NAME: &'static str = "E1000";

/// Maximum transmission unit announced to the network stack: a standard
/// Ethernet frame, header included.
pub const MAX_TRANSMISSION_UNIT: usize = 1514;

/// The command bits of every transmit descriptor: end of packet, insert
/// CRC, report status.
pub const TX_CMD: u8 = 0x0B;

/// The device state that the send and receive decisions read: the MAC
/// address, the buffer posted to each descriptor slot and the tails.
pub struct E1000Device<R, T> {
    pub mac_addr: [u8; 6],
    /// Data buffers posted to the RX ring, indexed by descriptor slot.
    pub rx_buffers: Vec<Option<R>>,
    /// Data buffers posted to the TX ring, indexed by descriptor slot.
    pub tx_buffers: Vec<Option<T>>,
    /// The last RX descriptor handed to the hardware.
    pub rx_tail: u16,
    /// The next TX descriptor to fill.
    pub tx_tail: u16,
}

/// The slot after `i` in a ring of `n` slots.
pub open spec fn next_slot(i: int, n: int) -> int {
    (i + 1) % n
}

impl<R, T> E1000Device<R, T> {
    /// One slot per descriptor of each ring and both tails inside.
    pub open spec fn wf(&self) -> bool {
        &&& self.rx_buffers.len() == NUM_RX_DESCS
        &&& self.tx_buffers.len() == NUM_TX_DESCS
        &&& self.rx_tail < NUM_RX_DESCS
        &&& self.tx_tail < NUM_TX_DESCS
    }

    /// A device with the receive buffers `rx_buffers` posted, no transmit
    /// buffer, the receive tail on the last descriptor and the transmit
    /// tail at zero.
    pub fn new(mac_addr: [u8; 6], rx_buffers: Vec<Option<R>>) -> (d: Self)
        requires
            rx_buffers.len() == NUM_RX_DESCS,
        ensures
            d.wf(),
            d.mac_addr == mac_addr,
            d.rx_buffers == rx_buffers,
            forall|i: int| 0 <= i < NUM_TX_DESCS ==> d.tx_buffers@[i] is None,
            d.rx_tail == NUM_RX_DESCS - 1,
            d.tx_tail == 0,
    {
        let mut tx_buffers: Vec<Option<T>> = Vec::new();
        let mut i: u16 = 0;
        while i < NUM_TX_DESCS
            invariant
                i <= NUM_TX_DESCS,
                tx_buffers.len() == i,
                forall|j: int| 0 <= j < i ==> tx_buffers@[j] is None,
            decreases NUM_TX_DESCS - i,
        {
            tx_buffers.push(None);
            i = i + 1;
        }
        E1000Device { mac_addr, rx_buffers, tx_buffers, rx_tail: NUM_RX_DESCS - 1, tx_tail: 0 }
    }

    /// Returns the MAC address.
    pub fn mac_addr(&self) -> (r: [u8; 6])
        ensures
            r == self.mac_addr,
    {
        self.mac_addr
    }

    /// The RX slot after the tail, where the next frame arrives.
    pub fn rx_next(&self) -> (r: u16)
        requires
            self.wf(),
        ensures
            r == next_slot(self.rx_tail as int, NUM_RX_DESCS as int),
            r < NUM_RX_DESCS,
    {
        (self.rx_tail + 1) % NUM_RX_DESCS
    }

    /// Whether a frame waits: the descriptor after the RX tail, `desc`,
    /// has its done bit set.
    pub fn can_receive(&self, desc: &RxDesc) -> (r: bool)
        ensures
            r == (desc.status & RXD_STAT_DD != 0),
    {
        desc.status & RXD_STAT_DD != 0
    }

    /// Whether a frame can be sent, given the descriptor at the TX tail and
    /// the hardware head `tdh`: the tail slot holds no buffer, or its
    /// descriptor is done, or the slot after the tail is not the head.
    pub fn can_send(&self, desc: &TxDesc, tdh: u32) -> (r: bool)
        requires
            self.wf(),
        ensures
            r == (self.tx_buffers@[self.tx_tail as int] is None || desc.status & TXD_STAT_DD != 0
                || next_slot(self.tx_tail as int, NUM_TX_DESCS as int) != tdh as u16),
    {
        let next_tail = (self.tx_tail + 1) % NUM_TX_DESCS;
        self.tx_buffers[self.tx_tail as usize].is_none() || desc.status & TXD_STAT_DD != 0
            || next_tail != tdh as u16
    }

    /// First half of a receive, `desc` being the descriptor after the RX
    /// tail: `NotReady` when it is not done or its slot has no buffer;
    /// otherwise the slot's buffer is taken out and returned with the
    /// frame length. The tail does not move until `receive_refill`.
    pub fn receive_take(&mut self, desc: &RxDesc) -> (r: Result<(R, usize), NetError>)
        requires
            old(self).wf(),
        ensures
            final(self).wf(),
            final(self).mac_addr == old(self).mac_addr,
            final(self).tx_buffers == old(self).tx_buffers,
            final(self).rx_tail == old(self).rx_tail,
            final(self).tx_tail == old(self).tx_tail,
            ({
                let n = next_slot(old(self).rx_tail as int, NUM_RX_DESCS as int);
                &&& desc.status & RXD_STAT_DD == 0 ==> r == Err::<(R, usize), NetError>(
                    NetError::NotReady,
                ) && final(self).rx_buffers == old(self).rx_buffers
                &&& desc.status & RXD_STAT_DD != 0 ==> {
                    &&& final(self).rx_buffers@ == old(self).rx_buffers@.update(n, None)
                    &&& match old(self).rx_buffers@[n] {
                        None => r == Err::<(R, usize), NetError>(NetError::NotReady),
                        Some(b) => r == Ok::<(R, usize), NetError>((b, desc.length as usize)),
                    }
                }
            }),
    {
        let next = self.rx_next();
        if desc.status & RXD_STAT_DD == 0 {
            return Err(NetError::NotReady);
        }
        let taken = self.rx_buffers[next as usize].take();
        match taken {
            None => Err(NetError::NotReady),
            Some(b) => Ok((b, desc.length as usize)),
        }
    }

    /// Second half of a receive: the replacement buffer `buf` at DMA
    /// address `daddr` is posted in the slot after the tail, which becomes
    /// the tail. Returns the descriptor to write there and the RDT write.
    pub fn receive_refill(&mut self, buf: R, daddr: u64) -> (r: (RxDesc, (usize, u32)))
        requires
            old(self).wf(),
        ensures
            final(self).wf(),
            ({
                let n = next_slot(old(self).rx_tail as int, NUM_RX_DESCS as int);
                &&& final(self).rx_buffers@ == old(self).rx_buffers@.update(n, Some(buf))
                &&& final(self).rx_tail == n
                &&& r.0 == (RxDesc {
                    buffer_addr: daddr,
                    length: 0,
                    checksum: 0,
                    status: 0,
                    errors: 0,
                    special: 0,
                })
                &&& r.1 == (REG_RDT, n as u32)
            }),
            final(self).mac_addr == old(self).mac_addr,
            final(self).tx_buffers == old(self).tx_buffers,
            final(self).tx_tail == old(self).tx_tail,
    {
        let next = self.rx_next();
        let desc = RxDesc::for_buffer(daddr);
        self.rx_buffers.set(next as usize, Some(buf));
        self.rx_tail = next;
        (desc, (REG_RDT, next as u32))
    }

    /// The slot a frame is sent from, the TX tail, or `Busy` when the slot
    /// after it is the hardware head `tdh` (the ring is full).
    pub fn send_slot(&self, tdh: u32) -> (r: Result<u16, NetError>)
        requires
            self.wf(),
        ensures
            next_slot(self.tx_tail as int, NUM_TX_DESCS as int) == tdh as u16 ==> r == Err::<
                u16,
                NetError,
            >(NetError::Busy),
            next_slot(self.tx_tail as int, NUM_TX_DESCS as int) != tdh as u16 ==> r == Ok::<
                u16,
                NetError,
            >(self.tx_tail),
    {
        let next_tail = (self.tx_tail + 1) % NUM_TX_DESCS;
        if next_tail == tdh as u16 {
            return Err(NetError::Busy);
        }
        Ok(self.tx_tail)
    }

    /// Sends the frame of `size` bytes held in `buf` at DMA address
    /// `daddr` from the TX tail slot: the buffer is kept in the slot until
    /// the hardware is done, and the tail advances. Returns the descriptor
    /// to write at the old tail and the TDT write.
    pub fn send_commit(&mut self, buf: T, daddr: u64, size: usize) -> (r: (TxDesc, (usize, u32)))
        requires
            old(self).wf(),
        ensures
            final(self).wf(),
            ({
                let t = old(self).tx_tail as int;
                let n = next_slot(t, NUM_TX_DESCS as int);
                &&& final(self).tx_buffers@ == old(self).tx_buffers@.update(t, Some(buf))
                &&& final(self).tx_tail == n
                &&& r.0 == (TxDesc {
                    buffer_addr: daddr,
                    length: size as u16,
                    cso: 0,
                    cmd: TX_CMD,
                    status: 0,
                    css: 0,
                    special: 0,
                })
                &&& r.1 == (REG_TDT, n as u32)
            }),
            final(self).mac_addr == old(self).mac_addr,
            final(self).rx_buffers == old(self).rx_buffers,
            final(self).rx_tail == old(self).rx_tail,
    {
        let idx = self.tx_tail;
        let next_tail = (idx + 1) % NUM_TX_DESCS;
        let cmd = TXCMD_EOP | TXCMD_IFCS | TXCMD_RS;
        assert(cmd == TX_CMD) by (bit_vector)
            requires
                cmd == 1u8 | 2u8 | 8u8,
        ;
        let desc = TxDesc {
            buffer_addr: daddr,
            length: size as u16,
            cso: 0,
            cmd,
            status: 0,
            css: 0,
            special: 0,
        };
        self.tx_buffers.set(idx as usize, Some(buf));
        self.tx_tail = next_tail;
        (desc, (REG_TDT, next_tail as u32))
    }

    /// Whether TX slot `i` holds a buffer the hardware may still use.
    pub fn tx_slot_in_use(&self, i: u16) -> (r: bool)
        requires
            self.wf(),
            i < NUM_TX_DESCS,
        ensures
            r == (self.tx_buffers@[i as int] is Some),
    {
        self.tx_buffers[i as usize].is_some()
    }

    /// Frees the buffer of TX slot `i` when its descriptor `desc` is done.
    pub fn free_tx_slot(&mut self, i: u16, desc: &TxDesc)
        requires
            old(self).wf(),
            i < NUM_TX_DESCS,
        ensures
            final(self).wf(),
            old(self).tx_buffers@[i as int] is Some && desc.status & TXD_STAT_DD != 0
                ==> final(self).tx_buffers@ == old(self).tx_buffers@.update(i as int, None),
            !(old(self).tx_buffers@[i as int] is Some && desc.status & TXD_STAT_DD != 0)
                ==> final(self).tx_buffers == old(self).tx_buffers,
            final(self).mac_addr == old(self).mac_addr,
            final(self).rx_buffers == old(self).rx_buffers,
            final(self).rx_tail == old(self).rx_tail,
            final(self).tx_tail == old(self).tx_tail,
    {
        if self.tx_buffers[i as usize].is_none() {
            return;
        }
        if desc.status & TXD_STAT_DD != 0 {
            self.tx_buffers.set(i as usize, None);
        }
    }
}

} // verus!
