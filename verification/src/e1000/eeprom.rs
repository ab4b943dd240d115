//! EEPROM access of the 82540EM: the EERD read command and its result,
//! the EEPROM checksum, the MAC address words, and the EECD values of the
//! bit-banged Microwire path.

use vstd::prelude::*;

use crate::e1000::regs::{
    EECD_CS, EECD_DI, EECD_DO, EECD_SK, EEPROM_CHECKSUM, EERD_DATA_MASK, EERD_DATA_SHIFT,
    EERD_DONE, EERD_START,
};

use crate::e1000::hw::E1000Hw;

verus! {

/// Reads of EERD while waiting for an EEPROM read to complete.
pub const EERD_POLL_TRIES: u32 = 1000;

/// Delay before each of those reads, in microseconds.
pub const EERD_POLL_DELAY_US: u32 = 5;

/// Number of EEPROM words covered by the checksum.
pub const EEPROM_CHECKSUM_WORDS: u16 = 64;

/// Errors of the EEPROM path.
#[derive(Debug, Clone, Copy, PartialEq, Eq, Structural)]
pub enum EepromError {
    /// EERD never reported completion.
    ReadTimeout,
    /// The words do not sum to `EEPROM_CHECKSUM`.
    ChecksumInvalid,
}

/// The EERD value that starts a read of the word at `offset`.
pub fn eerd_read_cmd(offset: u16) -> (r: u32)
    ensures
        r == 1 + offset as int * 0x100,
{
    let o = offset as u32;
    let r = EERD_START | (o << 8u32);
    proof {
        crate::bits::lemma_shl8_or1(o);
    }
    r
}

/// The word of a completed EERD read, or `None` while the read is pending.
pub fn eerd_result(val: u32) -> (r: Option<u16>)
    ensures
        val & EERD_DONE == 0 ==> r is None,
        val & EERD_DONE != 0 ==> r == Some((val / 0x1_0000) as u16),
{
    if val & EERD_DONE != 0 {
        let w = ((val & EERD_DATA_MASK) >> EERD_DATA_SHIFT) as u16;
        proof {
            crate::bits::lemma_u32_halves(val);
        }
        Some(w)
    } else {
        None
    }
}

/// The outcome of an EEPROM word read: the word, or `ReadTimeout` when
/// EERD never reported completion.
pub fn eerd_outcome(word: Option<u16>) -> (r: Result<u16, EepromError>)
    ensures
        word matches Some(w) ==> r == Ok::<u16, EepromError>(w),
        word is None ==> r == Err::<u16, EepromError>(EepromError::ReadTimeout),
{
    match word {
        Some(w) => Ok(w),
        None => Err(EepromError::ReadTimeout),
    }
}

/// The word a completed EERD read reports, `None` while it is pending.
pub open spec fn eerd_word(val: u32) -> Option<u16> {
    if val & EERD_DONE != 0 {
        Some((val / 0x1_0000) as u16)
    } else {
        None
    }
}

/// The word of the first completed read among the EERD values `reads`,
/// in the order they were read.
pub open spec fn first_done(reads: Seq<u32>) -> Option<u16>
    decreases reads.len(),
{
    if reads.len() == 0 {
        None
    } else {
        match first_done(reads.drop_last()) {
            Some(w) => Some(w),
            None => eerd_word(reads.last()),
        }
    }
}

/// The wait for one EERD read: how many times EERD was read, the values
/// read, and the word once a read reported completion.
pub struct EerdPoll {
    pub reads: u32,
    pub word: Option<u16>,
    pub seen: Ghost<Seq<u32>>,
}

impl EerdPoll {
    /// At most `EERD_POLL_TRIES` reads, and the word is that of the first
    /// completed one among them.
    pub open spec fn wf(&self) -> bool {
        &&& self.seen@.len() == self.reads
        &&& self.reads <= EERD_POLL_TRIES
        &&& self.word == first_done(self.seen@)
    }

    /// The wait is over: a read completed or the tries are spent.
    pub open spec fn done(&self) -> bool {
        self.word is Some || self.reads >= EERD_POLL_TRIES
    }

    /// A wait that has read nothing yet.
    pub fn new() -> (r: Self)
        ensures
            r.wf(),
            r.seen@ == Seq::<u32>::empty(),
    {
        EerdPoll { reads: 0, word: None, seen: Ghost(Seq::empty()) }
    }

    /// Whether EERD is to be read again.
    pub fn pending(&self) -> (r: bool)
        ensures
            r == !self.done(),
    {
        self.word.is_none() && self.reads < EERD_POLL_TRIES
    }

    /// Takes the EERD value `val` just read.
    pub fn record(&mut self, val: u32)
        requires
            old(self).wf(),
            !old(self).done(),
        ensures
            final(self).wf(),
            final(self).seen@ == old(self).seen@.push(val),
    {
        let ghost before = self.seen@;
        self.seen = Ghost(self.seen@.push(val));
        proof {
            assert(self.seen@.drop_last() =~= before);
        }
        self.reads = self.reads + 1;
        self.word = eerd_result(val);
    }

    /// The result of the read once the wait is over: the word of the first
    /// completed read, or `ReadTimeout` after `EERD_POLL_TRIES` reads none
    /// of which completed.
    pub fn outcome(&self) -> (r: Result<u16, EepromError>)
        requires
            self.wf(),
            self.done(),
        ensures
            first_done(self.seen@) matches Some(w) ==> r == Ok::<u16, EepromError>(w),
            first_done(self.seen@) is None ==> r == Err::<u16, EepromError>(
                EepromError::ReadTimeout,
            ) && self.seen@.len() == EERD_POLL_TRIES,
    {
        eerd_outcome(self.word)
    }
}

/// The EEPROM checksum check in progress: the next word offset, the sum
/// of the words read so far, the error of a failed read, and those words.
pub struct EepromChecksum {
    pub next: u16,
    pub sum: u16,
    pub failed: Option<EepromError>,
    pub words: Ghost<Seq<u16>>,
}

impl EepromChecksum {
    /// The words read are those at offsets `0..next`, at most
    /// `EEPROM_CHECKSUM_WORDS` of them, and `sum` is their sum modulo 2^16.
    pub open spec fn wf(&self) -> bool {
        &&& self.words@.len() == self.next
        &&& self.next <= EEPROM_CHECKSUM_WORDS
        &&& self.sum == wrapping_sum(self.words@)
    }

    /// The check reads no more words: one read failed or all were read.
    pub open spec fn done(&self) -> bool {
        self.failed is Some || self.next == EEPROM_CHECKSUM_WORDS
    }

    /// A check that has read nothing yet.
    pub fn new() -> (r: Self)
        ensures
            r.wf(),
            r.failed is None,
            r.words@ == Seq::<u16>::empty(),
    {
        EepromChecksum { next: 0, sum: 0, failed: None, words: Ghost(Seq::empty()) }
    }

    /// The offset of the word to read next, or `None` when the check reads
    /// no more words.
    pub fn next_offset(&self) -> (r: Option<u16>)
        ensures
            self.done() ==> r is None,
            !self.done() ==> r == Some(self.next),
    {
        if self.failed.is_some() || self.next == EEPROM_CHECKSUM_WORDS {
            None
        } else {
            Some(self.next)
        }
    }

    /// Takes the result of reading the word at `next_offset`: a word is
    /// added to the sum, a failed read ends the check with its error.
    pub fn record(&mut self, read: Result<u16, EepromError>)
        requires
            old(self).wf(),
            !old(self).done(),
        ensures
            final(self).wf(),
            read matches Ok(w) ==> final(self).words@ == old(self).words@.push(w)
                && final(self).failed is None,
            read matches Err(e) ==> final(self).words == old(self).words && final(self).failed
                == Some(e),
    {
        match read {
            Ok(w) => {
                let ghost before = self.words@;
                self.words = Ghost(self.words@.push(w));
                proof {
                    assert(self.words@.drop_last() =~= before);
                }
                self.sum = self.sum.wrapping_add(w);
                self.next = self.next + 1;
            },
            Err(e) => {
                self.failed = Some(e);
            },
        }
    }

    /// The result of the check once it reads no more words: the error of
    /// the failed read, if one failed; otherwise success exactly when the
    /// `EEPROM_CHECKSUM_WORDS` words sum, modulo 2^16, to `EEPROM_CHECKSUM`,
    /// and `ChecksumInvalid` when they do not.
    pub fn outcome(&self) -> (r: Result<(), EepromError>)
        requires
            self.wf(),
            self.done(),
        ensures
            self.failed matches Some(e) ==> r == Err::<(), EepromError>(e),
            self.failed is None ==> self.words@.len() == EEPROM_CHECKSUM_WORDS && (r is Ok
                <==> wrapping_sum(self.words@) == EEPROM_CHECKSUM) && (r is Err ==> r == Err::<
                (),
                EepromError,
            >(EepromError::ChecksumInvalid)),
    {
        match self.failed {
            Some(e) => Err(e),
            None => {
                if self.sum == EEPROM_CHECKSUM {
                    Ok(())
                } else {
                    Err(EepromError::ChecksumInvalid)
                }
            },
        }
    }
}

/// The word offsets `offset, offset + 1, ...` of `count` consecutive words.
pub fn read_eeprom_words(offset: u16, count: u16) -> (r: Vec<u16>)
    requires
        offset + count <= 0x1_0000,
    ensures
        r.len() == count,
        forall|i: int| 0 <= i < count ==> r@[i] == offset + i,
{
    let mut v: Vec<u16> = Vec::new();
    let mut i: u16 = 0;
    while i < count
        invariant
            i <= count,
            offset + count <= 0x1_0000,
            v.len() == i,
            forall|j: int| 0 <= j < i ==> v@[j] == offset + j,
        decreases count - i,
    {
        v.push(offset + i);
        i = i + 1;
    }
    v
}

/// The sum of `words` modulo 2^16.
pub open spec fn wrapping_sum(words: Seq<u16>) -> u16
    decreases words.len(),
{
    if words.len() == 0 {
        0
    } else {
        ((wrapping_sum(words.drop_last()) as int + words.last() as int) % 0x1_0000) as u16
    }
}

/// The plain integer sum of `words`.
pub open spec fn word_total(words: Seq<u16>) -> int
    decreases words.len(),
{
    if words.len() == 0 {
        0
    } else {
        word_total(words.drop_last()) + words.last()
    }
}

/// The EEPROM checksum is the integer sum of the words reduced modulo
/// 2^16: carries out of 16 bits are dropped, never folded back in.
pub proof fn lemma_wrapping_sum_is_total_mod(words: Seq<u16>)
    ensures
        wrapping_sum(words) as int == word_total(words) % 0x1_0000,
    decreases words.len(),
{
    if words.len() > 0 {
        let d = words.drop_last();
        lemma_wrapping_sum_is_total_mod(d);
        vstd::arithmetic::div_mod::lemma_add_mod_noop(
            word_total(d),
            words.last() as int,
            0x1_0000,
        );
        vstd::arithmetic::div_mod::lemma_small_mod(words.last() as nat, 0x1_0000);
    }
}

/// Adding a word to the checksum adds it modulo 2^16.
pub proof fn lemma_wrapping_sum_push(words: Seq<u16>, w: u16)
    ensures
        wrapping_sum(words.push(w)) as int == (wrapping_sum(words) as int + w as int) % 0x1_0000,
{
    lemma_wrapping_sum_is_total_mod(words);
    lemma_wrapping_sum_is_total_mod(words.push(w));
    assert(words.push(w).drop_last() =~= words);
    vstd::arithmetic::div_mod::lemma_add_mod_noop(word_total(words), w as int, 0x1_0000);
    vstd::arithmetic::div_mod::lemma_small_mod(w as nat, 0x1_0000);
}

/// Validates the EEPROM checksum: the words sum, modulo 2^16, to
/// `EEPROM_CHECKSUM`.
pub fn validate_eeprom_checksum(words: &[u16]) -> (r: Result<(), EepromError>)
    ensures
        r is Ok <==> wrapping_sum(words@) == EEPROM_CHECKSUM,
        r is Err ==> r == Err::<(), EepromError>(EepromError::ChecksumInvalid),
{
    let mut checksum: u16 = 0;
    let mut i: usize = 0;
    while i < words.len()
        invariant
            i <= words.len(),
            checksum == wrapping_sum(words@.subrange(0, i as int)),
        decreases words.len() - i,
    {
        assert(words@.subrange(0, i as int + 1).drop_last() =~= words@.subrange(0, i as int));
        checksum = checksum.wrapping_add(words[i]);
        i = i + 1;
    }
    assert(words@.subrange(0, words.len() as int) =~= words@);
    if checksum == EEPROM_CHECKSUM {
        Ok(())
    } else {
        Err(EepromError::ChecksumInvalid)
    }
}

/// The MAC address held in EEPROM words 0-2: each word gives two bytes,
/// low byte first.
pub open spec fn mac_of_words(w: Seq<u16>) -> Seq<u8> {
    seq![
        (w[0] % 256) as u8,
        (w[0] / 256) as u8,
        (w[1] % 256) as u8,
        (w[1] / 256) as u8,
        (w[2] % 256) as u8,
        (w[2] / 256) as u8,
    ]
}

/// The two bytes of an EEPROM word, low byte first.
fn word_bytes(word: u16) -> (r: (u8, u8))
    ensures
        r.0 == word % 256,
        r.1 == word / 256,
{
    let lo = (word & 0xFF) as u8;
    let hi = (word >> 8u16) as u8;
    assert(lo == word % 256 && hi == word / 256) by (bit_vector)
        requires
            lo == (word & 0xFF) as u8,
            hi == (word >> 8u16) as u8,
    ;
    (lo, hi)
}

/// The MAC address held in EEPROM words 0-2.
pub fn mac_from_words(words: &[u16; 3]) -> (r: [u8; 6])
    ensures
        r@ == mac_of_words(words@),
{
    let (b0, b1) = word_bytes(words[0]);
    let (b2, b3) = word_bytes(words[1]);
    let (b4, b5) = word_bytes(words[2]);
    let r = [b0, b1, b2, b3, b4, b5];
    assert(r@ =~= mac_of_words(words@));
    r
}

/// Takes the MAC address from EEPROM words 0-2, stores it in `hw` as the
/// active address and returns it; nothing else in `hw` changes.
pub fn read_mac_addr_from_eeprom(hw: &mut E1000Hw, words: &[u16; 3]) -> (r: [u8; 6])
    ensures
        r@ == mac_of_words(words@),
        *final(hw) == (E1000Hw { mac_addr: r, ..*old(hw) }),
{
    let mac = mac_from_words(words);
    hw.mac_addr = mac;
    mac
}

/// EECD with the clock (SK) raised.
pub fn raise_clock(eecd: u32) -> (r: u32)
    ensures
        r == eecd | EECD_SK,
{
    eecd | EECD_SK
}

/// EECD with the clock (SK) lowered.
pub fn lower_clock(eecd: u32) -> (r: u32)
    ensures
        r == eecd & !EECD_SK,
{
    eecd & !EECD_SK
}

/// EECD with chip select (CS) asserted, taking the EEPROM.
pub fn acquire_eeprom(eecd: u32) -> (r: u32)
    ensures
        r == eecd | EECD_CS,
{
    eecd | EECD_CS
}

/// EECD with chip select (CS) deasserted, releasing the EEPROM.
pub fn release_eeprom(eecd: u32) -> (r: u32)
    ensures
        r == eecd & !EECD_CS,
{
    eecd & !EECD_CS
}

/// Whether bit `k` of `data` is set.
pub open spec fn data_bit(data: u16, k: int) -> bool {
    (data as int / vstd::arithmetic::power2::pow2(k as nat) as int) % 2 == 1
}

/// EECD before the `i`-th bit (most significant first) of a shift out
/// that started from EECD `base`.
pub open spec fn shift_out_before(base: u32, data: u16, count: u16, i: nat) -> u32
    decreases i, 0nat,
{
    if i == 0 {
        base
    } else {
        shift_out_value(base, data, count, (i - 1) as nat) & !EECD_SK
    }
}

/// EECD presenting the `i`-th bit on the data-in line.
pub open spec fn shift_out_value(base: u32, data: u16, count: u16, i: nat) -> u32
    decreases i, 1nat,
{
    if data_bit(data, count - 1 - i) {
        shift_out_before(base, data, count, i) | EECD_DI
    } else {
        shift_out_before(base, data, count, i) & !EECD_DI
    }
}

/// The three EECD writes that clock out bit `i`: the data, the clock
/// raised, the clock lowered.
pub open spec fn shift_out_bit_writes(base: u32, data: u16, count: u16, i: nat) -> Seq<u32> {
    let v = shift_out_value(base, data, count, i);
    seq![v, v | EECD_SK, v & !EECD_SK]
}

/// The EECD writes that clock out the first `n` bits.
pub open spec fn shift_out_writes(base: u32, data: u16, count: u16, n: nat) -> Seq<u32>
    decreases n,
{
    if n == 0 {
        Seq::empty()
    } else {
        shift_out_writes(base, data, count, (n - 1) as nat) + shift_out_bit_writes(
            base,
            data,
            count,
            (n - 1) as nat,
        )
    }
}

/// `1 << k` halves when shifted right once.
proof fn lemma_mask_shift(k: u16)
    requires
        1 <= k < 16,
    ensures
        (1u16 << k) >> 1u16 == 1u16 << ((k - 1) as u16),
        (1u16 << 0u16) >> 1u16 == 0,
{
    assert((1u16 << k) >> 1u16 == 1u16 << ((k - 1) as u16)) by (bit_vector)
        requires
            1 <= k < 16,
    ;
    assert((1u16 << 0u16) >> 1u16 == 0) by (bit_vector);
}

/// Testing `data` against `1 << k` tests bit `k`.
proof fn lemma_mask_bit(data: u16, k: u16)
    requires
        k < 16,
    ensures
        (data & (1u16 << k) != 0) == data_bit(data, k as int),
{
    vstd::bits::lemma_u16_pow2_no_overflow(k as nat);
    vstd::bits::lemma_u16_shl_is_mul(1, k);
    let m = 1u16 << k;
    assert(m == vstd::arithmetic::power2::pow2(k as nat));
    assert((data & m != 0) == ((data >> k) & 1 == 1)) by (bit_vector)
        requires
            m == 1u16 << k,
            k < 16,
    ;
    vstd::bits::lemma_u16_shr_is_div(data, k);
    assert((data >> k) & 1 == (data >> k) % 2) by (bit_vector);
}

/// The EECD writes that shift the `count` low bits of `data` out to the
/// EEPROM, most significant first, starting from the EECD value `eecd`
/// just read: the data-out bit is cleared, each bit is presented on
/// data-in and clocked, and data-in is cleared at the end.
pub fn shift_out_bits(eecd: u32, data: u16, count: u16) -> (r: Vec<u32>)
    requires
        1 <= count <= 16,
    ensures
        r@ == shift_out_writes(eecd & !EECD_DO, data, count, count as nat).push(
            shift_out_before(eecd & !EECD_DO, data, count, count as nat) & !EECD_DI,
        ),
{
    let ghost base = eecd & !EECD_DO;
    let mut e = eecd & !EECD_DO;
    let mut mask: u16 = 1u16 << (count - 1);
    let mut writes: Vec<u32> = Vec::new();
    let mut i: u16 = 0;
    while i < count
        invariant
            1 <= count <= 16,
            i <= count,
            i < count ==> mask == 1u16 << ((count - 1 - i) as u16),
            e == shift_out_before(base, data, count, i as nat),
            writes@ == shift_out_writes(base, data, count, i as nat),
        decreases count - i,
    {
        proof {
            lemma_mask_bit(data, (count - 1 - i) as u16);
        }
        if data & mask != 0 {
            e = e | EECD_DI;
        } else {
            e = e & !EECD_DI;
        }
        let v = e;
        writes.push(v);
        e = raise_clock(e);
        writes.push(e);
        e = lower_clock(e);
        writes.push(e);
        proof {
            assert(e == v & !EECD_SK) by (bit_vector)
                requires
                    e == (v | 1u32) & !1u32,
            ;
            assert(writes@ =~= shift_out_writes(base, data, count, (i + 1) as nat));
            if i + 1 < count {
                lemma_mask_shift((count - 1 - i) as u16);
            }
        }
        mask = mask >> 1u16;
        i = i + 1;
    }
    e = e & !EECD_DI;
    writes.push(e);
    writes
}

/// The data word accumulated by shifting in the data-out bits of the EECD
/// values `reads`, first read most significant, modulo 2^16.
pub open spec fn shift_in_data(reads: Seq<u32>) -> u16
    decreases reads.len(),
{
    if reads.len() == 0 {
        0
    } else {
        let prev = shift_in_data(reads.drop_last());
        ((prev as int * 2 + (if reads.last() & EECD_DO != 0 {
            1int
        } else {
            0
        })) % 0x1_0000) as u16
    }
}

/// The state of a bit-banged read from the EEPROM: the bits received so
/// far, the number still to receive, and the EECD value last written.
pub struct ShiftIn {
    pub data: u16,
    pub left: u16,
    pub eecd: u32,
    pub reads: Ghost<Seq<u32>>,
}

impl ShiftIn {
    /// Starts a read of `count` bits from the EECD value `eecd` just read:
    /// data-out and data-in are cleared and no bit is received yet.
    pub fn start(eecd: u32, count: u16) -> (s: Self)
        ensures
            s.data == 0,
            s.left == count,
            s.eecd == eecd & !(EECD_DO | EECD_DI),
            s.reads@ == Seq::<u32>::empty(),
    {
        ShiftIn { data: 0, left: count, eecd: eecd & !(EECD_DO | EECD_DI), reads: Ghost(Seq::empty()) }
    }

    /// The EECD value written to raise the clock for the next bit.
    pub fn clock_high(&self) -> (r: u32)
        ensures
            r == self.eecd | EECD_SK,
    {
        raise_clock(self.eecd)
    }

    /// Takes the EECD value read while the clock is high: its data-out bit
    /// is the next bit; the value with the clock lowered is returned, to be
    /// written, and becomes the EECD value of the state.
    pub fn clock_in(&mut self, read: u32) -> (r: u32)
        requires
            old(self).left > 0,
            old(self).data == shift_in_data(old(self).reads@),
        ensures
            final(self).left == old(self).left - 1,
            final(self).reads@ == old(self).reads@.push(read),
            final(self).data == shift_in_data(final(self).reads@),
            r == read & !EECD_SK,
            final(self).eecd == r,
    {
        let d = self.data;
        let bit: u16 = if read & EECD_DO != 0 {
            1
        } else {
            0
        };
        let nd = (d << 1u16) | bit;
        assert(nd == ((d as int * 2 + bit as int) % 0x1_0000) as u16) by (bit_vector)
            requires
                bit < 2,
                nd == (d << 1u16) | bit,
        ;
        self.data = nd;
        self.left = self.left - 1;
        self.reads = Ghost(self.reads@.push(read));
        assert(self.reads@.drop_last() =~= old(self).reads@);
        self.eecd = lower_clock(read);
        self.eecd
    }
}

} // verus!
