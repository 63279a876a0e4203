use vstd::prelude::*;
use crate::digits::{rendered, split, valid_cells};

verus! {

/// Data command: write, with the address incremented after each byte.
pub const CMD_AUTO_INCREMENT: u8 = 0x40;

/// Address command: start at the first display column.
pub const CMD_ADDRESS_ZERO: u8 = 0xC0;

/// Display control command: display on, brightest.
pub const CMD_DISPLAY_ON: u8 = 0x8F;

/// Settle time after each strobe edge, in microseconds.
pub const STROBE_SETTLE_US: u32 = 10;

/// Time the data line is held before the clock rises, in microseconds.
pub const DATA_SETUP_US: u32 = 2;

/// Time the clock is held at each level, in microseconds.
pub const CLOCK_HOLD_US: u32 = 5;

/// The three lines of the display's serial bus.
#[derive(Clone, Copy, Debug, PartialEq, Eq, Structural)]
pub enum Line {
    Clock,
    Data,
    Strobe,
}

/// One step on the bus: drive a line high (`true`) or low, or wait.
#[derive(Clone, Copy, Debug, PartialEq, Eq, Structural)]
pub enum BusOp {
    Drive(Line, bool),
    DelayUs(u32),
}

/// Bit `i` of `b`, counting from the least significant.
pub open spec fn bit_of(b: u8, i: nat) -> bool {
    (b >> (i as u8)) & 1u8 == 1u8
}

/// The bits of `b`, least significant first.
pub open spec fn lsb_first(b: u8) -> Seq<bool> {
    Seq::new(8, |i: int| bit_of(b, i as nat))
}

/// The bus steps that shift out one bit.
pub open spec fn bit_wave(bit: bool) -> Seq<BusOp> {
    seq![
        BusOp::Drive(Line::Data, bit),
        BusOp::DelayUs(DATA_SETUP_US),
        BusOp::Drive(Line::Clock, true),
        BusOp::DelayUs(CLOCK_HOLD_US),
        BusOp::Drive(Line::Clock, false),
        BusOp::DelayUs(CLOCK_HOLD_US),
    ]
}

/// The bus steps that shift out the lowest `n` bits of `b`, lowest first.
pub open spec fn bits_wave(b: u8, n: nat) -> Seq<BusOp>
    decreases n,
{
    if n == 0 {
        seq![]
    } else {
        bits_wave(b, (n - 1) as nat) + bit_wave(bit_of(b, (n - 1) as nat))
    }
}

/// The bus steps that shift out one byte.
pub open spec fn byte_wave(b: u8) -> Seq<BusOp> {
    bits_wave(b, 8)
}

/// Drive the strobe line and let it settle.
pub open spec fn strobe_wave(high: bool) -> Seq<BusOp> {
    seq![BusOp::Drive(Line::Strobe, high), BusOp::DelayUs(STROBE_SETTLE_US)]
}

/// The segment pattern of a display position: a-g in bits 0-6, blank all off.
pub open spec fn segments_of(c: Option<u8>) -> u8 {
    match c {
        Some(0u8) => 0x3F,
        Some(1u8) => 0x06,
        Some(2u8) => 0x5B,
        Some(3u8) => 0x4F,
        Some(4u8) => 0x66,
        Some(5u8) => 0x6D,
        Some(6u8) => 0x7D,
        Some(7u8) => 0x07,
        Some(8u8) => 0x7F,
        Some(9u8) => 0x6F,
        _ => 0x00,
    }
}

/// The patterns of the first `n` positions, each of the first three
/// followed by an unused zero column.
pub open spec fn cells_wave(cells: Seq<Option<u8>>, n: nat) -> Seq<BusOp>
    decreases n,
{
    if n == 0 {
        seq![]
    } else {
        cells_wave(cells, (n - 1) as nat) + byte_wave(segments_of(cells[n - 1])) + if n - 1 < 3 {
            byte_wave(0)
        } else {
            seq![]
        }
    }
}

/// The whole transaction that shows four positions and turns the display on.
pub open spec fn frame_wave(cells: Seq<Option<u8>>) -> Seq<BusOp> {
    strobe_wave(false) + byte_wave(CMD_AUTO_INCREMENT) + strobe_wave(true) + strobe_wave(false)
        + byte_wave(CMD_ADDRESS_ZERO) + cells_wave(cells, 4) + strobe_wave(true) + strobe_wave(
        false,
    ) + byte_wave(CMD_DISPLAY_ON) + strobe_wave(true)
}

/// Level of the data line after `ops`, low at the start.
pub open spec fn data_level(ops: Seq<BusOp>) -> bool
    decreases ops.len(),
{
    if ops.len() == 0 {
        false
    } else {
        match ops.last() {
            BusOp::Drive(Line::Data, v) => v,
            _ => data_level(ops.drop_last()),
        }
    }
}

/// Level of the clock line after `ops`, low at the start.
pub open spec fn clock_level(ops: Seq<BusOp>) -> bool
    decreases ops.len(),
{
    if ops.len() == 0 {
        false
    } else {
        match ops.last() {
            BusOp::Drive(Line::Clock, v) => v,
            _ => clock_level(ops.drop_last()),
        }
    }
}

/// What the device reads off the data line at each rising clock edge.
pub open spec fn sampled_bits(ops: Seq<BusOp>) -> Seq<bool>
    decreases ops.len(),
{
    if ops.len() == 0 {
        seq![]
    } else {
        let p = ops.drop_last();
        if ops.last() == BusOp::Drive(Line::Clock, true) && !clock_level(p) {
            sampled_bits(p).push(data_level(p))
        } else {
            sampled_bits(p)
        }
    }
}

proof fn lemma_bit_wave_samples(w: Seq<BusOp>, bit: bool)
    requires
        !clock_level(w),
    ensures
        sampled_bits(w + bit_wave(bit)) == sampled_bits(w).push(bit),
        !clock_level(w + bit_wave(bit)),
{
    let s1 = w.push(BusOp::Drive(Line::Data, bit));
    let s2 = s1.push(BusOp::DelayUs(DATA_SETUP_US));
    let s3 = s2.push(BusOp::Drive(Line::Clock, true));
    let s4 = s3.push(BusOp::DelayUs(CLOCK_HOLD_US));
    let s5 = s4.push(BusOp::Drive(Line::Clock, false));
    let s6 = s5.push(BusOp::DelayUs(CLOCK_HOLD_US));
    assert(s1.drop_last() =~= w);
    assert(s2.drop_last() =~= s1);
    assert(s3.drop_last() =~= s2);
    assert(s4.drop_last() =~= s3);
    assert(s5.drop_last() =~= s4);
    assert(s6.drop_last() =~= s5);
    assert(w + bit_wave(bit) =~= s6);
    assert(s1.last() == BusOp::Drive(Line::Data, bit));
    assert(s2.last() == BusOp::DelayUs(DATA_SETUP_US));
    assert(data_level(s1) == bit);
    assert(clock_level(s1) == clock_level(w));
    assert(sampled_bits(s1) == sampled_bits(w));
    assert(!clock_level(s2));
    assert(data_level(s2) == bit);
    assert(sampled_bits(s2) == sampled_bits(w));
    assert(s3.last() == BusOp::Drive(Line::Clock, true));
    assert(s4.last() == BusOp::DelayUs(CLOCK_HOLD_US));
    assert(s5.last() == BusOp::Drive(Line::Clock, false));
    assert(s6.last() == BusOp::DelayUs(CLOCK_HOLD_US));
    assert(sampled_bits(s3) == sampled_bits(w).push(bit));
    assert(clock_level(s3));
    assert(sampled_bits(s4) == sampled_bits(w).push(bit));
    assert(clock_level(s4));
    assert(sampled_bits(s5) == sampled_bits(w).push(bit));
    assert(!clock_level(s5));
    assert(sampled_bits(s6) == sampled_bits(w).push(bit));
}

proof fn lemma_bits_wave_samples(w: Seq<BusOp>, b: u8, n: nat)
    requires
        !clock_level(w),
        n <= 8,
    ensures
        sampled_bits(w + bits_wave(b, n)) == sampled_bits(w) + lsb_first(b).take(n as int),
        !clock_level(w + bits_wave(b, n)),
    decreases n,
{
    if n == 0 {
        assert(w + bits_wave(b, 0) =~= w);
        assert(sampled_bits(w) + lsb_first(b).take(0) =~= sampled_bits(w));
    } else {
        let m = (n - 1) as nat;
        lemma_bits_wave_samples(w, b, m);
        let v = w + bits_wave(b, m);
        lemma_bit_wave_samples(v, bit_of(b, m));
        assert(w + bits_wave(b, n) =~= v + bit_wave(bit_of(b, m)));
        assert((sampled_bits(w) + lsb_first(b).take(m as int)).push(bit_of(b, m)) =~= sampled_bits(
            w,
        ) + lsb_first(b).take(n as int));
    }
}

/// Shifting out a byte, from a low clock, hands the device its bits least
/// significant first, one at each rising clock edge, and leaves the clock low.
pub proof fn lemma_byte_sent_lsb_first(prefix: Seq<BusOp>, byte: u8)
    requires
        !clock_level(prefix),
    ensures
        sampled_bits(prefix + byte_wave(byte)) == sampled_bits(prefix) + lsb_first(byte),
        !clock_level(prefix + byte_wave(byte)),
{
    lemma_bits_wave_samples(prefix, byte, 8);
    assert(lsb_first(byte).take(8) =~= lsb_first(byte));
}

/// Segment pattern of one display position.
pub fn segment_pattern(cell: Option<u8>) -> (r: u8)
    ensures
        r == segments_of(cell),
{
    match cell {
        Some(0u8) => 0x3F,
        Some(1u8) => 0x06,
        Some(2u8) => 0x5B,
        Some(3u8) => 0x4F,
        Some(4u8) => 0x66,
        Some(5u8) => 0x6D,
        Some(6u8) => 0x7D,
        Some(7u8) => 0x07,
        Some(8u8) => 0x7F,
        Some(9u8) => 0x6F,
        _ => 0x00,
    }
}

/// A TM1638 display controller that records the bus steps of each
/// transaction, for the caller to play out on the clock, data and strobe pins.
pub struct SimpleTM1638 {
    pub ops: Vec<BusOp>,
}

impl View for SimpleTM1638 {
    type V = Seq<BusOp>;

    open spec fn view(&self) -> Seq<BusOp> {
        self.ops@
    }
}

impl SimpleTM1638 {
    /// A controller with no steps recorded.
    pub fn new() -> (r: SimpleTM1638)
        ensures
            r@ == Seq::<BusOp>::empty(),
    {
        SimpleTM1638 { ops: Vec::new() }
    }

    /// Forgets the recorded steps, once they have been played out.
    pub fn clear(&mut self)
        ensures
            final(self)@ == Seq::<BusOp>::empty(),
    {
        self.ops.clear();
    }

    fn strobe(&mut self, high: bool)
        ensures
            final(self)@ == old(self)@ + strobe_wave(high),
    {
        self.ops.push(BusOp::Drive(Line::Strobe, high));
        self.ops.push(BusOp::DelayUs(STROBE_SETTLE_US));
        assert(self@ =~= old(self)@ + strobe_wave(high));
    }

    /// Shifts out `byte`, least significant bit first: for each bit, set the
    /// data line, wait, and pulse the clock, which the device samples on its
    /// rising edge.
    pub fn send_byte(&mut self, byte: u8)
        ensures
            final(self)@ == old(self)@ + byte_wave(byte),
    {
        let mut i: u8 = 0;
        while i < 8
            invariant
                i <= 8,
                self@ == old(self)@ + bits_wave(byte, i as nat),
            decreases 8 - i,
        {
            let bit: bool = (byte >> i) & 1u8 == 1u8;
            self.ops.push(BusOp::Drive(Line::Data, bit));
            self.ops.push(BusOp::DelayUs(DATA_SETUP_US));
            self.ops.push(BusOp::Drive(Line::Clock, true));
            self.ops.push(BusOp::DelayUs(CLOCK_HOLD_US));
            self.ops.push(BusOp::Drive(Line::Clock, false));
            self.ops.push(BusOp::DelayUs(CLOCK_HOLD_US));
            assert(self@ =~= old(self)@ + bits_wave(byte, (i + 1) as nat));
            i = i + 1;
        }
    }

    /// Shows four positions (each a digit or blank) and turns the display on.
    pub fn write_digits(&mut self, digits: &[Option<u8>; 4])
        requires
            valid_cells(digits@),
        ensures
            final(self)@ == old(self)@ + frame_wave(digits@),
    {
        self.strobe(false);
        self.send_byte(CMD_AUTO_INCREMENT);
        self.strobe(true);
        self.strobe(false);
        self.send_byte(CMD_ADDRESS_ZERO);
        let ghost head = self@;
        let mut idx: usize = 0;
        while idx < 4
            invariant
                idx <= 4,
                self@ == head + cells_wave(digits@, idx as nat),
            decreases 4 - idx,
        {
            let pattern = segment_pattern(digits[idx]);
            self.send_byte(pattern);
            if idx < 3 {
                self.send_byte(0x00);
            }
            assert(self@ =~= head + cells_wave(digits@, (idx + 1) as nat));
            idx = idx + 1;
        }
        self.strobe(true);
        self.strobe(false);
        self.send_byte(CMD_DISPLAY_ON);
        self.strobe(true);
        assert(self@ =~= old(self)@ + frame_wave(digits@));
    }
}

/// Shows `distance_cm` (clamped to 9999) right-aligned, without leading zeros.
pub fn display_distance(display: &mut SimpleTM1638, distance_cm: u16)
    ensures
        final(display)@ == old(display)@ + frame_wave(rendered(distance_cm as int)),
{
    let digits = split(distance_cm);
    display.write_digits(&digits);
}

} // verus!
