//! Bit-exact encoder for the two-wire addressable-LED protocol.
//!
//! One LED update is a start frame (data low, a configurable number of clock
//! pulses), a four-byte data frame (control byte, then blue, green, red, each
//! byte shifted out most-significant bit first), and an end frame (data
//! driven to a fixed level, then more clock pulses). The encoder computes the
//! exact sequence of line writes; an unverified shell performs them with the
//! configured inter-edge dwell.

use vstd::arithmetic::div_mod::{
    lemma_div_is_ordered, lemma_div_pos_is_pos, lemma_multiply_divide_lt,
};
use vstd::prelude::*;

use crate::wire::{cw, dw, lemma_rising_edges_add, rising_edges, Line, LineWrite};

verus! {

/// Timing and framing parameters of one LED update.
///
/// The pulse counts are configurable because some LED die variants need more
/// than 32 start-frame pulses to latch; the dwell is configurable because the
/// required inter-edge margin differs between board revisions. The end-frame
/// data level is a named choice: this board drives the data line high while
/// shifting the end frame out.
#[derive(Clone, Copy, PartialEq, Eq, Structural, Debug)]
pub struct FrameConfig {
    /// Clock pulses in the start frame.
    pub start_pulses: u32,
    /// Clock pulses in the end frame.
    pub end_pulses: u32,
    /// Dwell between clock edges, in nanoseconds.
    pub dwell_ns: u64,
    /// Level held on the data line during the end frame.
    pub end_level: bool,
}

impl Default for FrameConfig {
    /// The board's stock timing: 32 pulses either side, 250 ns dwell,
    /// data high during the end frame.
    fn default() -> (c: Self)
        ensures
            c == (FrameConfig { start_pulses: 32u32, end_pulses: 32u32, dwell_ns: 250u64, end_level: true }),
    {
        FrameConfig { start_pulses: 32, end_pulses: 32, dwell_ns: 250, end_level: true }
    }
}

/// `round(31 * num / den)` for the exact rational `num / den`, rounding
/// half up. This is the on-wire brightness field before masking.
pub open spec fn brightness_level(num: int, den: int) -> int {
    (62 * num + den) / (2 * den)
}

/// The 5-bit field encoding brightness `num / den`: the rounded level for
/// a brightness up to one, and 31 — full brightness — above that.
pub open spec fn spec_brightness_field(num: int, den: int) -> u8 {
    if num <= den {
        brightness_level(num, den) as u8
    } else {
        31u8
    }
}

/// The 5-bit brightness field for brightness `num / den`.
///
/// Inputs above one are clamped to one (field 31) rather than wrapped
/// through the bit mask: clamping keeps the field monotonic in the
/// brightness, where wrapping would send a slightly-too-large brightness
/// back to a dark field. Within `[0, 1]` clamping and masking agree.
pub fn brightness_field(num: u64, den: u64) -> (f: u8)
    requires
        1 <= den,
    ensures
        f == spec_brightness_field(num as int, den as int),
        num <= den ==> f == brightness_level(num as int, den as int),
        num > den ==> f == 31,
        f <= 31,
{
    let n: u64 = if num > den { den } else { num };
    let q: u128 = (62 * (n as u128) + (den as u128)) / (2 * (den as u128));
    proof {
        let ni = n as int;
        let di = den as int;
        assert(62 * ni + di < (2 * di) * 32) by (nonlinear_arith)
            requires 1 <= di && ni <= di;
        lemma_multiply_divide_lt(62 * ni + di, 2 * di, 32);
        lemma_div_pos_is_pos(62 * ni + di, 2 * di);
        assert((62 * di + di) / (2 * di) == 31) by (nonlinear_arith)
            requires 1 <= di;
    }
    q as u8
}

/// The control byte that precedes the colour bytes: top three bits fixed
/// to ones, low five bits the brightness field.
pub open spec fn spec_control_byte(field: u8) -> u8 {
    0xE0u8 | (field & 0x1Fu8)
}

/// Builds the control byte from a brightness field.
pub fn control_byte(field: u8) -> (b: u8)
    ensures
        b == spec_control_byte(field),
        field <= 31 ==> b == 0xE0 + field,
{
    proof {
        assert(field <= 31 ==> (0xE0u8 | (field & 0x1Fu8)) == (0xE0 + field) as u8) by (bit_vector);
    }
    0xE0u8 | (field & 0x1Fu8)
}

/// For a field within the 5-bit range the mask leaves it unchanged, and
/// the control byte is plainly `0xE0` plus the field.
pub proof fn lemma_control_byte_value(field: u8)
    requires
        field <= 31,
    ensures
        spec_control_byte(field) == 0xE0 + field,
{
    assert((0xE0u8 | (field & 0x1Fu8)) == (0xE0 + field) as u8) by (bit_vector)
        requires field <= 31u8;
}

/// The four bytes of the LED data frame, in send order: control byte,
/// then blue, green, red — not red-green-blue.
pub fn frame_bytes(red: u8, green: u8, blue: u8, field: u8) -> (bytes: Vec<u8>)
    ensures
        bytes@ =~= seq![spec_control_byte(field), blue, green, red],
{
    let mut v: Vec<u8> = Vec::new();
    v.push(control_byte(field));
    v.push(blue);
    v.push(green);
    v.push(red);
    v
}

/// Bit `i` of `b`, counting from the most significant: the wire sends
/// bit 0 (the top bit) first.
pub open spec fn bit_msb(b: u8, i: int) -> bool
    recommends
        0 <= i < 8,
{
    (b >> ((7 - i) as u8)) & 1 == 1
}

/// The three writes that put one bit on the wire: data to the bit's
/// value, then one clock pulse.
pub open spec fn bit_writes(b: u8, i: int) -> Seq<LineWrite> {
    seq![dw(bit_msb(b, i)), cw(true), cw(false)]
}

/// The writes for the first `n` bits of `b`, most significant first.
pub open spec fn byte_writes_upto(b: u8, n: int) -> Seq<LineWrite>
    decreases n,
{
    if n <= 0 {
        Seq::empty()
    } else {
        byte_writes_upto(b, n - 1) + bit_writes(b, n - 1)
    }
}

/// The writes that shift one whole byte out, most significant bit first.
pub open spec fn byte_writes(b: u8) -> Seq<LineWrite> {
    byte_writes_upto(b, 8)
}

/// Appends the writes for one byte, most significant bit first: for each
/// bit, data to the bit's value, clock high, clock low.
pub fn push_byte_writes(out: &mut Vec<LineWrite>, b: u8)
    ensures
        final(out)@ == old(out)@ + byte_writes(b),
{
    let ghost init = out@;
    for i in 0..8usize
        invariant
            out@ =~= init + byte_writes_upto(b, i as int),
    {
        let shift: u8 = (7 - i) as u8;
        let bit: bool = ((b >> shift) & 1) == 1;
        assert(bit == bit_msb(b, i as int));
        out.push(LineWrite { line: Line::Data, value: bit });
        out.push(LineWrite { line: Line::Clock, value: true });
        out.push(LineWrite { line: Line::Clock, value: false });
    }
    assert(out@ =~= init + byte_writes(b));
}

/// `n` clock pulses: clock high then clock low, `n` times over.
pub open spec fn pulse_writes(n: int) -> Seq<LineWrite>
    decreases n,
{
    if n <= 0 {
        Seq::empty()
    } else {
        pulse_writes(n - 1) + seq![cw(true), cw(false)]
    }
}

/// Appends `n` clock pulses.
pub fn push_pulses(out: &mut Vec<LineWrite>, n: u32)
    ensures
        final(out)@ == old(out)@ + pulse_writes(n as int),
{
    let ghost init = out@;
    for i in 0..n
        invariant
            out@ =~= init + pulse_writes(i as int),
    {
        out.push(LineWrite { line: Line::Clock, value: true });
        out.push(LineWrite { line: Line::Clock, value: false });
    }
}

/// The start frame: data low, then the configured number of clock pulses.
pub open spec fn start_frame_writes(pulses: int) -> Seq<LineWrite> {
    seq![dw(false)] + pulse_writes(pulses)
}

/// The end frame: data to the configured level, then the configured
/// number of clock pulses, shifting the data frame out to the LED.
pub open spec fn end_frame_writes(pulses: int, level: bool) -> Seq<LineWrite> {
    seq![dw(level)] + pulse_writes(pulses)
}

/// Every write of one LED update, in order: start frame, control byte,
/// blue, green, red, end frame.
pub open spec fn frame_writes(cfg: FrameConfig, red: u8, green: u8, blue: u8, field: u8) -> Seq<
    LineWrite,
> {
    start_frame_writes(cfg.start_pulses as int) + byte_writes(spec_control_byte(field))
        + byte_writes(blue) + byte_writes(green) + byte_writes(red) + end_frame_writes(
        cfg.end_pulses as int,
        cfg.end_level,
    )
}

/// Computes the full write sequence of one LED update for the given
/// colour and 5-bit brightness field.
pub fn led_frame(cfg: &FrameConfig, red: u8, green: u8, blue: u8, field: u8) -> (w: Vec<LineWrite>)
    ensures
        w@ == frame_writes(*cfg, red, green, blue, field),
{
    let mut out: Vec<LineWrite> = Vec::new();
    out.push(LineWrite { line: Line::Data, value: false });
    push_pulses(&mut out, cfg.start_pulses);
    assert(out@ =~= start_frame_writes(cfg.start_pulses as int));
    push_byte_writes(&mut out, control_byte(field));
    push_byte_writes(&mut out, blue);
    push_byte_writes(&mut out, green);
    push_byte_writes(&mut out, red);
    let ghost before_end = out@;
    out.push(LineWrite { line: Line::Data, value: cfg.end_level });
    push_pulses(&mut out, cfg.end_pulses);
    assert(out@ =~= before_end + end_frame_writes(cfg.end_pulses as int, cfg.end_level));
    assert(out@ =~= frame_writes(*cfg, red, green, blue, field));
    out
}

/// The whole compute side of one LED update: encodes the brightness
/// `num / den` into its 5-bit field, clamping above one, and lays out
/// every write of the frame for it.
pub fn set_led_writes(cfg: &FrameConfig, red: u8, green: u8, blue: u8, num: u64, den: u64) -> (w:
    Vec<LineWrite>)
    requires
        1 <= den,
    ensures
        w@ == frame_writes(*cfg, red, green, blue, spec_brightness_field(num as int, den as int)),
{
    let field = brightness_field(num, den);
    led_frame(cfg, red, green, blue, field)
}

/// A sequence of one write holds a rising edge exactly when that write
/// raises the clock.
proof fn lemma_single_write_edges(w: LineWrite)
    ensures
        rising_edges(seq![w]) == (if w == cw(true) { 1nat } else { 0nat }),
{
    let s = seq![w];
    assert(s.drop_last() =~= Seq::<LineWrite>::empty());
    assert(rising_edges(Seq::<LineWrite>::empty()) == 0);
    assert(s.last() == w);
}

/// One clock pulse holds one rising edge.
proof fn lemma_pulse_pair_edges()
    ensures
        rising_edges(seq![cw(true), cw(false)]) == 1,
{
    let s1 = seq![cw(true)];
    let s2 = seq![cw(true), cw(false)];
    lemma_single_write_edges(cw(true));
    assert(s2.drop_last() =~= s1);
    assert(s2.last() == cw(false));
}

/// One bit's three writes hold one rising edge.
proof fn lemma_bit_triple_edges(v: bool)
    ensures
        rising_edges(seq![dw(v), cw(true), cw(false)]) == 1,
{
    let s1 = seq![dw(v)];
    let s2 = seq![dw(v), cw(true)];
    let s3 = seq![dw(v), cw(true), cw(false)];
    lemma_single_write_edges(dw(v));
    assert(s2.drop_last() =~= s1);
    assert(s2.last() == cw(true));
    assert(rising_edges(s2) == 1);
    assert(s3.drop_last() =~= s2);
    assert(s3.last() == cw(false));
}

/// `n` pulses contain `n` rising clock edges.
proof fn lemma_pulse_writes_edges(n: int)
    requires
        0 <= n,
    ensures
        rising_edges(pulse_writes(n)) == n,
    decreases n,
{
    if n > 0 {
        lemma_pulse_writes_edges(n - 1);
        lemma_rising_edges_add(pulse_writes(n - 1), seq![cw(true), cw(false)]);
        lemma_pulse_pair_edges();
    }
}

/// The first `n` bits of a byte take `n` rising clock edges.
proof fn lemma_byte_writes_edges(b: u8, n: int)
    requires
        0 <= n <= 8,
    ensures
        rising_edges(byte_writes_upto(b, n)) == n,
    decreases n,
{
    if n > 0 {
        lemma_byte_writes_edges(b, n - 1);
        lemma_rising_edges_add(byte_writes_upto(b, n - 1), bit_writes(b, n - 1));
        lemma_bit_triple_edges(bit_msb(b, n - 1));
    }
}

/// One LED update emits a fixed, configuration-determined number of clock
/// pulses: the start-frame pulses, exactly 32 for the four data bytes,
/// and the end-frame pulses — whatever the colour and brightness.
pub proof fn lemma_frame_pulse_count(cfg: FrameConfig, red: u8, green: u8, blue: u8, field: u8)
    ensures
        rising_edges(frame_writes(cfg, red, green, blue, field)) == cfg.start_pulses + 32
            + cfg.end_pulses,
{
    let sp = cfg.start_pulses as int;
    let ep = cfg.end_pulses as int;
    let d0 = seq![dw(false)];
    let d1 = seq![dw(cfg.end_level)];
    lemma_single_write_edges(dw(false));
    lemma_single_write_edges(dw(cfg.end_level));
    lemma_pulse_writes_edges(sp);
    lemma_pulse_writes_edges(ep);
    lemma_byte_writes_edges(spec_control_byte(field), 8);
    lemma_byte_writes_edges(blue, 8);
    lemma_byte_writes_edges(green, 8);
    lemma_byte_writes_edges(red, 8);
    let s = start_frame_writes(sp);
    let b0 = byte_writes(spec_control_byte(field));
    let b1 = byte_writes(blue);
    let b2 = byte_writes(green);
    let b3 = byte_writes(red);
    let e = end_frame_writes(ep, cfg.end_level);
    lemma_rising_edges_add(d0, pulse_writes(sp));
    lemma_rising_edges_add(d1, pulse_writes(ep));
    lemma_rising_edges_add(s, b0);
    lemma_rising_edges_add(s + b0, b1);
    lemma_rising_edges_add(s + b0 + b1, b2);
    lemma_rising_edges_add(s + b0 + b1 + b2, b3);
    lemma_rising_edges_add(s + b0 + b1 + b2 + b3, e);
}

/// The clamped brightness field is monotonic: a brighter setting never
/// encodes to a darker field — the reason inputs above one clamp to full
/// brightness instead of wrapping through the bit mask.
pub proof fn lemma_brightness_monotonic(num1: int, num2: int, den: int)
    requires
        1 <= den,
        0 <= num1 <= num2,
    ensures
        spec_brightness_field(num1, den) <= spec_brightness_field(num2, den),
{
    if num2 <= den {
        lemma_div_is_ordered(62 * num1 + den, 62 * num2 + den, 2 * den);
        lemma_brightness_endpoints(num1, den);
        lemma_brightness_endpoints(num2, den);
    } else if num1 <= den {
        lemma_brightness_endpoints(num1, den);
    }
}

/// The brightness-field mapping at its anchor points: brightness zero
/// encodes to field 0, brightness one to field 31, and within `[0, 1]`
/// the field never leaves the 5-bit range, so the protocol's bit mask
/// does not alter it.
pub proof fn lemma_brightness_endpoints(num: int, den: int)
    requires
        1 <= den,
        0 <= num <= den,
    ensures
        brightness_level(0, den) == 0,
        brightness_level(den, den) == 31,
        0 <= brightness_level(num, den) <= 31,
{
    assert(den / (2 * den) == 0) by (nonlinear_arith)
        requires 1 <= den;
    assert((62 * den + den) / (2 * den) == 31) by (nonlinear_arith)
        requires 1 <= den;
    assert(62 * num + den < (2 * den) * 32) by (nonlinear_arith)
        requires 1 <= den && num <= den;
    lemma_multiply_divide_lt(62 * num + den, 2 * den, 32);
    lemma_div_pos_is_pos(62 * num + den, 2 * den);
}

} // verus!
