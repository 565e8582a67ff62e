use vstd::prelude::*;

use crate::color::Rgb8;
use crate::palette::{Palette, PaletteView};

verus! {

/// The lower-case hex digit for a value below sixteen, as its byte.
pub open spec fn hex_digit_spec(n: u8) -> u8 {
    if n < 10 {
        (48 + n) as u8
    } else {
        (87 + n) as u8
    }
}

/// A byte as its two lower-case hex digits.
pub open spec fn hex_byte_spec(b: u8) -> Seq<u8> {
    seq![hex_digit_spec(b / 16), hex_digit_spec(b % 16)]
}

/// A color in the `rgb:rr/gg/bb` form terminals take.
pub open spec fn rgb_text_spec(c: Rgb8) -> Seq<u8> {
    seq![114u8, 103u8, 98u8, 58u8] + hex_byte_spec(c.r) + seq![47u8] + hex_byte_spec(c.g)
        + seq![47u8] + hex_byte_spec(c.b)
}

/// A slot index below sixteen in decimal digits.
pub open spec fn dec_index_spec(i: u8) -> Seq<u8> {
    if i < 10 {
        seq![(48 + i) as u8]
    } else {
        seq![49u8, (48 + (i - 10)) as u8]
    }
}

/// The escape sequence that sets one ANSI slot color: an operating
/// system command numbered four, with the slot index and the color.
pub open spec fn slot_seq_spec(i: u8, c: Rgb8) -> Seq<u8> {
    seq![27u8, 93u8, 52u8, 59u8] + dec_index_spec(i) + seq![59u8] + rgb_text_spec(c) + seq![
        27u8,
        92u8,
    ]
}

/// The escape sequence that sets the foreground color: an operating
/// system command numbered ten.
pub open spec fn foreground_seq_spec(c: Rgb8) -> Seq<u8> {
    seq![27u8, 93u8, 49u8, 48u8, 59u8] + rgb_text_spec(c) + seq![27u8, 92u8]
}

/// The escape sequence that sets the background color: an operating
/// system command numbered eleven.
pub open spec fn background_seq_spec(c: Rgb8) -> Seq<u8> {
    seq![27u8, 93u8, 49u8, 49u8, 59u8] + rgb_text_spec(c) + seq![27u8, 92u8]
}

/// The slot sequences from slot `i` on, in slot order.
pub open spec fn slots_from_spec(s: Seq<Rgb8>, i: int) -> Seq<u8>
    decreases s.len() - i,
{
    if i < 0 || i >= s.len() {
        Seq::empty()
    } else {
        slot_seq_spec(i as u8, s[i]) + slots_from_spec(s, i + 1)
    }
}

/// Everything written to one terminal for a palette: each slot's
/// sequence in slot order, then the foreground's, then the background's.
pub open spec fn sequences_spec(p: PaletteView) -> Seq<u8> {
    slots_from_spec(p.slots, 0) + foreground_seq_spec(p.foreground) + background_seq_spec(
        p.background,
    )
}

fn push_hex_byte(out: &mut Vec<u8>, b: u8)
    ensures
        final(out)@ == old(out)@ + hex_byte_spec(b),
{
    let hi = b / 16;
    let lo = b % 16;
    out.push(if hi < 10 { 48 + hi } else { 87 + hi });
    out.push(if lo < 10 { 48 + lo } else { 87 + lo });
    proof {
        assert(out@ =~= old(out)@ + hex_byte_spec(b));
    }
}

fn push_rgb_text(out: &mut Vec<u8>, c: Rgb8)
    ensures
        final(out)@ == old(out)@ + rgb_text_spec(c),
{
    out.push(114);
    out.push(103);
    out.push(98);
    out.push(58);
    push_hex_byte(out, c.r);
    out.push(47);
    push_hex_byte(out, c.g);
    out.push(47);
    push_hex_byte(out, c.b);
    proof {
        assert(out@ =~= old(out)@ + rgb_text_spec(c));
    }
}

fn push_slot_seq(out: &mut Vec<u8>, i: u8, c: Rgb8)
    requires
        i < 16,
    ensures
        final(out)@ == old(out)@ + slot_seq_spec(i, c),
{
    out.push(27);
    out.push(93);
    out.push(52);
    out.push(59);
    if i < 10 {
        out.push(48 + i);
    } else {
        out.push(49);
        out.push(48 + (i - 10));
    }
    out.push(59);
    push_rgb_text(out, c);
    out.push(27);
    out.push(92);
    proof {
        assert(out@ =~= old(out)@ + slot_seq_spec(i, c));
    }
}

/// Build the escape sequences that apply a palette to a terminal. The
/// surrounding program writes these bytes to each open terminal's
/// session file; building them is pure.
pub fn terminal_sequences(p: &Palette) -> (r: Vec<u8>)
    requires
        p.wf(),
    ensures
        r@ == sequences_spec(p@),
{
    let mut out: Vec<u8> = Vec::new();
    let ghost slots = p@.slots;
    let n = p.slots.len();
    for i in 0..n
        invariant
            n == slots.len(),
            n == 16,
            p.wf(),
            slots == p@.slots,
            slots_from_spec(slots, 0) == out@ + slots_from_spec(slots, i as int),
    {
        let c = p.slots[i];
        push_slot_seq(&mut out, i as u8, c);
        proof {
            assert(slots_from_spec(slots, 0) =~= out@ + slots_from_spec(slots, i + 1));
        }
    }
    proof {
        assert(out@ =~= slots_from_spec(slots, 0));
    }
    push_rgb_special(&mut out, 48, p.foreground);
    push_rgb_special(&mut out, 49, p.background);
    proof {
        assert(out@ =~= sequences_spec(p@));
    }
    out
}

/// Push the foreground or background sequence: `digit` is the second
/// decimal digit of the command number, ten or eleven.
fn push_rgb_special(out: &mut Vec<u8>, digit: u8, c: Rgb8)
    requires
        digit == 48 || digit == 49,
    ensures
        digit == 48 ==> final(out)@ == old(out)@ + foreground_seq_spec(c),
        digit == 49 ==> final(out)@ == old(out)@ + background_seq_spec(c),
{
    out.push(27);
    out.push(93);
    out.push(49);
    out.push(digit);
    out.push(59);
    push_rgb_text(out, c);
    out.push(27);
    out.push(92);
    proof {
        if digit == 48 {
            assert(out@ =~= old(out)@ + foreground_seq_spec(c));
        } else {
            assert(out@ =~= old(out)@ + background_seq_spec(c));
        }
    }
}

} // verus!
