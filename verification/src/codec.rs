use vstd::prelude::*;

use crate::color::Rgb8;
use crate::palette::{Palette, PaletteView, ANSI_SLOTS};

verus! {

/// The first byte of every cache file; any other value marks the file as
/// written by an unknown format and makes it undecodable.
pub const FORMAT_VERSION: u8 = 1;

/// The byte length of every well-formed cache file: the version byte,
/// background and foreground colors, and sixteen slot colors, three bytes
/// each.
pub const ENCODED_LEN: usize = 55;

/// One color as its three channel bytes.
pub open spec fn color_bytes_spec(c: Rgb8) -> Seq<u8> {
    seq![c.r, c.g, c.b]
}

/// A sequence of slot colors as their channel bytes, in slot order.
pub open spec fn slots_bytes_spec(s: Seq<Rgb8>) -> Seq<u8>
    decreases s.len(),
{
    if s.len() == 0 {
        Seq::empty()
    } else {
        color_bytes_spec(s[0]) + slots_bytes_spec(s.drop_first())
    }
}

/// The serialized form of a palette: the format version byte, then the
/// background, foreground and slot colors.
pub open spec fn encode_spec(p: PaletteView) -> Seq<u8> {
    seq![FORMAT_VERSION] + color_bytes_spec(p.background) + color_bytes_spec(p.foreground)
        + slots_bytes_spec(p.slots)
}

/// The color stored at byte offset `k` of a serialized palette.
pub open spec fn color_at_spec(b: Seq<u8>, k: int) -> Rgb8 {
    Rgb8 { r: b[k], g: b[k + 1], b: b[k + 2] }
}

/// The palette a byte sequence decodes to: bytes of any other length, or
/// with any other leading byte, decode to nothing.
pub open spec fn decode_spec(b: Seq<u8>) -> Option<PaletteView> {
    if b.len() == ENCODED_LEN && b[0] == FORMAT_VERSION {
        Some(
            PaletteView {
                background: color_at_spec(b, 1),
                foreground: color_at_spec(b, 4),
                slots: Seq::new(ANSI_SLOTS as nat, |i: int| color_at_spec(b, 7 + 3 * i)),
            },
        )
    } else {
        None
    }
}

/// The serialized slots take three bytes per slot, and the bytes of slot
/// `i` stand at offset `3 * i`.
proof fn lemma_slots_bytes_index(s: Seq<Rgb8>)
    ensures
        slots_bytes_spec(s).len() == 3 * s.len(),
        forall|i: int|
            0 <= i < s.len() ==> #[trigger] color_at_spec(slots_bytes_spec(s), 3 * i) == s[i],
    decreases s.len(),
{
    if s.len() == 0 {
    } else {
        lemma_slots_bytes_index(s.drop_first());
        let tail = slots_bytes_spec(s.drop_first());
        assert forall|i: int| 0 <= i < s.len() implies #[trigger] color_at_spec(
            slots_bytes_spec(s),
            3 * i,
        ) == s[i] by {
            if i == 0 {
            } else {
                assert(color_at_spec(tail, 3 * (i - 1)) == s.drop_first()[i - 1]);
                assert(slots_bytes_spec(s)[3 * i] == tail[3 * (i - 1)]);
                assert(slots_bytes_spec(s)[3 * i + 1] == tail[3 * (i - 1) + 1]);
                assert(slots_bytes_spec(s)[3 * i + 2] == tail[3 * (i - 1) + 2]);
            }
        }
    }
}

/// Serializing a well-formed palette and decoding the bytes gives the
/// same palette back: the cache file format round-trips exactly.
pub proof fn lemma_round_trip(p: PaletteView)
    requires
        p.wf(),
    ensures
        decode_spec(encode_spec(p)) == Some(p),
{
    let b = encode_spec(p);
    lemma_slots_bytes_index(p.slots);
    assert(b.len() == ENCODED_LEN);
    assert(b[0] == FORMAT_VERSION);
    let q = decode_spec(b).unwrap();
    assert(q.background == p.background);
    assert(q.foreground == p.foreground);
    assert forall|i: int| 0 <= i < ANSI_SLOTS implies q.slots[i] == p.slots[i] by {
        assert(color_at_spec(slots_bytes_spec(p.slots), 3 * i) == p.slots[i]);
        assert(b[7 + 3 * i] == slots_bytes_spec(p.slots)[3 * i]);
        assert(b[7 + 3 * i + 1] == slots_bytes_spec(p.slots)[3 * i + 1]);
        assert(b[7 + 3 * i + 2] == slots_bytes_spec(p.slots)[3 * i + 2]);
    }
    assert(q.slots =~= p.slots);
    assert(q =~= p);
}

fn push_color(out: &mut Vec<u8>, c: Rgb8)
    ensures
        final(out)@ == old(out)@ + color_bytes_spec(c),
{
    out.push(c.r);
    out.push(c.g);
    out.push(c.b);
    proof {
        assert(out@ =~= old(out)@ + color_bytes_spec(c));
    }
}

/// Serialize a palette into the cache file format.
pub fn encode_palette(p: &Palette) -> (r: Vec<u8>)
    requires
        p.wf(),
    ensures
        r@ == encode_spec(p@),
{
    let mut out: Vec<u8> = Vec::new();
    out.push(FORMAT_VERSION);
    push_color(&mut out, p.background);
    push_color(&mut out, p.foreground);
    proof {
        lemma_slots_bytes_index(p@.slots);
    }
    let ghost prefix = out@;
    let n = p.slots.len();
    for i in 0..n
        invariant
            n == ANSI_SLOTS,
            n == p.slots@.len(),
            out@ == prefix + slots_bytes_spec(p.slots@.take(i as int)),
        {
        let c = p.slots[i];
        push_color(&mut out, c);
        proof {
            lemma_slots_bytes_snoc(p.slots@.take(i as int), c);
            assert(p.slots@.take(i as int).push(c) =~= p.slots@.take(i + 1));
            assert(out@ =~= prefix + slots_bytes_spec(p.slots@.take(i + 1)));
        }
    }
    proof {
        assert(p.slots@.take(n as int) =~= p.slots@);
        assert(out@ =~= encode_spec(p@));
    }
    out
}

/// Appending one slot appends its three channel bytes.
proof fn lemma_slots_bytes_snoc(s: Seq<Rgb8>, c: Rgb8)
    ensures
        slots_bytes_spec(s.push(c)) == slots_bytes_spec(s) + color_bytes_spec(c),
    decreases s.len(),
{
    if s.len() == 0 {
        assert(s.push(c).drop_first() =~= s);
        assert(slots_bytes_spec(s.push(c)) =~= slots_bytes_spec(s) + color_bytes_spec(c));
    } else {
        lemma_slots_bytes_snoc(s.drop_first(), c);
        assert(s.push(c).drop_first() =~= s.drop_first().push(c));
        assert(s.push(c)[0] == s[0]);
        assert(slots_bytes_spec(s.push(c)) =~= slots_bytes_spec(s) + color_bytes_spec(c));
    }
}

/// Deserialize a cache file. Bytes that are not a well-formed cache file
/// decode to `None`, never to an error.
pub fn decode_palette(b: &Vec<u8>) -> (r: Option<Palette>)
    ensures
        match r {
            Some(p) => p.wf() && decode_spec(b@) == Some(p@),
            None => decode_spec(b@) is None,
        },
{
    if b.len() != ENCODED_LEN {
        return None;
    }
    if b[0] != FORMAT_VERSION {
        return None;
    }
    let background = Rgb8 { r: b[1], g: b[2], b: b[3] };
    let foreground = Rgb8 { r: b[4], g: b[5], b: b[6] };
    let mut slots: Vec<Rgb8> = Vec::new();
    for i in 0..ANSI_SLOTS
        invariant
            b@.len() == ENCODED_LEN,
            slots@.len() == i,
            forall|j: int| 0 <= j < i ==> slots@[j] == color_at_spec(b@, 7 + 3 * j),
    {
        slots.push(Rgb8 { r: b[7 + 3 * i], g: b[8 + 3 * i], b: b[9 + 3 * i] });
    }
    let p = Palette { background, foreground, slots };
    proof {
        let v = decode_spec(b@).unwrap();
        assert(p@.slots =~= v.slots);
        assert(p@ =~= v);
    }
    Some(p)
}

} // verus!
