use vstd::prelude::*;

verus! {

/// One color as red, green and blue channels, each in 0..=255.
#[derive(Clone, Copy, Debug, PartialEq, Eq, Structural, Hash)]
pub struct Rgb8 {
    pub r: u8,
    pub g: u8,
    pub b: u8,
}

/// A channel darkened by the fixed factor of three tenths: it keeps
/// seven tenths of its value, rounded down.
pub open spec fn darken_channel_spec(c: u8) -> u8 {
    ((c as int) * 7 / 10) as u8
}

/// A color darkened by the fixed factor of three tenths, channel by channel.
pub open spec fn darken_spec(c: Rgb8) -> Rgb8 {
    Rgb8 {
        r: darken_channel_spec(c.r),
        g: darken_channel_spec(c.g),
        b: darken_channel_spec(c.b),
    }
}

fn darken_channel(c: u8) -> (r: u8)
    ensures
        r == darken_channel_spec(c),
{
    ((c as u32) * 7 / 10) as u8
}

/// Darken a color by the fixed factor of three tenths.
pub fn darken(c: Rgb8) -> (r: Rgb8)
    ensures
        r == darken_spec(c),
{
    Rgb8 { r: darken_channel(c.r), g: darken_channel(c.g), b: darken_channel(c.b) }
}

} // verus!
