//! Premultiplied RGBA pixels of eight bits per channel.
use vstd::prelude::*;

verus! {

/// A pixel whose colour channels are already scaled by its alpha.
///
/// `from_rgba_unchecked` does not check that each colour channel is at most
/// the alpha; `is_premultiplied` states it.
#[derive(Clone, Copy, Debug, PartialEq, Eq, Structural)]
pub struct PremultipliedColorU8 {
    pub r: u8,
    pub g: u8,
    pub b: u8,
    pub a: u8,
}

impl PremultipliedColorU8 {
    /// Each colour channel is at most the alpha.
    pub open spec fn is_premultiplied(self) -> bool {
        self.r <= self.a && self.g <= self.a && self.b <= self.a
    }

    /// A pixel from its four channels, as given.
    pub fn from_rgba_unchecked(r: u8, g: u8, b: u8, a: u8) -> (p: PremultipliedColorU8)
        ensures
            p == (PremultipliedColorU8 { r, g, b, a }),
    {
        PremultipliedColorU8 { r, g, b, a }
    }

    /// The pixel with all four channels zero.
    pub fn transparent() -> (p: PremultipliedColorU8)
        ensures
            p == (PremultipliedColorU8 { r: 0, g: 0, b: 0, a: 0 }),
    {
        PremultipliedColorU8 { r: 0, g: 0, b: 0, a: 0 }
    }

    pub fn red(&self) -> (v: u8)
        ensures
            v == self.r,
    {
        self.r
    }

    pub fn green(&self) -> (v: u8)
        ensures
            v == self.g,
    {
        self.g
    }

    pub fn blue(&self) -> (v: u8)
        ensures
            v == self.b,
    {
        self.b
    }

    pub fn alpha(&self) -> (v: u8)
        ensures
            v == self.a,
    {
        self.a
    }
}

} // verus!
