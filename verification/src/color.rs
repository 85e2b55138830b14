//! Fixed-point RGBA colors and linear blending between two colors.

use vstd::prelude::*;

verus! {

/// A color channel at full intensity. Channels and blend factors are stored
/// in thousandths, so 0 means none and 1000 means full.
pub const CHANNEL_FULL: u32 = 1000;

/// An RGBA color with each channel in thousandths (0 through 1000).
#[derive(Clone, Copy, Debug, PartialEq, Eq, Structural)]
pub struct Rgba {
    pub r: u32,
    pub g: u32,
    pub b: u32,
    pub a: u32,
}

impl Rgba {
    /// All four channels are within the fixed-point range.
    pub open spec fn wf(self) -> bool {
        &&& self.r <= CHANNEL_FULL
        &&& self.g <= CHANNEL_FULL
        &&& self.b <= CHANNEL_FULL
        &&& self.a <= CHANNEL_FULL
    }

    pub fn new(r: u32, g: u32, b: u32, a: u32) -> (c: Rgba)
        ensures
            c == (Rgba { r, g, b, a }),
    {
        Rgba { r, g, b, a }
    }

    /// The same color with its alpha channel replaced.
    pub fn with_alpha(self, a: u32) -> (c: Rgba)
        ensures
            c == (Rgba { a, ..self }),
    {
        Rgba { a, ..self }
    }

    /// Linear interpolation from `self` (at `t == 0`) to `other`
    /// (at `t == CHANNEL_FULL`), channel by channel.
    pub fn mix(&self, other: &Rgba, t: u32) -> (c: Rgba)
        requires
            self.wf(),
            other.wf(),
            t <= CHANNEL_FULL,
        ensures
            c == mixed(*self, *other, t),
            c.wf(),
    {
        Rgba {
            r: mix_one(self.r, other.r, t),
            g: mix_one(self.g, other.g, t),
            b: mix_one(self.b, other.b, t),
            a: mix_one(self.a, other.a, t),
        }
    }
}

/// One channel of a linear blend: the weighted average of `a` and `b`,
/// with weight `t` out of 1000 on `b`.
pub open spec fn mix_channel(a: u32, b: u32, t: u32) -> int {
    (a * (CHANNEL_FULL - t) + b * t) / (CHANNEL_FULL as int)
}

/// `a` blended toward `b` by `t` out of 1000, channel by channel.
pub open spec fn mixed(a: Rgba, b: Rgba, t: u32) -> Rgba {
    Rgba {
        r: mix_channel(a.r, b.r, t) as u32,
        g: mix_channel(a.g, b.g, t) as u32,
        b: mix_channel(a.b, b.b, t) as u32,
        a: mix_channel(a.a, b.a, t) as u32,
    }
}

/// A blend of two in-range channels stays in range, returns `a` exactly at
/// `t == 0`, and returns `b` exactly at `t == CHANNEL_FULL`.
pub proof fn lemma_mix_channel_bounds(a: u32, b: u32, t: u32)
    requires
        a <= CHANNEL_FULL,
        b <= CHANNEL_FULL,
        t <= CHANNEL_FULL,
    ensures
        0 <= mix_channel(a, b, t) <= CHANNEL_FULL,
        t == 0 ==> mix_channel(a, b, t) == a,
        t == CHANNEL_FULL ==> mix_channel(a, b, t) == b,
{
    assert(0 <= (a * (CHANNEL_FULL - t) + b * t) / (CHANNEL_FULL as int) <= CHANNEL_FULL)
        by (nonlinear_arith)
        requires
            a <= CHANNEL_FULL,
            b <= CHANNEL_FULL,
            t <= CHANNEL_FULL,
    ;
    assert(t == 0 ==> (a * (CHANNEL_FULL - t) + b * t) / (CHANNEL_FULL as int) == a)
        by (nonlinear_arith)
        requires
            a <= CHANNEL_FULL,
    ;
    assert(t == CHANNEL_FULL ==> (a * (CHANNEL_FULL - t) + b * t) / (CHANNEL_FULL as int) == b)
        by (nonlinear_arith)
        requires
            b <= CHANNEL_FULL,
    ;
}

fn mix_one(a: u32, b: u32, t: u32) -> (c: u32)
    requires
        a <= CHANNEL_FULL,
        b <= CHANNEL_FULL,
        t <= CHANNEL_FULL,
    ensures
        c == mix_channel(a, b, t),
        c <= CHANNEL_FULL,
{
    proof {
        lemma_mix_channel_bounds(a, b, t);
        assert(a * (CHANNEL_FULL - t) + b * t <= 1000000) by (nonlinear_arith)
            requires
                a <= CHANNEL_FULL,
                b <= CHANNEL_FULL,
                t <= CHANNEL_FULL,
        ;
    }
    let w: u64 = (a as u64) * ((CHANNEL_FULL - t) as u64) + (b as u64) * (t as u64);
    (w / (CHANNEL_FULL as u64)) as u32
}

} // verus!
