//! Gamma-encoded sRGB colors with 8-bit channels.
//!
//! [`Srgb8`] is opaque, [`Srgba8`] carries a linear alpha channel. Moving
//! between the two only adds or drops the alpha byte; the three color bytes
//! are never touched.

use core::cmp::Ordering;
use vstd::prelude::*;
use vstd::std_specs::cmp::PartialOrdSpecImpl;

verus! {

/// The order of two channel values.
pub open spec fn channel_order(x: u8, y: u8) -> Ordering {
    if x < y {
        Ordering::Less
    } else if x == y {
        Ordering::Equal
    } else {
        Ordering::Greater
    }
}

/// Returns the order of two channel values.
fn order_channels(x: u8, y: u8) -> (out: Ordering)
    ensures
        out == channel_order(x, y),
{
    if x < y {
        Ordering::Less
    } else if x == y {
        Ordering::Equal
    } else {
        Ordering::Greater
    }
}

/// Non-linear sRGB color with `3` × [`u8`] components.
///
/// The alpha channel is implicit and always at maximum opacity.
///
/// Colors are ordered by red, then green, then blue.
#[derive(Debug, Clone, Copy, PartialEq, Eq, Structural, Ord)]
pub struct Srgb8 {
    /// Gamma encoded red luminosity.
    pub r: u8,
    /// Gamma encoded green luminosity.
    pub g: u8,
    /// Gamma encoded blue luminosity.
    pub b: u8,
}

/// Non-linear sRGB+A color with `4` × [`u8`] components.
///
/// Colors are ordered by red, then green, then blue, then alpha.
#[derive(Debug, Clone, Copy, PartialEq, Eq, Structural, Ord)]
pub struct Srgba8 {
    /// Gamma encoded red luminosity.
    pub r: u8,
    /// Gamma encoded green luminosity.
    pub g: u8,
    /// Gamma encoded blue luminosity.
    pub b: u8,
    /// Linear alpha channel.
    pub a: u8,
}

impl Default for Srgb8 {
    /// Black.
    fn default() -> (c: Srgb8)
        ensures
            c == (Srgb8 { r: 0, g: 0, b: 0 }),
    {
        Srgb8 { r: 0, g: 0, b: 0 }
    }
}

impl Default for Srgba8 {
    /// Fully transparent black.
    fn default() -> (c: Srgba8)
        ensures
            c == (Srgba8 { r: 0, g: 0, b: 0, a: 0 }),
    {
        Srgba8 { r: 0, g: 0, b: 0, a: 0 }
    }
}

impl PartialOrd for Srgb8 {
    fn partial_cmp(&self, other: &Srgb8) -> (out: Option<Ordering>) {
        if self.r != other.r {
            Some(order_channels(self.r, other.r))
        } else if self.g != other.g {
            Some(order_channels(self.g, other.g))
        } else {
            Some(order_channels(self.b, other.b))
        }
    }
}

impl PartialOrdSpecImpl for Srgb8 {
    open spec fn obeys_partial_cmp_spec() -> bool {
        true
    }

    open spec fn partial_cmp_spec(&self, other: &Srgb8) -> Option<Ordering> {
        Some(self.order(*other))
    }
}

impl PartialOrd for Srgba8 {
    fn partial_cmp(&self, other: &Srgba8) -> (out: Option<Ordering>) {
        if self.r != other.r {
            Some(order_channels(self.r, other.r))
        } else if self.g != other.g {
            Some(order_channels(self.g, other.g))
        } else if self.b != other.b {
            Some(order_channels(self.b, other.b))
        } else {
            Some(order_channels(self.a, other.a))
        }
    }
}

impl PartialOrdSpecImpl for Srgba8 {
    open spec fn obeys_partial_cmp_spec() -> bool {
        true
    }

    open spec fn partial_cmp_spec(&self, other: &Srgba8) -> Option<Ordering> {
        Some(self.order(*other))
    }
}

impl Srgb8 {
    /// The order of two colors: that of the first channel in which they
    /// differ, taken in the order red, green, blue.
    pub open spec fn order(self, other: Srgb8) -> Ordering {
        if self.r != other.r {
            channel_order(self.r, other.r)
        } else if self.g != other.g {
            channel_order(self.g, other.g)
        } else {
            channel_order(self.b, other.b)
        }
    }

    /// The color without alpha, as a sequence `[r, g, b]`.
    pub open spec fn channels(self) -> Seq<u8> {
        seq![self.r, self.g, self.b]
    }

    /// The same color with the given alpha.
    pub open spec fn with_alpha(self, alpha: u8) -> Srgba8 {
        Srgba8 { r: self.r, g: self.g, b: self.b, a: alpha }
    }

    /// New `Srgb8`.
    pub fn new(r: u8, g: u8, b: u8) -> (c: Srgb8)
        ensures
            c == (Srgb8 { r, g, b }),
    {
        Srgb8 { r, g, b }
    }

    /// Direct conversion from an array `[r, g, b]`.
    pub fn from_array(c: [u8; 3]) -> (out: Srgb8)
        ensures
            out == (Srgb8 { r: c[0], g: c[1], b: c[2] }),
            out.channels() == c@,
    {
        let out = Srgb8 { r: c[0], g: c[1], b: c[2] };
        assert(out.channels() =~= c@);
        out
    }

    /// Direct conversion to an array `[r, g, b]`.
    pub fn to_array(c: Srgb8) -> (out: [u8; 3])
        ensures
            out@ == c.channels(),
    {
        let out = [c.r, c.g, c.b];
        assert(out@ =~= c.channels());
        out
    }

    /// Direct conversion from a tuple `(r, g, b)`.
    pub fn from_tuple(c: (u8, u8, u8)) -> (out: Srgb8)
        ensures
            out == (Srgb8 { r: c.0, g: c.1, b: c.2 }),
    {
        Srgb8 { r: c.0, g: c.1, b: c.2 }
    }

    /// Direct conversion to a tuple `(r, g, b)`.
    pub fn to_tuple(c: Srgb8) -> (out: (u8, u8, u8))
        ensures
            out == (c.r, c.g, c.b),
    {
        (c.r, c.g, c.b)
    }

    /// Direct conversion from [`Srgba8`].
    ///
    /// Loses the alpha channel.
    pub fn from_srgba8(c: Srgba8) -> (out: Srgb8)
        ensures
            out == c.without_alpha(),
    {
        Srgb8 { r: c.r, g: c.g, b: c.b }
    }

    /// Direct conversion to [`Srgba8`].
    ///
    /// Expects the alpha channel.
    pub fn to_srgba8(&self, alpha: u8) -> (out: Srgba8)
        ensures
            out == self.with_alpha(alpha),
    {
        Srgba8 { r: self.r, g: self.g, b: self.b, a: alpha }
    }
}

impl Srgba8 {
    /// The order of two colors: that of the first channel in which they
    /// differ, taken in the order red, green, blue, alpha.
    pub open spec fn order(self, other: Srgba8) -> Ordering {
        if self.r != other.r {
            channel_order(self.r, other.r)
        } else if self.g != other.g {
            channel_order(self.g, other.g)
        } else if self.b != other.b {
            channel_order(self.b, other.b)
        } else {
            channel_order(self.a, other.a)
        }
    }

    /// The color with alpha, as a sequence `[r, g, b, a]`.
    pub open spec fn channels(self) -> Seq<u8> {
        seq![self.r, self.g, self.b, self.a]
    }

    /// The same color with the alpha channel dropped.
    pub open spec fn without_alpha(self) -> Srgb8 {
        Srgb8 { r: self.r, g: self.g, b: self.b }
    }

    /// New `Srgba8`.
    pub fn new(r: u8, g: u8, b: u8, a: u8) -> (c: Srgba8)
        ensures
            c == (Srgba8 { r, g, b, a }),
    {
        Srgba8 { r, g, b, a }
    }

    /// Direct conversion from an array `[r, g, b, a]`.
    pub fn from_array(c: [u8; 4]) -> (out: Srgba8)
        ensures
            out == (Srgba8 { r: c[0], g: c[1], b: c[2], a: c[3] }),
            out.channels() == c@,
    {
        let out = Srgba8 { r: c[0], g: c[1], b: c[2], a: c[3] };
        assert(out.channels() =~= c@);
        out
    }

    /// Direct conversion to an array `[r, g, b, a]`.
    pub fn to_array(c: Srgba8) -> (out: [u8; 4])
        ensures
            out@ == c.channels(),
    {
        let out = [c.r, c.g, c.b, c.a];
        assert(out@ =~= c.channels());
        out
    }

    /// Direct conversion from a tuple `(r, g, b, a)`.
    pub fn from_tuple(c: (u8, u8, u8, u8)) -> (out: Srgba8)
        ensures
            out == (Srgba8 { r: c.0, g: c.1, b: c.2, a: c.3 }),
    {
        Srgba8 { r: c.0, g: c.1, b: c.2, a: c.3 }
    }

    /// Direct conversion to a tuple `(r, g, b, a)`.
    pub fn to_tuple(c: Srgba8) -> (out: (u8, u8, u8, u8))
        ensures
            out == (c.r, c.g, c.b, c.a),
    {
        (c.r, c.g, c.b, c.a)
    }

    /// Direct conversion from [`Srgb8`].
    ///
    /// Adds the `alpha` channel.
    pub fn from_srgb8(c: Srgb8, alpha: u8) -> (out: Srgba8)
        ensures
            out == c.with_alpha(alpha),
    {
        Srgba8 { r: c.r, g: c.g, b: c.b, a: alpha }
    }

    /// Direct conversion to [`Srgb8`].
    ///
    /// Loses the alpha channel.
    pub fn to_srgb8(&self) -> (out: Srgb8)
        ensures
            out == self.without_alpha(),
    {
        Srgb8 { r: self.r, g: self.g, b: self.b }
    }
}

impl From<Srgb8> for Srgba8 {
    /// Adds alpha at maximum opacity.
    fn from(c: Srgb8) -> (out: Srgba8) {
        c.to_srgba8(u8::MAX)
    }
}

impl vstd::std_specs::convert::FromSpecImpl<Srgb8> for Srgba8 {
    open spec fn obeys_from_spec() -> bool {
        true
    }

    open spec fn from_spec(c: Srgb8) -> Srgba8 {
        c.with_alpha(u8::MAX)
    }
}

impl From<Srgba8> for Srgb8 {
    /// Loses the alpha channel.
    fn from(c: Srgba8) -> (out: Srgb8) {
        c.to_srgb8()
    }
}

impl vstd::std_specs::convert::FromSpecImpl<Srgba8> for Srgb8 {
    open spec fn obeys_from_spec() -> bool {
        true
    }

    open spec fn from_spec(c: Srgba8) -> Srgb8 {
        c.without_alpha()
    }
}

/// Adding an alpha channel and dropping it again gives back the color:
/// `c.to_srgba8(alpha).to_srgb8() == c` for every color and every alpha.
pub proof fn lemma_add_then_drop_alpha(c: Srgb8, alpha: u8)
    ensures
        c.with_alpha(alpha).without_alpha() == c,
{
}

/// Dropping the alpha channel and putting the same alpha back gives back the
/// color: `c.to_srgb8().to_srgba8(c.a) == c`.
pub proof fn lemma_drop_then_add_alpha(c: Srgba8)
    ensures
        c.without_alpha().with_alpha(c.a) == c,
{
}

/// Adding alpha stores exactly the given byte and leaves the three color
/// bytes as they were; dropping alpha leaves them as they were too.
pub proof fn lemma_alpha_is_only_copied(c: Srgb8, d: Srgba8, alpha: u8)
    ensures
        c.with_alpha(alpha).a == alpha,
        c.with_alpha(alpha).channels() == c.channels().push(alpha),
        d.without_alpha().channels() == d.channels().take(3),
{
    assert(c.with_alpha(alpha).channels() =~= c.channels().push(alpha));
    assert(d.without_alpha().channels() =~= d.channels().take(3));
}

/// The order of colors is a total order that agrees with equality: two colors
/// compare equal exactly when they are the same color, swapping the two
/// reverses the answer, and the order is transitive.
pub proof fn lemma_srgb8_order_is_total(x: Srgb8, y: Srgb8, z: Srgb8)
    ensures
        x.order(y) == Ordering::Equal <==> x == y,
        x.order(y) == Ordering::Less <==> y.order(x) == Ordering::Greater,
        x.order(y) == Ordering::Less && y.order(z) == Ordering::Less ==> x.order(z)
            == Ordering::Less,
{
}

/// The order of colors with alpha is a total order that agrees with equality,
/// and alpha decides only between colors whose other channels are the same.
pub proof fn lemma_srgba8_order_is_total(x: Srgba8, y: Srgba8, z: Srgba8)
    ensures
        x.order(y) == Ordering::Equal <==> x == y,
        x.order(y) == Ordering::Less <==> y.order(x) == Ordering::Greater,
        x.order(y) == Ordering::Less && y.order(z) == Ordering::Less ==> x.order(z)
            == Ordering::Less,
        x.without_alpha() != y.without_alpha() ==> x.order(y) == x.without_alpha().order(
            y.without_alpha(),
        ),
        x.without_alpha() == y.without_alpha() ==> x.order(y) == channel_order(x.a, y.a),
{
}

} // verus!
