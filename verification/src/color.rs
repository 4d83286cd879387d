//! The uniform interface over color formats.
//!
//! Every format answers the same questions: what its components are, what
//! they look like as an array with or without alpha, and what the color is in
//! the 8-bit sRGB formats. A format without a native alpha channel reports
//! the maximum value of its component type, that is, full opacity.

use vstd::prelude::*;
use crate::srgb::{Srgb8, Srgba8};

verus! {

/// Common color trait for the supported color formats.
pub trait Color {
    /// The type of the inner color components.
    type Inner;

    /// Returns the red luminosity.
    fn color_red(&self) -> Self::Inner;

    /// Returns the green luminosity.
    fn color_green(&self) -> Self::Inner;

    /// Returns the blue luminosity.
    fn color_blue(&self) -> Self::Inner;

    /// Returns the alpha luminosity.
    fn color_alpha(&self) -> Self::Inner;

    /// Returns the 3 components, without alpha.
    fn color_to_array3(&self) -> [Self::Inner; 3];

    /// Returns the 4 components, with alpha.
    ///
    /// If the specific color type has no alpha the maximum value is returned.
    fn color_to_array4(&self) -> [Self::Inner; 4];

    /// Conversion to [`Srgb8`].
    fn color_to_srgb8(&self) -> Srgb8;

    /// Conversion to [`Srgba8`].
    fn color_to_srgba8(&self) -> Srgba8;
}

impl Color for Srgb8 {
    type Inner = u8;

    /// Returns the gamma corrected red luminosity.
    fn color_red(&self) -> (out: u8)
        ensures
            out == self.r,
    {
        self.r
    }

    /// Returns the gamma corrected green luminosity.
    fn color_green(&self) -> (out: u8)
        ensures
            out == self.g,
    {
        self.g
    }

    /// Returns the gamma corrected blue luminosity.
    fn color_blue(&self) -> (out: u8)
        ensures
            out == self.b,
    {
        self.b
    }

    /// Returns the maximum opacity alpha.
    fn color_alpha(&self) -> (out: u8)
        ensures
            out == u8::MAX,
    {
        u8::MAX
    }

    fn color_to_array3(&self) -> (out: [u8; 3])
        ensures
            out@ == self.channels(),
    {
        let out = [self.r, self.g, self.b];
        assert(out@ =~= self.channels());
        out
    }

    fn color_to_array4(&self) -> (out: [u8; 4])
        ensures
            out@ == self.with_alpha(u8::MAX).channels(),
    {
        let out = [self.r, self.g, self.b, u8::MAX];
        assert(out@ =~= self.with_alpha(u8::MAX).channels());
        out
    }

    /// The color itself.
    fn color_to_srgb8(&self) -> (out: Srgb8)
        ensures
            out == *self,
    {
        *self
    }

    /// Adds alpha at maximum opacity.
    fn color_to_srgba8(&self) -> (out: Srgba8)
        ensures
            out == self.with_alpha(u8::MAX),
    {
        self.to_srgba8(u8::MAX)
    }
}

impl Color for Srgba8 {
    type Inner = u8;

    /// Returns the gamma corrected red luminosity.
    fn color_red(&self) -> (out: u8)
        ensures
            out == self.r,
    {
        self.r
    }

    /// Returns the gamma corrected green luminosity.
    fn color_green(&self) -> (out: u8)
        ensures
            out == self.g,
    {
        self.g
    }

    /// Returns the gamma corrected blue luminosity.
    fn color_blue(&self) -> (out: u8)
        ensures
            out == self.b,
    {
        self.b
    }

    /// Returns the linear alpha.
    fn color_alpha(&self) -> (out: u8)
        ensures
            out == self.a,
    {
        self.a
    }

    fn color_to_array3(&self) -> (out: [u8; 3])
        ensures
            out@ == self.without_alpha().channels(),
    {
        let out = [self.r, self.g, self.b];
        assert(out@ =~= self.without_alpha().channels());
        out
    }

    fn color_to_array4(&self) -> (out: [u8; 4])
        ensures
            out@ == self.channels(),
    {
        let out = [self.r, self.g, self.b, self.a];
        assert(out@ =~= self.channels());
        out
    }

    /// Loses the alpha channel.
    fn color_to_srgb8(&self) -> (out: Srgb8)
        ensures
            out == self.without_alpha(),
    {
        self.to_srgb8()
    }

    /// The color itself.
    fn color_to_srgba8(&self) -> (out: Srgba8)
        ensures
            out == *self,
    {
        *self
    }
}

/// The two 8-bit formats agree through the interface: an opaque color and the
/// same color with alpha at maximum opacity report the same four components,
/// and each is what the interface turns the other into.
pub proof fn lemma_opaque_formats_agree(c: Srgb8)
    ensures
        c.with_alpha(u8::MAX).channels() == c.channels().push(u8::MAX),
        c.with_alpha(u8::MAX).without_alpha() == c,
{
    assert(c.with_alpha(u8::MAX).channels() =~= c.channels().push(u8::MAX));
}

} // verus!
