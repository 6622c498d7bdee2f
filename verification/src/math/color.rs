//! RGBA color with eight bits per channel.

use vstd::prelude::*;

verus! {

/// A color with red, green, blue and alpha channels.
#[derive(Clone, Copy, PartialEq, Eq, Structural, Debug)]
pub struct Color {
    pub r: u8,
    pub g: u8,
    pub b: u8,
    pub a: u8,
}

/// What decoding a `0xRRGGBB` value yields: one byte per channel, red in
/// the high byte, and an opaque alpha.
pub open spec fn hex_rgb_color(hex: u32) -> Color {
    Color {
        r: ((hex >> 16) & 0xff) as u8,
        g: ((hex >> 8) & 0xff) as u8,
        b: (hex & 0xff) as u8,
        a: 255,
    }
}

/// What decoding a `0xRRGGBBAA` value yields: the alpha from the low byte,
/// the other channels as [`hex_rgb_color`] decodes the rest.
pub open spec fn hex_rgba_color(hex: u32) -> Color {
    Color {
        r: hex_rgb_color(hex >> 8).r,
        g: hex_rgb_color(hex >> 8).g,
        b: hex_rgb_color(hex >> 8).b,
        a: (hex & 0xff) as u8,
    }
}

impl Color {
    /// The color with the given channels.
    pub fn new(r: u8, g: u8, b: u8, a: u8) -> (c: Self)
        ensures
            c.r == r && c.g == g && c.b == b && c.a == a,
    {
        Self { r, g, b, a }
    }

    /// A hexadecimal color in the form of `0xRRGGBBAA`.
    pub fn from_hex_rgba(hex: u32) -> (c: Self)
        ensures
            c == hex_rgba_color(hex),
    {
        proof {
            assert(hex & 0xff < 256) by (bit_vector);
        }
        let a = hex & 0xff;
        let mut color = Self::from_hex_rgb(hex >> 8);
        color.a = a as u8;
        color
    }

    /// A hexadecimal color in the form of `0xRRGGBB`.
    pub fn from_hex_rgb(hex: u32) -> (c: Self)
        ensures
            c == hex_rgb_color(hex),
    {
        proof {
            assert((hex >> 16) & 0xff < 256 && (hex >> 8) & 0xff < 256 && hex & 0xff < 256)
                by (bit_vector);
        }
        Self {
            r: ((hex >> 16) & 0xff) as u8,
            g: ((hex >> 8) & 0xff) as u8,
            b: (hex & 0xff) as u8,
            a: 255,
        }
    }

    /// Opaque black.
    pub fn black() -> (c: Self)
        ensures
            c == hex_rgb_color(0x000000),
    {
        Self::from_hex_rgb(0x000000)
    }

    /// Opaque red.
    pub fn red() -> (c: Self)
        ensures
            c == hex_rgb_color(0xff0000),
    {
        Self::from_hex_rgb(0xff0000)
    }

    /// Opaque green.
    pub fn green() -> (c: Self)
        ensures
            c == hex_rgb_color(0x00ff00),
    {
        Self::from_hex_rgb(0x00ff00)
    }

    /// Opaque blue.
    pub fn blue() -> (c: Self)
        ensures
            c == hex_rgb_color(0x0000ff),
    {
        Self::from_hex_rgb(0x0000ff)
    }

    /// Opaque white.
    pub fn white() -> (c: Self)
        ensures
            c == hex_rgb_color(0xffffff),
    {
        Self::from_hex_rgb(0xffffff)
    }

    /// Fully transparent black.
    pub fn transparent() -> (c: Self)
        ensures
            c == hex_rgba_color(0),
    {
        Self::from_hex_rgba(0)
    }
}

} // verus!
