//! The canonical pixel: four 8-bit channels, and the conversions from the row layouts
//! that decoders produce.
use vstd::prelude::*;

verus! {

/// One pixel of the canonical buffer: red, green, blue and alpha, 8 bits each.
#[derive(Debug, Clone, Copy, PartialEq, Eq, Structural)]
pub struct Rgba8 {
    pub r: u8,
    pub g: u8,
    pub b: u8,
    pub a: u8,
}

/// The ways in which an 8-bit decoded row stores one pixel.
#[derive(Debug, Clone, Copy, PartialEq, Eq, Structural)]
pub enum ColorLayout {
    /// One luminance sample.
    Grayscale,
    /// One luminance sample, then one alpha sample.
    GrayscaleAlpha,
    /// Red, green and blue samples.
    Rgb,
    /// Red, green, blue and alpha samples.
    Rgba,
}

/// How many bytes one pixel takes in the layout.
pub open spec fn channels(layout: ColorLayout) -> nat {
    match layout {
        ColorLayout::Grayscale => 1,
        ColorLayout::GrayscaleAlpha => 2,
        ColorLayout::Rgb => 3,
        ColorLayout::Rgba => 4,
    }
}

/// The `i`-th pixel of `bytes` read in the layout, as a canonical pixel: luminance goes to
/// red, green and blue alike, and a layout without alpha is fully opaque.
pub open spec fn pixel_at(layout: ColorLayout, bytes: Seq<u8>, i: int) -> Rgba8 {
    match layout {
        ColorLayout::Grayscale => Rgba8 { r: bytes[i], g: bytes[i], b: bytes[i], a: 255 },
        ColorLayout::GrayscaleAlpha => Rgba8 {
            r: bytes[2 * i],
            g: bytes[2 * i],
            b: bytes[2 * i],
            a: bytes[2 * i + 1],
        },
        ColorLayout::Rgb => Rgba8 {
            r: bytes[3 * i],
            g: bytes[3 * i + 1],
            b: bytes[3 * i + 2],
            a: 255,
        },
        ColorLayout::Rgba => Rgba8 {
            r: bytes[4 * i],
            g: bytes[4 * i + 1],
            b: bytes[4 * i + 2],
            a: bytes[4 * i + 3],
        },
    }
}

/// All pixels of `bytes` read in the layout.
pub open spec fn normalized(layout: ColorLayout, bytes: Seq<u8>) -> Seq<Rgba8> {
    Seq::new(bytes.len() / channels(layout), |i: int| pixel_at(layout, bytes, i))
}

/// Channel `j` of a pixel: red, green, blue, then alpha.
pub open spec fn channel(p: Rgba8, j: int) -> u8 {
    if j == 0 {
        p.r
    } else if j == 1 {
        p.g
    } else if j == 2 {
        p.b
    } else {
        p.a
    }
}

/// The pixels laid out as bytes, four per pixel in the order red, green, blue, alpha.
pub open spec fn rgba_bytes_of(pixels: Seq<Rgba8>) -> Seq<u8> {
    Seq::new(4 * pixels.len(), |k: int| channel(pixels[k / 4], k % 4))
}

/// Reads 8-bit samples in the given layout into canonical pixels.
pub fn normalize(layout: ColorLayout, bytes: &[u8]) -> (r: Vec<Rgba8>)
    requires
        bytes@.len() % channels(layout) == 0,
    ensures
        r@ == normalized(layout, bytes@),
{
    let ch: usize = match layout {
        ColorLayout::Grayscale => 1,
        ColorLayout::GrayscaleAlpha => 2,
        ColorLayout::Rgb => 3,
        ColorLayout::Rgba => 4,
    };
    let len: usize = bytes.len();
    let n: usize = len / ch;
    let mut out: Vec<Rgba8> = Vec::new();
    let mut i: usize = 0;
    while i < n
        invariant
            ch == channels(layout),
            len == bytes@.len(),
            n == bytes@.len() / channels(layout),
            i <= n,
            out@.len() == i,
            forall|k: int| 0 <= k < i ==> out@[k] == pixel_at(layout, bytes@, k),
        decreases n - i,
    {
        let p = match layout {
            ColorLayout::Grayscale => Rgba8 { r: bytes[i], g: bytes[i], b: bytes[i], a: 255 },
            ColorLayout::GrayscaleAlpha => {
                assert(2 * i + 1 < bytes@.len()) by (nonlinear_arith)
                    requires
                        i < n,
                        n == bytes@.len() / 2,
                ;
                Rgba8 {
                    r: bytes[2 * i],
                    g: bytes[2 * i],
                    b: bytes[2 * i],
                    a: bytes[2 * i + 1],
                }
            },
            ColorLayout::Rgb => {
                assert(3 * i + 2 < bytes@.len()) by (nonlinear_arith)
                    requires
                        i < n,
                        n == bytes@.len() / 3,
                ;
                Rgba8 {
                    r: bytes[3 * i],
                    g: bytes[3 * i + 1],
                    b: bytes[3 * i + 2],
                    a: 255,
                }
            },
            ColorLayout::Rgba => {
                assert(4 * i + 3 < bytes@.len()) by (nonlinear_arith)
                    requires
                        i < n,
                        n == bytes@.len() / 4,
                ;
                Rgba8 {
                    r: bytes[4 * i],
                    g: bytes[4 * i + 1],
                    b: bytes[4 * i + 2],
                    a: bytes[4 * i + 3],
                }
            },
        };
        out.push(p);
        i = i + 1;
    }
    assert(out@ =~= normalized(layout, bytes@));
    out
}

/// Lays the pixels out as bytes, four per pixel: red, green, blue, alpha.
pub fn rgba_bytes(pixels: &[Rgba8]) -> (r: Vec<u8>)
    requires
        4 * pixels@.len() <= usize::MAX,
    ensures
        r@ == rgba_bytes_of(pixels@),
{
    let mut out: Vec<u8> = Vec::new();
    let mut i: usize = 0;
    while i < pixels.len()
        invariant
            4 * pixels@.len() <= usize::MAX,
            i <= pixels@.len(),
            out@.len() == 4 * i,
            forall|k: int| 0 <= k < 4 * i ==> out@[k] == channel(pixels@[k / 4], k % 4),
        decreases pixels@.len() - i,
    {
        let p = pixels[i];
        out.push(p.r);
        out.push(p.g);
        out.push(p.b);
        out.push(p.a);
        i = i + 1;
    }
    assert(out@ =~= rgba_bytes_of(pixels@));
    out
}

/// Laying pixels out as RGBA bytes and reading those bytes back in the RGBA layout gives the
/// same pixels: the lossless path keeps every channel of every pixel.
pub proof fn lemma_rgba_round_trip(pixels: Seq<Rgba8>)
    ensures
        normalized(ColorLayout::Rgba, rgba_bytes_of(pixels)) == pixels,
{
    let flat = rgba_bytes_of(pixels);
    assert forall|i: int| 0 <= i < pixels.len() implies pixel_at(ColorLayout::Rgba, flat, i)
        == pixels[i] by {
        assert((4 * i) / 4 == i);
        assert((4 * i + 1) / 4 == i && (4 * i + 1) % 4 == 1);
        assert((4 * i + 2) / 4 == i && (4 * i + 2) % 4 == 2);
        assert((4 * i + 3) / 4 == i && (4 * i + 3) % 4 == 3);
    }
    assert(normalized(ColorLayout::Rgba, flat) =~= pixels);
}

} // verus!
