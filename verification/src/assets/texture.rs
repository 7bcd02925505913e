//! Turning the pixels of a model's base-color image into RGBA bytes, four
//! per pixel, whatever layout the image was stored in.
use vstd::prelude::*;

verus! {

/// How an embedded image lays out its pixels. `Other` stands for the
/// layouts the converter does not read (16-bit and floating-point ones).
#[derive(Clone, Copy, Debug, PartialEq, Eq, Structural)]
pub enum PixelFormat {
    R8,
    R8G8,
    R8G8B8,
    R8G8B8A8,
    Other,
}

/// Bytes per pixel of the layouts that are read byte-wise.
pub open spec fn bytes_per_pixel(f: PixelFormat) -> nat {
    match f {
        PixelFormat::R8 => 1,
        PixelFormat::R8G8 => 2,
        PixelFormat::R8G8B8 => 3,
        PixelFormat::R8G8B8A8 => 4,
        PixelFormat::Other => 1,
    }
}

/// The RGBA bytes of pixel `k`: grey is spread over red, green and blue,
/// grey-alpha keeps its alpha, and a missing alpha is opaque.
pub open spec fn rgba_pixel(f: PixelFormat, px: Seq<u8>, k: int) -> Seq<u8> {
    match f {
        PixelFormat::R8 => seq![px[k], px[k], px[k], 255u8],
        PixelFormat::R8G8 => seq![px[2 * k], px[2 * k], px[2 * k], px[2 * k + 1]],
        PixelFormat::R8G8B8 => seq![px[3 * k], px[3 * k + 1], px[3 * k + 2], 255u8],
        _ => seq![px[4 * k], px[4 * k + 1], px[4 * k + 2], px[4 * k + 3]],
    }
}

/// The RGBA bytes of a whole image: an RGBA image as it is, one white
/// pixel for a layout that is not read, and otherwise each pixel in turn.
pub open spec fn rgba_of(f: PixelFormat, px: Seq<u8>) -> Seq<u8> {
    match f {
        PixelFormat::R8G8B8A8 => px,
        PixelFormat::Other => seq![255u8, 255u8, 255u8, 255u8],
        _ => Seq::new((px.len() / bytes_per_pixel(f)) as nat, |k: int| rgba_pixel(f, px, k)).flatten(),
    }
}

/// Expand `pixels`, laid out as `format`, to RGBA bytes. The byte count is a
/// whole number of pixels.
pub fn to_rgba8(format: PixelFormat, pixels: &[u8]) -> (out: Vec<u8>)
    requires
        format == PixelFormat::R8G8 ==> pixels@.len() % 2 == 0,
        format == PixelFormat::R8G8B8 ==> pixels@.len() % 3 == 0,
    ensures
        out@ == rgba_of(format, pixels@),
{
    match format {
        PixelFormat::R8G8B8A8 => copy_bytes(pixels),
        PixelFormat::Other => vec![255, 255, 255, 255],
        _ => expand(format, pixels),
    }
}

fn copy_bytes(pixels: &[u8]) -> (out: Vec<u8>)
    ensures
        out@ == pixels@,
{
    let mut out: Vec<u8> = Vec::new();
    let mut i: usize = 0;
    while i < pixels.len()
        invariant
            i <= pixels@.len(),
            out@ == pixels@.take(i as int),
        decreases pixels@.len() - i,
    {
        out.push(pixels[i]);
        i += 1;
        assert(out@ =~= pixels@.take(i as int));
    }
    assert(pixels@.take(i as int) =~= pixels@);
    out
}

fn expand(format: PixelFormat, pixels: &[u8]) -> (out: Vec<u8>)
    requires
        format == PixelFormat::R8 || format == PixelFormat::R8G8 || format == PixelFormat::R8G8B8,
        pixels@.len() % bytes_per_pixel(format) == 0,
    ensures
        out@ == rgba_of(format, pixels@),
{
    let ghost px = pixels@;
    let ghost f = format;
    let b: usize = match format {
        PixelFormat::R8 => 1,
        PixelFormat::R8G8 => 2,
        _ => 3,
    };
    let mut out: Vec<u8> = Vec::new();
    let mut i: usize = 0;
    let ghost mut k: int = 0;
    assert(Seq::new(0, |j: int| rgba_pixel(f, px, j)).flatten() =~= Seq::<u8>::empty());
    while i < pixels.len()
        invariant
            b == bytes_per_pixel(f),
            f == format,
            px == pixels@,
            format == PixelFormat::R8 || format == PixelFormat::R8G8 || format == PixelFormat::R8G8B8,
            px.len() % bytes_per_pixel(f) == 0,
            i == b * k,
            0 <= k,
            i <= px.len(),
            out@ == Seq::new(k as nat, |j: int| rgba_pixel(f, px, j)).flatten(),
        decreases px.len() - i,
    {
        assert(i + b <= px.len()) by (nonlinear_arith)
            requires
                i == b * k,
                i < px.len(),
                px.len() % (b as nat) == 0,
                1 <= b <= 3,
        {
            assert(px.len() == b * (px.len() / (b as nat)));
            assert(k < px.len() / (b as nat)) by {
                if k >= px.len() / (b as nat) {
                    assert(b * k >= b * (px.len() / (b as nat)));
                }
            }
        }
        let ghost pixel = rgba_pixel(f, px, k);
        match format {
            PixelFormat::R8 => {
                let g = pixels[i];
                out.push(g);
                out.push(g);
                out.push(g);
                out.push(255);
            },
            PixelFormat::R8G8 => {
                let g = pixels[i];
                out.push(g);
                out.push(g);
                out.push(g);
                out.push(pixels[i + 1]);
            },
            _ => {
                out.push(pixels[i]);
                out.push(pixels[i + 1]);
                out.push(pixels[i + 2]);
                out.push(255);
            },
        }
        proof {
            let s = Seq::new(k as nat, |j: int| rgba_pixel(f, px, j));
            assert(Seq::new((k + 1) as nat, |j: int| rgba_pixel(f, px, j)) =~= s.push(pixel));
            s.lemma_flatten_push(pixel);
            k = k + 1;
        }
        i = i + b;
    }
    assert(k == px.len() / bytes_per_pixel(f)) by (nonlinear_arith)
        requires
            i == b * k,
            i == px.len(),
            b == bytes_per_pixel(f),
            1 <= b <= 3,
    {
    }
    out
}

} // verus!
