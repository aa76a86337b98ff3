use vstd::prelude::*;
use pathfinder_color::ColorU;

verus! {

/// Why image samples could not be decoded.
#[derive(Clone, Copy, Debug, PartialEq, Eq, Structural)]
pub enum ImageError {
    /// The image has no pixels.
    Empty,
    /// The samples hold this many bytes per pixel: neither 1, 3 nor 4.
    UnsupportedChannels(u64),
}

/// Bytes per pixel: the sample count divided by the pixel count.
pub open spec fn channels_of(len: int, width: int, height: int) -> int {
    len / (width * height)
}

/// Pixel `i` of samples with `ch` bytes per pixel: gray, RGB, or RGBA.
pub open spec fn pixel_of(data: Seq<u8>, ch: int, i: int) -> ColorU {
    if ch == 1 {
        ColorU { r: data[i], g: data[i], b: data[i], a: 255 }
    } else if ch == 3 {
        ColorU { r: data[3 * i], g: data[3 * i + 1], b: data[3 * i + 2], a: 255 }
    } else {
        ColorU { r: data[4 * i], g: data[4 * i + 1], b: data[4 * i + 2], a: data[4 * i + 3] }
    }
}

/// Decodes the samples of a `width` by `height` image into exactly
/// `width * height` pixels, row by row.
pub fn decode_pixels(data: &[u8], width: u32, height: u32) -> (r: Result<Vec<ColorU>, ImageError>)
    ensures
        width * height == 0 ==> r == Err::<Vec<ColorU>, ImageError>(ImageError::Empty),
        width * height > 0 ==> {
            let ch = channels_of(data@.len() as int, width as int, height as int);
            match r {
                Ok(px) => (ch == 1 || ch == 3 || ch == 4) && px@.len() == width * height
                    && forall|i: int| 0 <= i < px@.len() ==> #[trigger] px@[i] == pixel_of(data@, ch, i),
                Err(e) => !(ch == 1 || ch == 3 || ch == 4) && e == ImageError::UnsupportedChannels(ch as u64),
            }
        },
{
    proof {
        assert((width as u64) * (height as u64) <= u64::MAX) by (nonlinear_arith)
            requires
                width <= u32::MAX,
                height <= u32::MAX,
        ;
    }
    let pixels: u64 = (width as u64) * (height as u64);
    if pixels == 0 {
        return Err(ImageError::Empty);
    }
    let len: u64 = data.len() as u64;
    let ch: u64 = len / pixels;
    if ch != 1 && ch != 3 && ch != 4 {
        return Err(ImageError::UnsupportedChannels(ch));
    }
    proof {
        assert(ch * pixels <= len) by (nonlinear_arith)
            requires
                ch == len / pixels,
                pixels > 0,
        ;
        assert(pixels <= len) by (nonlinear_arith)
            requires
                ch * pixels <= len,
                ch >= 1,
        ;
    }
    let n: usize = pixels as usize;
    let step: usize = ch as usize;
    let mut out: Vec<ColorU> = Vec::new();
    let mut i: usize = 0;
    let mut k: usize = 0;
    while i < n
        invariant
            n == width * height,
            step == ch,
            ch == 1 || ch == 3 || ch == 4,
            ch == channels_of(data@.len() as int, width as int, height as int),
            step * n <= data@.len(),
            i <= n,
            k == step * i,
            out@.len() == i,
            forall|j: int| 0 <= j < i ==> #[trigger] out@[j] == pixel_of(data@, ch as int, j),
        decreases n - i,
    {
        proof {
            assert(k + step <= step * n) by (nonlinear_arith)
                requires
                    k == step * i,
                    i < n,
            ;
        }
        let c = if step == 1 {
            ColorU { r: data[k], g: data[k], b: data[k], a: 255 }
        } else if step == 3 {
            ColorU { r: data[k], g: data[k + 1], b: data[k + 2], a: 255 }
        } else {
            ColorU { r: data[k], g: data[k + 1], b: data[k + 2], a: data[k + 3] }
        };
        out.push(c);
        proof {
            assert(k + step == step * (i + 1)) by (nonlinear_arith)
                requires
                    k == step * i,
            ;
        }
        i = i + 1;
        k = k + step;
    }
    Ok(out)
}

} // verus!
