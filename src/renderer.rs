//! What the display surface holds: the last frame in premultiplied BGRA and
//! its dimensions, plus a synthetic test pattern.

use vstd::prelude::*;
use vstd::arithmetic::div_mod::{lemma_fundamental_div_mod_converse, lemma_div_is_ordered, lemma_div_by_multiple};
use crate::pixel::{premultiplied_bgra_spec, rgba_to_premultiplied_bgra};
use crate::protocol::ProtocolError;

verus! {

/// The RGBA byte length of a `width` by `height` image.
pub open spec fn rgba_len(width: u32, height: u32) -> int {
    width as int * height as int * 4
}

/// `x` as a `u64`, saturated at the largest one.
pub open spec fn saturate_u64(x: int) -> u64 {
    if x <= u64::MAX {
        x as u64
    } else {
        u64::MAX
    }
}

/// Channel `c` of the test pattern at column `x`, row `y`: red grows left to
/// right, green top to bottom, blue along the diagonal; alpha is opaque.
pub open spec fn pattern_channel(w: u32, h: u32, x: int, y: int, c: int) -> u8 {
    if c == 0 {
        (x * 255 / w as int) as u8
    } else if c == 1 {
        (y * 255 / h as int) as u8
    } else if c == 2 {
        ((x + y) * 255 / (w as int + h as int)) as u8
    } else {
        255
    }
}

/// Byte `i` of the row-major RGBA test pattern.
pub open spec fn pattern_byte(w: u32, h: u32, i: int) -> u8 {
    let p = i / 4;
    pattern_channel(w, h, p % w as int, p / w as int, i % 4)
}

/// The whole `w` by `h` test pattern in RGBA.
pub open spec fn test_pattern_spec(w: u32, h: u32) -> Seq<u8> {
    Seq::new(rgba_len(w, h) as nat, |i: int| pattern_byte(w, h, i))
}

/// A gradient test pattern of `width` by `height` pixels in RGBA.
pub fn test_pattern(width: u32, height: u32) -> (r: Vec<u8>)
    requires
        rgba_len(width, height) <= usize::MAX,
    ensures
        r@ == test_pattern_spec(width, height),
{
    let mut out: Vec<u8> = Vec::new();
    let w = width as u64;
    let h = height as u64;
    let mut y: u32 = 0;
    while y < height
        invariant
            w == width,
            h == height,
            y <= height,
            out@.len() == 4 * (y as int * w),
            forall|j: int| 0 <= j < out@.len() ==> out@[j] == pattern_byte(width, height, j),
        decreases height - y,
    {
        let mut x: u32 = 0;
        while x < width
            invariant
                w == width,
                h == height,
                y < height,
                x <= width,
                out@.len() == 4 * (y as int * w + x),
                forall|j: int| 0 <= j < out@.len() ==> out@[j] == pattern_byte(width, height, j),
            decreases width - x,
        {
            let ghost p: int = y as int * w + x;
            proof {
                lemma_fundamental_div_mod_converse(p, w as int, y as int, x as int);
                lemma_div_is_ordered(x as int * 255, w * 255, w as int);
                lemma_div_by_multiple(255, w as int);
                lemma_div_is_ordered(y as int * 255, h * 255, h as int);
                lemma_div_by_multiple(255, h as int);
                lemma_div_is_ordered((x + y) as int * 255, (w + h) * 255, (w + h) as int);
                lemma_div_by_multiple(255, (w + h) as int);
                assert(255 * w == w * 255 && 255 * h == h * 255 && 255 * (w + h) == (w + h) * 255)
                    by (nonlinear_arith);
            }
            let xx = x as u64;
            let yy = y as u64;
            let r = ((xx * 255) / w) as u8;
            let g = ((yy * 255) / h) as u8;
            let b = (((xx + yy) * 255) / (w + h)) as u8;
            out.push(r);
            out.push(g);
            out.push(b);
            out.push(255);
            proof {
                assert((4 * p) / 4 == p && (4 * p + 1) / 4 == p && (4 * p + 2) / 4 == p && (4 * p
                    + 3) / 4 == p);
                assert((4 * p) % 4 == 0 && (4 * p + 1) % 4 == 1 && (4 * p + 2) % 4 == 2 && (4 * p
                    + 3) % 4 == 3);
            }
            x = x + 1;
        }
        proof {
            assert(y as int * w + w == (y + 1) as int * w) by (nonlinear_arith);
            assert(y + 1 <= height);
            assert(0 <= (y + 1) as int * w <= height as int * w) by (nonlinear_arith)
                requires
                    y + 1 <= height,
                    0 <= w,
            ;
        }
        y = y + 1;
    }
    assert(4 * (height as int * w) == rgba_len(width, height)) by (nonlinear_arith)
        requires
            w == width,
    ;
    assert(out@ =~= test_pattern_spec(width, height));
    out
}

/// The last frame shown, already in the layout the surface paints.
#[derive(Debug, Clone)]
pub struct FrameRenderer {
    /// Premultiplied BGRA pixels, `width * height * 4` bytes, if any.
    pub surface: Option<Vec<u8>>,
    pub width: u32,
    pub height: u32,
}

impl FrameRenderer {
    /// No surface: dimensions are zero; a surface holds four bytes per pixel.
    pub open spec fn wf(&self) -> bool {
        match self.surface {
            None => self.width == 0 && self.height == 0,
            Some(s) => s@.len() == rgba_len(self.width, self.height),
        }
    }

    /// An empty renderer.
    pub fn new() -> (r: Result<FrameRenderer, ProtocolError>)
        ensures
            r matches Ok(f) && f.surface is None && f.width == 0 && f.height == 0 && f.wf(),
    {
        Ok(FrameRenderer { surface: None, width: 0, height: 0 })
    }

    /// Replaces the surface with an RGBA frame of the given dimensions; the
    /// data must hold exactly four bytes per pixel.
    pub fn update_frame(&mut self, width: u32, height: u32, rgba_data: &[u8]) -> (r: Result<
        (),
        ProtocolError,
    >)
        requires
            old(self).wf(),
        ensures
            final(self).wf(),
            rgba_data@.len() == rgba_len(width, height) ==> r == Ok::<(), ProtocolError>(())
                && final(self).width == width && final(self).height == height,
            rgba_data@.len() == rgba_len(width, height) ==> (final(self).surface matches Some(s)
                && s@ == premultiplied_bgra_spec(rgba_data@)),
            rgba_data@.len() != rgba_len(width, height) ==> r == Err::<(), ProtocolError>(
                ProtocolError::Integrity {
                    expected: saturate_u64(rgba_len(width, height)),
                    actual: rgba_data@.len() as u64,
                },
            ) && *final(self) == *old(self),
    {
        proof {
            let (w, h) = (width as int, height as int);
            assert(w * h <= 0xffff_ffff * 0xffff_ffff) by (nonlinear_arith)
                requires
                    0 <= w <= 0xffff_ffff,
                    0 <= h <= 0xffff_ffff,
            ;
        }
        let pixels: u64 = width as u64 * height as u64;
        match pixels.checked_mul(4) {
            None => {
                return Err(
                    ProtocolError::Integrity { expected: u64::MAX, actual: rgba_data.len() as u64 },
                );
            },
            Some(expected) => {
                if rgba_data.len() as u64 != expected {
                    return Err(
                        ProtocolError::Integrity { expected, actual: rgba_data.len() as u64 },
                    );
                }
            },
        }
        let surface = rgba_to_premultiplied_bgra(rgba_data);
        self.surface = Some(surface);
        self.width = width;
        self.height = height;
        Ok(())
    }

    /// A copy of the current surface, if any.
    pub fn get_surface(&self) -> (r: Option<Vec<u8>>)
        ensures
            match self.surface {
                None => r is None,
                Some(s) => r matches Some(c) && c@ == s@,
            },
    {
        match &self.surface {
            None => None,
            Some(s) => {
                let c = s.clone();
                assert(c@ =~= s@);
                Some(c)
            },
        }
    }

    pub fn get_dimensions(&self) -> (r: (u32, u32))
        ensures
            r == (self.width, self.height),
    {
        (self.width, self.height)
    }

    /// Drops the surface and zeroes the dimensions.
    pub fn clear(&mut self)
        ensures
            final(self).surface is None,
            final(self).width == 0,
            final(self).height == 0,
            final(self).wf(),
    {
        self.surface = None;
        self.width = 0;
        self.height = 0;
    }

    /// Shows the test pattern of the given dimensions.
    pub fn create_test_pattern(&mut self, width: u32, height: u32) -> (r: Result<(), ProtocolError>)
        requires
            old(self).wf(),
            rgba_len(width, height) <= usize::MAX,
        ensures
            r == Ok::<(), ProtocolError>(()),
            final(self).wf(),
            final(self).width == width,
            final(self).height == height,
            final(self).surface matches Some(s) && s@ == premultiplied_bgra_spec(
                test_pattern_spec(width, height),
            ),
    {
        let rgba_data = test_pattern(width, height);
        self.update_frame(width, height, rgba_data.as_slice())
    }
}

} // verus!
