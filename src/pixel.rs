//! Pixel conversions: packed RGB to packed RGBA, and RGBA to the
//! premultiplied, byte-reversed layout of a compositing surface.

use vstd::prelude::*;

verus! {

/// Byte `i` of the RGBA expansion of packed RGB bytes `s`.
pub open spec fn rgba_byte_of_rgb(s: Seq<u8>, i: int) -> u8 {
    if i % 4 == 3 {
        255
    } else {
        s[(i / 4) * 3 + i % 4]
    }
}

/// Every whole 3-byte group `(r, g, b)` of `s` becomes `(r, g, b, 255)`;
/// trailing bytes that make no whole group are left out.
pub open spec fn rgb_to_rgba_spec(s: Seq<u8>) -> Seq<u8> {
    Seq::new((s.len() / 3) * 4, |i: int| rgba_byte_of_rgb(s, i))
}

/// Colour channel `c` scaled by alpha `a / 255`, rounded down, and clamped
/// to `a`.
pub open spec fn premultiply_spec(c: u8, a: u8) -> u8 {
    let v = (c as int * a as int) / 255;
    if v > a as int {
        a
    } else {
        v as u8
    }
}

/// Byte `i` of the premultiplied BGRA form of RGBA bytes `s`.
pub open spec fn bgra_byte_of_rgba(s: Seq<u8>, i: int) -> u8 {
    let p = (i / 4) * 4;
    let a = s[p + 3];
    if i % 4 == 0 {
        premultiply_spec(s[p + 2], a)
    } else if i % 4 == 1 {
        premultiply_spec(s[p + 1], a)
    } else if i % 4 == 2 {
        premultiply_spec(s[p], a)
    } else {
        a
    }
}

/// Every whole pixel `(r, g, b, a)` of `s` becomes `(b·α, g·α, r·α, a)` with
/// `α = a / 255`; trailing bytes that make no whole pixel are left out.
pub open spec fn premultiplied_bgra_spec(s: Seq<u8>) -> Seq<u8> {
    Seq::new((s.len() / 4) * 4, |i: int| bgra_byte_of_rgba(s, i))
}

/// Expands packed RGB to packed RGBA with an opaque alpha.
pub fn rgb24_to_rgba32(data: &[u8]) -> (r: Vec<u8>)
    ensures
        r@ == rgb_to_rgba_spec(data@),
{
    let len = data.len();
    let n = len / 3;
    let mut out: Vec<u8> = Vec::new();
    let mut k: usize = 0;
    while k < n
        invariant
            len == data@.len(),
            n == data@.len() / 3,
            k <= n,
            out@.len() == 4 * k,
            forall|j: int| 0 <= j < 4 * k ==> out@[j] == rgba_byte_of_rgb(data@, j),
        decreases n - k,
    {
        assert(3 * k + 3 <= data@.len());
        let base: usize = 3 * k;
        out.push(data[base]);
        out.push(data[base + 1]);
        out.push(data[base + 2]);
        out.push(255);
        k = k + 1;
    }
    assert(out@ =~= rgb_to_rgba_spec(data@));
    out
}

/// One premultiplied channel.
pub fn premultiply(c: u8, a: u8) -> (r: u8)
    ensures
        r == premultiply_spec(c, a),
        r <= a,
{
    proof {
        assert((c as int) * (a as int) <= 255 * 255) by (nonlinear_arith)
            requires
                c <= 255,
                a <= 255,
        ;
    }
    let v: u32 = (c as u32 * a as u32) / 255;
    if v > a as u32 {
        a
    } else {
        v as u8
    }
}

/// Converts RGBA to the premultiplied BGRA layout of a compositing surface.
pub fn rgba_to_premultiplied_bgra(rgba: &[u8]) -> (r: Vec<u8>)
    ensures
        r@ == premultiplied_bgra_spec(rgba@),
{
    let len = rgba.len();
    let n = len / 4;
    let mut out: Vec<u8> = Vec::new();
    let mut k: usize = 0;
    while k < n
        invariant
            len == rgba@.len(),
            n == rgba@.len() / 4,
            k <= n,
            out@.len() == 4 * k,
            forall|j: int| 0 <= j < 4 * k ==> out@[j] == bgra_byte_of_rgba(rgba@, j),
        decreases n - k,
    {
        assert(4 * k + 4 <= rgba@.len());
        let base: usize = 4 * k;
        let a = rgba[base + 3];
        out.push(premultiply(rgba[base + 2], a));
        out.push(premultiply(rgba[base + 1], a));
        out.push(premultiply(rgba[base], a));
        out.push(a);
        k = k + 1;
    }
    assert(out@ =~= premultiplied_bgra_spec(rgba@));
    out
}

} // verus!
