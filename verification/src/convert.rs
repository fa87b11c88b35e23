//! Conversion of a premultiplied RGBA pixel buffer into the straight-alpha
//! RGB byte layout used by formats without an alpha channel.
//!
//! Each pixel is handled independently: a fully transparent pixel becomes
//! black by policy, and any other pixel has each color channel
//! unpremultiplied as `channel * 255 / alpha`, truncated and clamped to 255.

use vstd::arithmetic::div_mod::lemma_fundamental_div_mod_converse;
use vstd::prelude::*;

verus! {

/// A color channel of a premultiplied pixel taken back to straight alpha:
/// zero when the pixel is fully transparent, else `c * 255 / a` truncated
/// and clamped to 255.
pub open spec fn unpremul_channel(c: u8, a: u8) -> u8 {
    if a == 0 {
        0u8
    } else if (c as int) * 255 / (a as int) > 255 {
        255u8
    } else {
        ((c as int) * 255 / (a as int)) as u8
    }
}

/// The RGB buffer obtained from a premultiplied RGBA buffer: three bytes
/// per four input bytes, each color channel unpremultiplied against the
/// pixel's alpha byte; a trailing fragment of fewer than four bytes is
/// ignored.
pub open spec fn rgb_of_premul(s: Seq<u8>) -> Seq<u8> {
    Seq::new(
        (s.len() / 4) * 3,
        |i: int| unpremul_channel(s[4 * (i / 3) + (i % 3)], s[4 * (i / 3) + 3]),
    )
}

/// One channel unpremultiplied, executable form.
fn unpremul_channel_exec(c: u8, a: u8) -> (r: u8)
    ensures
        r == unpremul_channel(c, a),
{
    if a == 0 {
        0
    } else {
        let v: u32 = (c as u32) * 255 / (a as u32);
        if v > 255 {
            255
        } else {
            v as u8
        }
    }
}

/// Converts a premultiplied RGBA buffer (four bytes per pixel) into a
/// straight-alpha RGB buffer (three bytes per pixel). Fully transparent
/// pixels become black; every other pixel is unpremultiplied per channel.
/// Pixels are independent of one another.
pub fn unpremultiply_rgb(rgba: &Vec<u8>) -> (r: Vec<u8>)
    ensures
        r@ == rgb_of_premul(rgba@),
{
    let n = rgba.len() / 4;
    let mut out: Vec<u8> = Vec::new();
    let mut p: usize = 0;
    while p < n
        invariant
            n == rgba@.len() / 4,
            rgba@.len() <= usize::MAX,
            p <= n,
            out@.len() == 3 * p,
            forall|i: int|
                0 <= i < 3 * p ==> #[trigger] out@[i] == unpremul_channel(
                    rgba@[4 * (i / 3) + (i % 3)],
                    rgba@[4 * (i / 3) + 3],
                ),
        decreases n - p,
    {
        proof {
            assert(4 * (rgba@.len() / 4) <= rgba@.len()) by (nonlinear_arith);
            assert(4 * p + 3 < rgba@.len());
        }
        let a = rgba[4 * p + 3];
        let r = unpremul_channel_exec(rgba[4 * p], a);
        let g = unpremul_channel_exec(rgba[4 * p + 1], a);
        let b = unpremul_channel_exec(rgba[4 * p + 2], a);
        out.push(r);
        out.push(g);
        out.push(b);
        proof {
            lemma_fundamental_div_mod_converse(3 * p as int, 3, p as int, 0);
            lemma_fundamental_div_mod_converse(3 * p + 1, 3, p as int, 1);
            lemma_fundamental_div_mod_converse(3 * p + 2, 3, p as int, 2);
        }
        p += 1;
    }
    proof {
        assert(out@ =~= rgb_of_premul(rgba@));
    }
    out
}

/// Law: a fully opaque premultiplied pixel is already straight alpha, so
/// unpremultiplying returns each channel unchanged.
pub proof fn lemma_opaque_pixel_unchanged(c: u8)
    ensures
        unpremul_channel(c, 255) == c,
{
    assert((c as int) * 255 / 255 == c as int) by (nonlinear_arith);
}

/// Law: a fully transparent premultiplied pixel always becomes black.
pub proof fn lemma_transparent_pixel_black(c: u8)
    ensures
        unpremul_channel(c, 0) == 0,
{
}

} // verus!
