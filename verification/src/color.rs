//! Colour arithmetic for surfaces drawn without alpha: flattening a
//! translucent theme colour onto an opaque one, and the byte order GDI wants.
//!
//! Theme colours are `0xRRGGBBAA` when translucent and `0xRRGGBB` when opaque.

use vstd::prelude::*;

verus! {

/// One channel of `color` (`0xRRGGBBAA`) blended over the same channel of the
/// backdrop with the colour's alpha, rounded to the nearest integer (no
/// blend ever falls half-way, as 255 is odd).
pub open spec fn spec_mix(c: int, b: int, alpha: int) -> int {
    (c * alpha + b * (255 - alpha) + 127) / 255
}

/// `color` (`0xRRGGBBAA`) flattened onto the opaque `backdrop` (`0xRRGGBB`),
/// as `0xRRGGBB`.
pub open spec fn spec_over(color: u32, backdrop: u32) -> int {
    let alpha = color as int % 256;
    let (br, bg, bb) = (backdrop as int / 65536 % 256, backdrop as int / 256 % 256, backdrop as int % 256);
    let (cr, cg, cb) = (color as int / 16777216 % 256, color as int / 65536 % 256, color as int / 256 % 256);
    spec_mix(cr, br, alpha) * 65536 + spec_mix(cg, bg, alpha) * 256 + spec_mix(cb, bb, alpha)
}

/// An opaque `0xRRGGBB` colour in the `0x00BBGGRR` order of a GDI `COLORREF`.
pub open spec fn spec_bgr(rgb: u32) -> int {
    (rgb as int % 256) * 65536 + (rgb as int / 256 % 256) * 256 + rgb as int / 65536 % 256
}

proof fn lemma_mix_bound(c: int, b: int, alpha: int)
    requires
        0 <= c < 256,
        0 <= b < 256,
        0 <= alpha < 256,
    ensures
        0 <= spec_mix(c, b, alpha) < 256,
{
    assert(0 <= c * alpha <= 255 * alpha) by (nonlinear_arith)
        requires 0 <= c < 256, 0 <= alpha < 256;
    assert(0 <= b * (255 - alpha) <= 255 * (255 - alpha)) by (nonlinear_arith)
        requires 0 <= b < 256, 0 <= alpha < 256;
}

fn mix(c: u32, b: u32, alpha: u32) -> (r: u32)
    requires
        c < 256,
        b < 256,
        alpha < 256,
    ensures
        r as int == spec_mix(c as int, b as int, alpha as int),
        r < 256,
{
    proof { lemma_mix_bound(c as int, b as int, alpha as int); }
    assert(c * alpha <= 255 * 255) by (nonlinear_arith)
        requires c < 256, alpha < 256;
    assert(b * (255 - alpha) <= 255 * 255) by (nonlinear_arith)
        requires b < 256, alpha < 256;
    (c * alpha + b * (255 - alpha) + 127) / 255
}

/// Flattens the translucent `color` (`0xRRGGBBAA`) onto the opaque `backdrop`
/// (`0xRRGGBB`), giving an opaque `0xRRGGBB`.
pub fn over(color: u32, backdrop: u32) -> (r: u32)
    ensures
        r as int == spec_over(color, backdrop),
{
    let alpha = color & 0xff;
    let br = (backdrop >> 16) & 0xff;
    let bg = (backdrop >> 8) & 0xff;
    let bb = backdrop & 0xff;
    let cr = (color >> 24) & 0xff;
    let cg = (color >> 16) & 0xff;
    let cb = (color >> 8) & 0xff;
    assert(alpha == color % 256 && bb == backdrop % 256 && bg == backdrop / 256 % 256 && br == backdrop / 65536 % 256
        && cr == color / 16777216 % 256 && cg == color / 65536 % 256 && cb == color / 256 % 256) by (bit_vector)
        requires
            alpha == color & 0xff,
            br == (backdrop >> 16) & 0xff,
            bg == (backdrop >> 8) & 0xff,
            bb == backdrop & 0xff,
            cr == (color >> 24) & 0xff,
            cg == (color >> 16) & 0xff,
            cb == (color >> 8) & 0xff;
    let r = mix(cr, br, alpha);
    let g = mix(cg, bg, alpha);
    let b = mix(cb, bb, alpha);
    assert((r << 16 | g << 8 | b) == r * 65536 + g * 256 + b) by (bit_vector)
        requires r < 256, g < 256, b < 256;
    r << 16 | g << 8 | b
}

/// The blue, green and red bytes of an opaque `0xRRGGBB` colour, in that order.
pub fn channels(rgb: u32) -> (r: (u32, u32, u32))
    ensures
        r.0 as int == rgb as int % 256,
        r.1 as int == rgb as int / 256 % 256,
        r.2 as int == rgb as int / 65536 % 256,
{
    let b = rgb & 0xff;
    let g = (rgb >> 8) & 0xff;
    let r = (rgb >> 16) & 0xff;
    assert(b == rgb % 256 && g == rgb / 256 % 256 && r == rgb / 65536 % 256) by (bit_vector)
        requires b == rgb & 0xff, g == (rgb >> 8) & 0xff, r == (rgb >> 16) & 0xff;
    (b, g, r)
}

/// Reorders an opaque `0xRRGGBB` colour into a GDI `COLORREF` (`0x00BBGGRR`).
pub fn bgr(rgb: u32) -> (r: u32)
    ensures
        r as int == spec_bgr(rgb),
{
    let r = (rgb & 0xff) << 16 | (rgb & 0xff00) | (rgb >> 16) & 0xff;
    assert(r == (rgb % 256) * 65536 + (rgb / 256 % 256) * 256 + rgb / 65536 % 256) by (bit_vector)
        requires r == (rgb & 0xff) << 16 | (rgb & 0xff00) | (rgb >> 16) & 0xff;
    r
}

/// Reordering twice gives the colour back, without the top byte, which
/// the reordering drops.
pub proof fn lemma_bgr_involution(rgb: u32)
    ensures
        spec_bgr(spec_bgr(rgb) as u32) == rgb as int % 0x1000000,
{
    let x = spec_bgr(rgb);
    assert(0 <= x < 0x1000000);
    let r = rgb as int / 65536 % 256;
    let g = rgb as int / 256 % 256;
    let b = rgb as int % 256;
    assert(rgb as int % 0x1000000 == r * 65536 + g * 256 + b);
    assert(x == b * 65536 + g * 256 + r);
    assert(x % 256 == r);
    assert(x / 256 % 256 == g);
    assert(x / 65536 % 256 == b);
}

/// A fully opaque colour covers the backdrop, and a fully transparent one
/// leaves it as it is.
pub proof fn lemma_over_extremes(color: u32, backdrop: u32)
    ensures
        color % 256 == 255 ==> spec_over(color, backdrop) == color as int / 256,
        color % 256 == 0 ==> spec_over(color, backdrop) == backdrop as int % 0x1000000,
{
    let cr = color as int / 16777216 % 256;
    let cg = color as int / 65536 % 256;
    let cb = color as int / 256 % 256;
    let br = backdrop as int / 65536 % 256;
    let bg = backdrop as int / 256 % 256;
    let bb = backdrop as int % 256;
    assert(color as int / 256 == cr * 65536 + cg * 256 + cb);
    assert(backdrop as int % 0x1000000 == br * 65536 + bg * 256 + bb);
    if color % 256 == 255 {
        assert(spec_mix(cr, br, 255) == cr);
        assert(spec_mix(cg, bg, 255) == cg);
        assert(spec_mix(cb, bb, 255) == cb);
    }
    if color % 256 == 0 {
        assert(spec_mix(cr, br, 0) == br);
        assert(spec_mix(cg, bg, 0) == bg);
        assert(spec_mix(cb, bb, 0) == bb);
    }
}

} // verus!
