//! Alpha-aware recoloring of RGBA textures: every transparent or
//! partially-transparent pixel is composited against a flat background color,
//! so that the result is fully opaque.

use vstd::prelude::*;

verus! {

/// Red channel of a 24-bit `0xRRGGBB` color.
pub open spec fn rgb_red(hex: u32) -> u8 {
    (((hex / 0x10000) % 0x100) as u8)
}

/// Green channel of a 24-bit `0xRRGGBB` color.
pub open spec fn rgb_green(hex: u32) -> u8 {
    (((hex / 0x100) % 0x100) as u8)
}

/// Blue channel of a 24-bit `0xRRGGBB` color.
pub open spec fn rgb_blue(hex: u32) -> u8 {
    ((hex % 0x100) as u8)
}

/// Straight-alpha composite of one channel against a background channel:
/// `floor((c*a + bg*(255-a)) / 255)`.
pub open spec fn blend_channel(c: u8, bg: u8, a: u8) -> u8 {
    (((c * a + bg * (255 - a)) / 255) as u8)
}

/// One RGBA pixel after compositing against the background color `bg`:
/// opaque pixels are unchanged, fully transparent pixels become the
/// background at full opacity, and partially transparent pixels are blended
/// channel-wise, with alpha forced to 255.
pub open spec fn recolor_pixel(r: u8, g: u8, b: u8, a: u8, bg: u32) -> (u8, u8, u8, u8) {
    if a == 255 {
        (r, g, b, a)
    } else if a == 0 {
        (rgb_red(bg), rgb_green(bg), rgb_blue(bg), 255u8)
    } else {
        (
            blend_channel(r, rgb_red(bg), a),
            blend_channel(g, rgb_green(bg), a),
            blend_channel(b, rgb_blue(bg), a),
            255u8,
        )
    }
}

/// Channel `k` (0 = red, 1 = green, 2 = blue, 3 = alpha) of pixel `i` of the
/// buffer `s` after compositing against `bg`.
pub open spec fn recolored_at(s: Seq<u8>, bg: u32, i: int, k: int) -> u8 {
    let p = recolor_pixel(s[4 * i], s[4 * i + 1], s[4 * i + 2], s[4 * i + 3], bg);
    if k == 0 {
        p.0
    } else if k == 1 {
        p.1
    } else if k == 2 {
        p.2
    } else {
        p.3
    }
}

/// A whole RGBA byte buffer after compositing against `bg`, pixel by pixel.
/// Trailing bytes that do not form a complete 4-byte pixel are unchanged.
pub open spec fn recolored(s: Seq<u8>, bg: u32) -> Seq<u8> {
    Seq::new(s.len(), |j: int| if j < 4 * (s.len() / 4) {
        recolored_at(s, bg, j / 4, j % 4)
    } else {
        s[j]
    })
}

/// Composites every pixel of an RGBA byte buffer (4 bytes per pixel) against
/// the flat background color `hex_color`, given as `0xRRGGBB`.
pub fn replace_transparent_with_color(bytes: Vec<u8>, hex_color: u32) -> (out: Vec<u8>)
    ensures
        out@ == recolored(bytes@, hex_color),
{
    let ghost orig = bytes@;
    let mut bytes = bytes;
    let bg_r = ((hex_color / 0x10000) % 0x100) as u8;
    let bg_g = ((hex_color / 0x100) % 0x100) as u8;
    let bg_b = (hex_color % 0x100) as u8;

    let n = bytes.len() / 4;
    let mut i: usize = 0;
    while i < n
        invariant
            n == orig.len() / 4,
            bytes@.len() == orig.len(),
            i <= n,
            forall|j: int| 4 * (i as int) <= j < orig.len() ==> bytes@[j] == orig[j],
            forall|j: int| 0 <= j < 4 * (i as int) ==> bytes@[j] == recolored(orig, hex_color)[j],
            4 * (n as int) <= usize::MAX,
            bg_r == rgb_red(hex_color),
            bg_g == rgb_green(hex_color),
            bg_b == rgb_blue(hex_color),
        decreases n - i,
    {
        proof {
            assert(4 * (i as int) + 3 < 4 * (n as int)) by (nonlinear_arith)
                requires i < n;
            assert(4 * (n as int) <= orig.len()) by (nonlinear_arith)
                requires n == orig.len() / 4;
        }
        let p = 4 * i;
        let ghost j0 = 4 * (i as int);
        let alpha = bytes[p + 3];
        proof {
            assert(orig[j0] == bytes@[j0] && orig[j0 + 1] == bytes@[j0 + 1] && orig[j0 + 2]
                == bytes@[j0 + 2] && orig[j0 + 3] == bytes@[j0 + 3]);
        }
        if alpha == 255 {
            proof {
                lemma_pixel_written(orig, hex_color, i as int, bytes@);
            }
            i = i + 1;
            continue;
        }
        if alpha == 0 {
            bytes.set(p, bg_r);
            bytes.set(p + 1, bg_g);
            bytes.set(p + 2, bg_b);
            bytes.set(p + 3, 255);
            proof {
                lemma_pixel_written(orig, hex_color, i as int, bytes@);
            }
            i = i + 1;
            continue;
        }
        let a32 = alpha as u32;
        let inv_alpha = 255 - a32;
        proof {
            assert(bytes[j0] * a32 + (bg_r as u32) * inv_alpha <= 255 * 255) by (nonlinear_arith)
                requires
                    bytes[j0] <= 255,
                    bg_r <= 255,
                    a32 + inv_alpha == 255,
            ;
            assert(bytes[j0 + 1] * a32 + (bg_g as u32) * inv_alpha <= 255 * 255)
                by (nonlinear_arith)
                requires
                    bytes[j0 + 1] <= 255,
                    bg_g <= 255,
                    a32 + inv_alpha == 255,
            ;
            assert(bytes[j0 + 2] * a32 + (bg_b as u32) * inv_alpha <= 255 * 255)
                by (nonlinear_arith)
                requires
                    bytes[j0 + 2] <= 255,
                    bg_b <= 255,
                    a32 + inv_alpha == 255,
            ;
        }
        let c_r = ((bytes[p] as u32 * a32 + bg_r as u32 * inv_alpha) / 255) as u8;
        let c_g = ((bytes[p + 1] as u32 * a32 + bg_g as u32 * inv_alpha) / 255) as u8;
        let c_b = ((bytes[p + 2] as u32 * a32 + bg_b as u32 * inv_alpha) / 255) as u8;
        bytes.set(p, c_r);
        bytes.set(p + 1, c_g);
        bytes.set(p + 2, c_b);
        bytes.set(p + 3, 255);
        proof {
            lemma_pixel_written(orig, hex_color, i as int, bytes@);
        }
        i = i + 1;
    }
    proof {
        assert(bytes@ =~= recolored(orig, hex_color));
    }
    bytes
}

/// After the four bytes of pixel `i` hold their composited values, they agree
/// with `recolored` at every offset within the pixel.
proof fn lemma_pixel_written(orig: Seq<u8>, bg: u32, i: int, cur: Seq<u8>)
    requires
        cur.len() == orig.len(),
        0 <= i < orig.len() / 4,
        cur[4 * i] == recolored_at(orig, bg, i, 0),
        cur[4 * i + 1] == recolored_at(orig, bg, i, 1),
        cur[4 * i + 2] == recolored_at(orig, bg, i, 2),
        cur[4 * i + 3] == recolored_at(orig, bg, i, 3),
    ensures
        forall|j: int| 4 * i <= j < 4 * i + 4 ==> cur[j] == recolored(orig, bg)[j],
{
    assert forall|j: int| 4 * i <= j < 4 * i + 4 implies cur[j] == recolored(orig, bg)[j] by {
        let k = j - 4 * i;
        assert(j < 4 * (orig.len() / 4)) by (nonlinear_arith)
            requires
                0 <= k < 4,
                j == 4 * i + k,
                0 <= i < orig.len() / 4,
        ;
        assert(j / 4 == i && j % 4 == k) by (nonlinear_arith)
            requires
                j == 4 * i + k,
                0 <= k < 4,
                i >= 0,
        ;
    }
}

/// A pixel that is already fully opaque is left byte-for-byte unchanged.
pub proof fn opaque_pixel_unchanged(s: Seq<u8>, bg: u32, i: int)
    requires
        0 <= i < s.len() / 4,
        s[4 * i + 3] == 255,
    ensures
        forall|j: int| 4 * i <= j < 4 * i + 4 ==> recolored(s, bg)[j] == s[j],
{
    assert forall|j: int| 4 * i <= j < 4 * i + 4 implies recolored(s, bg)[j] == s[j] by {
        lemma_recolored_index(s, bg, i, j - 4 * i);
    }
}

/// A fully transparent pixel becomes exactly the background color at full
/// opacity.
pub proof fn transparent_pixel_becomes_background(s: Seq<u8>, bg: u32, i: int)
    requires
        0 <= i < s.len() / 4,
        s[4 * i + 3] == 0,
    ensures
        recolored(s, bg)[4 * i] == rgb_red(bg),
        recolored(s, bg)[4 * i + 1] == rgb_green(bg),
        recolored(s, bg)[4 * i + 2] == rgb_blue(bg),
        recolored(s, bg)[4 * i + 3] == 255,
{
    lemma_recolored_index(s, bg, i, 0);
    lemma_recolored_index(s, bg, i, 1);
    lemma_recolored_index(s, bg, i, 2);
    lemma_recolored_index(s, bg, i, 3);
}

/// For alpha strictly between 0 and 255, every color channel is the exact
/// integer blend `floor((c*a + bg*(255-a)) / 255)` and alpha is forced to
/// 255.
pub proof fn partial_alpha_blends_channels(s: Seq<u8>, bg: u32, i: int)
    requires
        0 <= i < s.len() / 4,
        0 < s[4 * i + 3] < 255,
    ensures
        recolored(s, bg)[4 * i] == ((s[4 * i] * s[4 * i + 3] + rgb_red(bg) * (255 - s[4 * i + 3]))
            / 255) as u8,
        recolored(s, bg)[4 * i + 1] == ((s[4 * i + 1] * s[4 * i + 3] + rgb_green(bg) * (255 - s[4
            * i + 3])) / 255) as u8,
        recolored(s, bg)[4 * i + 2] == ((s[4 * i + 2] * s[4 * i + 3] + rgb_blue(bg) * (255 - s[4
            * i + 3])) / 255) as u8,
        recolored(s, bg)[4 * i + 3] == 255,
{
    lemma_recolored_index(s, bg, i, 0);
    lemma_recolored_index(s, bg, i, 1);
    lemma_recolored_index(s, bg, i, 2);
    lemma_recolored_index(s, bg, i, 3);
}

/// Inside a complete pixel, `recolored` agrees with `recolored_at`.
proof fn lemma_recolored_index(s: Seq<u8>, bg: u32, i: int, k: int)
    requires
        0 <= i < s.len() / 4,
        0 <= k < 4,
    ensures
        recolored(s, bg)[4 * i + k] == recolored_at(s, bg, i, k),
{
    let j = 4 * i + k;
    assert(j < 4 * (s.len() / 4)) by (nonlinear_arith)
        requires
            0 <= k < 4,
            j == 4 * i + k,
            0 <= i < s.len() / 4,
    ;
    assert(4 * (s.len() / 4) <= s.len());
    assert(j / 4 == i && j % 4 == k) by (nonlinear_arith)
        requires
            j == 4 * i + k,
            0 <= k < 4,
            i >= 0,
    ;
}

} // verus!
