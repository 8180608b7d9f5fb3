//! Frame encoding: the vertical flip of the captured framebuffer, lossless
//! PNG encoding of the flipped pixels, and the binary-to-text transform used
//! for transport.

use vstd::prelude::*;
use vstd::arithmetic::div_mod::lemma_fundamental_div_mod_converse;

verus! {

/// Where byte `j` of the flipped buffer comes from in the original: the
/// same offset within the mirrored row.
pub open spec fn flip_index(width: nat, height: nat, j: int) -> int {
    let row_len = 4 * width as int;
    let row = j / row_len;
    let off = j % row_len;
    (height - 1 - row) * row_len + off
}

/// The framebuffer rows in reverse order: byte `j` of the result is the
/// byte at the same column of row `height-1-r` of the input, where `r` is
/// `j`'s row. Bytes are RGBA, 4 per pixel, rows of `width` pixels.
pub open spec fn flipped(width: nat, height: nat, s: Seq<u8>) -> Seq<u8> {
    Seq::new(s.len(), |j: int| s[flip_index(width, height, j)])
}

/// A byte index decomposed into row and column addresses the mirrored row
/// at the same column.
proof fn lemma_flip_entry(width: nat, height: nat, r: int, c: int)
    requires
        0 <= r < height,
        0 <= c < 4 * width,
    ensures
        flip_index(width, height, r * (4 * width as int) + c) == (height - 1 - r) * (4
            * width as int) + c,
{
    let row_len = 4 * width as int;
    let j = r * row_len + c;
    lemma_fundamental_div_mod_converse(j, row_len, r, c);
}

/// Reverses the row order of an RGBA framebuffer capture, turning the
/// bottom-up framebuffer convention into the top-down image convention.
pub fn flip_vertical(width: u32, height: u32, frame: Vec<u8>) -> (out: Vec<u8>)
    requires
        frame@.len() == 4 * (width as int) * (height as int),
    ensures
        out@ == flipped(width as nat, height as nat, frame@),
{
    let ghost orig = frame@;
    let total = frame.len();
    if width == 0 || height == 0 {
        proof {
            assert(orig.len() == 0) by (nonlinear_arith)
                requires
                    orig.len() == 4 * (width as int) * (height as int),
                    width == 0 || height == 0,
            ;
        }
        let out: Vec<u8> = Vec::new();
        proof {
            assert(out@ =~= flipped(width as nat, height as nat, orig));
        }
        return out;
    }
    proof {
        assert(4 * (width as int) <= total as int) by (nonlinear_arith)
            requires
                total as int == 4 * (width as int) * (height as int),
                height >= 1,
                width >= 0,
        ;
    }
    let w4 = 4 * (width as usize);
    let h = height as usize;
    proof {
        assert((w4 as int) * (h as int) == orig.len()) by (nonlinear_arith)
            requires
                w4 == 4 * (width as int),
                h == height as int,
                orig.len() == 4 * (width as int) * (height as int),
        ;
    }
    let mut out: Vec<u8> = Vec::new();
    let mut r: usize = 0;
    while r < h
        invariant
            w4 == 4 * (width as int),
            h == height as int,
            h >= 1,
            orig.len() == (w4 as int) * (h as int),
            orig.len() <= usize::MAX,
            frame@ == orig,
            r <= h,
            out@.len() == r * (w4 as int),
            forall|j: int| 0 <= j < out@.len() ==> out@[j] == flipped(
                width as nat,
                height as nat,
                orig,
            )[j],
        decreases h - r,
    {
        let src_row = h - 1 - r;
        proof {
            assert((src_row as int) * (w4 as int) + (w4 as int) <= orig.len())
                by (nonlinear_arith)
                requires
                    src_row == h - 1 - r,
                    0 <= r < h,
                    orig.len() == (w4 as int) * (h as int),
                    w4 >= 0,
            ;
            assert((r as int) * (w4 as int) + (w4 as int) <= orig.len()) by (nonlinear_arith)
                requires
                    0 <= r < h,
                    orig.len() == (w4 as int) * (h as int),
                    w4 >= 0,
            ;
        }
        let src_base = src_row * w4;
        let mut c: usize = 0;
        while c < w4
            invariant
                w4 == 4 * (width as int),
                h == height as int,
                frame@ == orig,
                0 <= r < h,
                src_row == h - 1 - r,
                src_base == (src_row as int) * (w4 as int),
                orig.len() <= usize::MAX,
                (src_base as int) + (w4 as int) <= orig.len(),
                (r as int) * (w4 as int) + (w4 as int) <= orig.len(),
                c <= w4,
                out@.len() == r * (w4 as int) + c,
                forall|j: int| 0 <= j < out@.len() ==> out@[j] == flipped(
                    width as nat,
                    height as nat,
                    orig,
                )[j],
            decreases w4 - c,
        {
            out.push(frame[src_base + c]);
            proof {
                let j = (r as int) * (w4 as int) + c;
                lemma_flip_entry(width as nat, height as nat, r as int, c as int);
                assert(flipped(width as nat, height as nat, orig)[j] == orig[(src_base as int)
                    + c]);
            }
            c = c + 1;
        }
        proof {
            assert((r as int + 1) * (w4 as int) == (r as int) * (w4 as int) + (w4 as int))
                by (nonlinear_arith);
        }
        r = r + 1;
    }
    proof {
        assert(out@.len() == orig.len()) by (nonlinear_arith)
            requires
                out@.len() == (h as int) * (w4 as int),
                orig.len() == (w4 as int) * (h as int),
        ;
        assert(out@ =~= flipped(width as nat, height as nat, orig));
    }
    out
}

/// Name for the PNG encoding of an RGBA image: the bytes of the 8-bit-depth
/// RGBA PNG with the given dimensions and pixel bytes.
pub uninterp spec fn png_of(width: u32, height: u32, bytes: Seq<u8>) -> Seq<u8>;

/// Relies on png::Encoder and png::Writer: encodes RGBA pixel bytes into an
/// in-memory PNG (8-bit depth, RGBA color), a function of the dimensions
/// and bytes alone. A PNG begins with its signature, so a successful encode
/// is never empty. A header, size or write failure is reported as None, but
/// with positive dimensions and exactly 4 bytes per pixel none occurs: the
/// header checks (zero dimension, color/depth pair) and the buffer-size
/// check pass, and every write goes to an in-memory buffer, which cannot
/// fail. The requires keeps the encoder's internal row and buffer sizes
/// (up to (4*width + 1) * height + header bytes) within usize, where it
/// would otherwise overflow.
#[verifier::external_body]
fn encode_png(width: u32, height: u32, bytes: &Vec<u8>) -> (r: Option<Vec<u8>>)
    requires
        4 * (width as int) * (height as int) + (height as int) + 1 <= usize::MAX,
    ensures
        r is Some ==> r->0@ == png_of(width, height, bytes@),
        r is Some ==> r->0@.len() > 0,
        width > 0 && height > 0 && bytes@.len() == 4 * (width as int) * (height as int)
            ==> r is Some,
{
    let mut data = Vec::new();
    let ok = {
        let mut encoder = png::Encoder::new(&mut data, width, height);
        encoder.set_color(png::ColorType::Rgba);
        encoder.set_depth(png::BitDepth::Eight);
        match encoder.write_header() {
            Ok(mut writer) => writer.write_image_data(bytes).is_ok() && writer.finish().is_ok(),
            Err(_) => false,
        }
    };
    if ok {
        Some(data)
    } else {
        None
    }
}

/// Name for the standard base64 text (with padding) of a byte string.
pub uninterp spec fn base64_of(bytes: Seq<u8>) -> Seq<char>;

/// Relies on base64's STANDARD engine: encodes bytes as base64 text with
/// padding, four characters for every started block of three input bytes,
/// a function of the bytes alone. The requires keeps that length within
/// usize, the one case where the engine would panic.
#[verifier::external_body]
fn encode_base64(bytes: &Vec<u8>) -> (r: String)
    requires
        4 * ((bytes@.len() + 2) / 3) <= usize::MAX,
    ensures
        r@ == base64_of(bytes@),
        r@.len() == 4 * ((bytes@.len() + 2) / 3),
{
    base64::Engine::encode(&base64::engine::general_purpose::STANDARD, bytes)
}

/// Encodes one captured frame for transport: flips it vertically, encodes
/// the flipped pixels as a PNG, and wraps the PNG in base64 text. The result
/// is the empty string sentinel or exactly the base64 text of the PNG of the
/// flipped frame, never empty on success; and success is owed whenever the
/// dimensions are positive, the frame is small enough for the encoder's size
/// arithmetic, and its PNG fits the transport bound.
pub fn encode_frame(width: u32, height: u32, frame: Vec<u8>) -> (r: String)
    requires
        frame@.len() == 4 * (width as int) * (height as int),
    ensures
        r@.len() == 0 || (r@ == base64_of(
            png_of(width, height, flipped(width as nat, height as nat, frame@)),
        ) && r@.len() > 0),
        width > 0 && height > 0 && frame@.len() + (height as int) + 1 <= usize::MAX && png_of(
            width,
            height,
            flipped(width as nat, height as nat, frame@),
        ).len() <= 1000000000 ==> r@ == base64_of(
            png_of(width, height, flipped(width as nat, height as nat, frame@)),
        ),
{
    if width == 0 || height == 0 {
        return String::new();
    }
    let total = frame.len();
    let h_us = height as usize;
    if h_us == usize::MAX || total > usize::MAX - 1 - h_us {
        return String::new();
    }
    let flipped_bytes = flip_vertical(width, height, frame);
    match encode_png(width, height, &flipped_bytes) {
        Some(png_bytes) => {
            if png_bytes.len() <= 1000000000 {
                proof {
                    assert(4 * ((png_bytes@.len() + 2) / 3) <= usize::MAX) by (nonlinear_arith)
                        requires
                            0 <= png_bytes@.len() <= 1000000000,
                            usize::MAX >= 0xffff_ffff,
                    ;
                }
                encode_base64(&png_bytes)
            } else {
                String::new()
            }
        },
        None => String::new(),
    }
}

} // verus!
