//! Pixel format conversion and the transport encoding for rendered pages.
//!
//! A page travels as an 8-byte header, width then height as little-endian
//! `u32`, followed by the pixel bytes.
use crate::cache::Tile;
use vstd::prelude::*;

verus! {

/// Bytes of header prefixed to a page: `u32` width, `u32` height, little-endian.
pub const HEADER_BYTES: usize = 8;

/// The four little-endian bytes of `value`.
pub open spec fn le_bytes(value: u32) -> Seq<u8> {
    seq![
        (value % 256) as u8,
        ((value / 256) % 256) as u8,
        ((value / 65536) % 256) as u8,
        (value / 16777216) as u8,
    ]
}

/// The `u32` whose little-endian bytes start `bytes` at `at`.
pub open spec fn le_value(bytes: Seq<u8>, at: int) -> u32 {
    (bytes[at] + bytes[at + 1] * 256 + bytes[at + 2] * 65536 + bytes[at + 3] * 16777216) as u32
}

/// Reading back the bytes of a value gives the value.
pub proof fn lemma_le_round_trip(value: u32)
    ensures
        le_value(le_bytes(value), 0) == value,
{
    let b = le_bytes(value);
    assert(b[0] + b[1] * 256 + b[2] * 65536 + b[3] * 16777216 == value) by (nonlinear_arith)
        requires
            b[0] == value % 256,
            b[1] == (value / 256) % 256,
            b[2] == (value / 65536) % 256,
            b[3] == value / 16777216,
            value < 4294967296,
    ;
}

/// BGRA to RGBA: in every complete 4-byte pixel the first and third bytes
/// trade places; a trailing partial pixel is left alone.
pub open spec fn swap_red_blue(pixels: Seq<u8>) -> Seq<u8> {
    Seq::new(
        pixels.len(),
        |i: int|
            if i - i % 4 + 4 > pixels.len() {
                pixels[i]
            } else if i % 4 == 0 {
                pixels[i + 2]
            } else if i % 4 == 2 {
                pixels[i - 2]
            } else {
                pixels[i]
            },
    )
}

/// The conversion undoes itself.
pub proof fn law_swap_red_blue_is_an_involution(pixels: Seq<u8>)
    ensures
        swap_red_blue(swap_red_blue(pixels)) == pixels,
{
    let once = swap_red_blue(pixels);
    let twice = swap_red_blue(once);
    assert(twice =~= pixels);
}

/// In every whole pixel `j` the red and blue bytes trade places while green
/// and alpha stay; the bytes of a trailing partial pixel are kept as they
/// are; nothing is added or dropped.
pub proof fn law_red_and_blue_trade_places_in_every_whole_pixel(pixels: Seq<u8>, j: int, t: int)
    ensures
        swap_red_blue(pixels).len() == pixels.len(),
        0 <= j && 4 * j + 4 <= pixels.len() ==> {
            let out = swap_red_blue(pixels);
            &&& out[4 * j] == pixels[4 * j + 2]
            &&& out[4 * j + 1] == pixels[4 * j + 1]
            &&& out[4 * j + 2] == pixels[4 * j]
            &&& out[4 * j + 3] == pixels[4 * j + 3]
        },
        pixels.len() - pixels.len() % 4 <= t < pixels.len() ==> swap_red_blue(pixels)[t]
            == pixels[t],
{
    if 0 <= j && 4 * j + 4 <= pixels.len() {
        assert((4 * j) % 4 == 0);
        assert((4 * j + 1) % 4 == 1);
        assert((4 * j + 2) % 4 == 2);
        assert((4 * j + 3) % 4 == 3);
    }
    if pixels.len() - pixels.len() % 4 <= t < pixels.len() {
        assert(t - t % 4 + 4 > pixels.len()) by (nonlinear_arith)
            requires
                pixels.len() - pixels.len() % 4 <= t,
                t < pixels.len(),
                0 <= t,
        ;
    }
}

/// Converts PDFium's BGRA output to the RGBA a canvas expects.
pub fn bgra_to_rgba(pixels: Vec<u8>) -> (rgba: Vec<u8>)
    ensures
        rgba@ == swap_red_blue(pixels@),
{
    let mut pixels = pixels;
    let ghost initial = pixels@;
    let len = pixels.len();
    let mut at: usize = 0;
    while len - at >= 4
        invariant
            len == pixels@.len(),
            len == initial.len(),
            at % 4 == 0,
            at <= len,
            forall|i: int|
                0 <= i < at ==> #[trigger] pixels@[i] == swap_red_blue(initial)[i],
            forall|i: int| at <= i < len ==> #[trigger] pixels@[i] == initial[i],
        decreases len - at,
    {
        let blue = pixels[at];
        let red = pixels[at + 2];
        pixels.set(at, red);
        pixels.set(at + 2, blue);
        at = at + 4;
    }
    assert(pixels@ =~= swap_red_blue(initial));
    pixels
}

/// The transport encoding of a page: header, then pixels.
pub open spec fn page_encoding(width: u32, height: u32, pixels: Seq<u8>) -> Seq<u8> {
    le_bytes(width) + le_bytes(height) + pixels
}

/// What [`decode_page`] recovers from `buffer`: the declared dimensions and
/// the pixels, when the buffer holds a header and exactly `width * height * 4`
/// pixel bytes.
pub open spec fn page_decoding(buffer: Seq<u8>) -> Option<(u32, u32, Seq<u8>)> {
    if buffer.len() < 8 {
        None
    } else {
        let width = le_value(buffer, 0);
        let height = le_value(buffer, 4);
        if buffer.len() - 8 == width * height * 4 {
            Some((width, height, buffer.subrange(8, buffer.len() as int)))
        } else {
            None
        }
    }
}

/// A page decodes to what was encoded exactly when its pixel buffer matches
/// its dimensions; otherwise decoding refuses it.
pub proof fn law_page_round_trip(width: u32, height: u32, pixels: Seq<u8>)
    ensures
        pixels.len() == width * height * 4 ==> page_decoding(page_encoding(width, height, pixels))
            == Some((width, height, pixels)),
        pixels.len() != width * height * 4 ==> page_decoding(
            page_encoding(width, height, pixels),
        ) is None,
{
    let encoded = page_encoding(width, height, pixels);
    lemma_le_round_trip(width);
    lemma_le_round_trip(height);
    assert(encoded.subrange(0, 4) =~= le_bytes(width));
    assert(encoded.subrange(4, 8) =~= le_bytes(height));
    assert(le_value(encoded, 0) == le_value(le_bytes(width), 0));
    assert(le_value(encoded, 4) == le_value(le_bytes(height), 0));
    assert(encoded.subrange(8, encoded.len() as int) =~= pixels);
}

/// Appends the little-endian bytes of `value`.
fn push_le(out: &mut Vec<u8>, value: u32)
    ensures
        final(out)@ == old(out)@ + le_bytes(value),
{
    out.push((value % 256) as u8);
    out.push(((value / 256) % 256) as u8);
    out.push(((value / 65536) % 256) as u8);
    out.push((value / 16777216) as u8);
    assert(final(out)@ =~= old(out)@ + le_bytes(value));
}

/// Appends every byte of `bytes`.
pub(crate) fn push_all(out: &mut Vec<u8>, bytes: &[u8])
    ensures
        final(out)@ == old(out)@ + bytes@,
{
    let ghost start = out@;
    let mut i: usize = 0;
    while i < bytes.len()
        invariant
            i <= bytes@.len(),
            out@ == start + bytes@.subrange(0, i as int),
        decreases bytes@.len() - i,
    {
        out.push(bytes[i]);
        i = i + 1;
        assert(out@ =~= start + bytes@.subrange(0, i as int));
    }
    assert(bytes@.subrange(0, i as int) =~= bytes@);
}

/// Packs a tile for transport: header then pixels.
pub fn encode_page(width: u32, height: u32, pixels: &[u8]) -> (encoded: Vec<u8>)
    ensures
        encoded@ == page_encoding(width, height, pixels@),
{
    let mut out: Vec<u8> = Vec::new();
    push_le(&mut out, width);
    push_le(&mut out, height);
    push_all(&mut out, pixels);
    assert(out@ =~= page_encoding(width, height, pixels@));
    out
}

/// Reads the little-endian `u32` at `at`.
fn read_le(buffer: &[u8], at: usize) -> (value: u32)
    requires
        at + 4 <= buffer@.len(),
    ensures
        value == le_value(buffer@, at as int),
{
    buffer[at] as u32 + buffer[at + 1] as u32 * 256 + buffer[at + 2] as u32 * 65536
        + buffer[at + 3] as u32 * 16777216
}

/// Reverses [`encode_page`].
///
/// Returns `None` when the buffer is too short or its length contradicts the
/// declared dimensions.
pub fn decode_page(buffer: &[u8]) -> (tile: Option<Tile>)
    ensures
        match page_decoding(buffer@) {
            Some((width, height, pixels)) => tile matches Some(t) && t.width == width && t.height
                == height && t.pixels@ == pixels,
            None => tile is None,
        },
{
    if buffer.len() < HEADER_BYTES {
        return None;
    }
    let width = read_le(buffer, 0);
    let height = read_le(buffer, 4);
    let pixel_len = buffer.len() - HEADER_BYTES;
    let expected = match (width as usize).checked_mul(height as usize) {
        Some(area) => match area.checked_mul(4) {
            Some(bytes) => bytes,
            None => {
                assert(width * height * 4 > usize::MAX) by (nonlinear_arith)
                    requires
                        area == width * height,
                        area * 4 > usize::MAX,
                ;
                return None;
            },
        },
        None => {
            assert(width * height * 4 > usize::MAX) by (nonlinear_arith)
                requires
                    width * height > usize::MAX,
            ;
            return None;
        },
    };
    if pixel_len != expected {
        return None;
    }
    let mut pixels: Vec<u8> = Vec::new();
    let mut i: usize = HEADER_BYTES;
    while i < buffer.len()
        invariant
            HEADER_BYTES <= i <= buffer@.len(),
            pixels@ == buffer@.subrange(8, i as int),
        decreases buffer@.len() - i,
    {
        pixels.push(buffer[i]);
        i = i + 1;
        assert(pixels@ =~= buffer@.subrange(8, i as int));
    }
    Some(Tile { width, height, pixels })
}

} // verus!
