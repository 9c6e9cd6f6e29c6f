//! Turning pixels into bytes and bytes into text.
//!
//! A snapshot of a tile is a PNG image, and a PNG image travels inside a text
//! message in base64. Both encoders are outside crates; this module states
//! what is taken on trust about each and proves what the rest of the crate
//! needs from those statements.

use vstd::prelude::*;

verus! {

/// The `index`-th symbol of the standard base64 alphabet:
/// `A`-`Z`, `a`-`z`, `0`-`9`, `+`, `/`.
pub open spec fn base64_symbol(index: int) -> char {
    if index < 26 {
        (index + 65) as char
    } else if index < 52 {
        (index + 71) as char
    } else if index < 62 {
        (index - 4) as char
    } else if index == 62 {
        '+'
    } else {
        '/'
    }
}

/// Standard base64 with padding: every three bytes become four symbols, six
/// bits each, most significant first; a final group of one or two bytes is
/// filled with zero bits and closed with `=` signs.
pub open spec fn base64_standard(bytes: Seq<u8>) -> Seq<char>
    decreases bytes.len(),
{
    if bytes.len() == 0 {
        Seq::empty()
    } else if bytes.len() == 1 {
        let a = bytes[0] as int;
        seq![base64_symbol(a / 4), base64_symbol(a % 4 * 16), '=', '=']
    } else if bytes.len() == 2 {
        let a = bytes[0] as int;
        let b = bytes[1] as int;
        seq![
            base64_symbol(a / 4),
            base64_symbol(a % 4 * 16 + b / 16),
            base64_symbol(b % 16 * 4),
            '=',
        ]
    } else {
        let a = bytes[0] as int;
        let b = bytes[1] as int;
        let c = bytes[2] as int;
        seq![
            base64_symbol(a / 4),
            base64_symbol(a % 4 * 16 + b / 16),
            base64_symbol(b % 16 * 4 + c / 64),
            base64_symbol(c % 64),
        ] + base64_standard(bytes.skip(3))
    }
}

/// Length of the base64 text of `len` bytes.
pub open spec fn base64_len(len: nat) -> nat {
    4 * ((len + 2) / 3)
}

/// Whether a character may appear in base64 text: an ASCII letter or digit,
/// `+`, `/` or `=`.
pub open spec fn is_base64_char(c: char) -> bool {
    ('A' <= c && c <= 'Z') || ('a' <= c && c <= 'z') || ('0' <= c && c <= '9') || c == '+' || c
        == '/' || c == '='
}

/// Base64 text has four characters for every started group of three bytes,
/// and every one of them is safe inside a text message.
pub proof fn law_base64_is_text_safe(bytes: Seq<u8>)
    ensures
        base64_standard(bytes).len() == base64_len(bytes.len()),
        forall|i: int|
            0 <= i < base64_standard(bytes).len() ==> is_base64_char(
                #[trigger] base64_standard(bytes)[i],
            ),
    decreases bytes.len(),
{
    assert forall|v: int| 0 <= v < 64 implies is_base64_char(#[trigger] base64_symbol(v)) by {}
    if bytes.len() >= 3 {
        law_base64_is_text_safe(bytes.skip(3));
    }
}

/// `Engine::encode` of the `base64` crate, on its `STANDARD` engine.
///
/// Taken on trust: the text returned is the standard base64 encoding, with
/// padding, of the bytes given. The call panics when the length of that text
/// does not fit in `usize`; such inputs are excluded.
#[verifier::external_body]
fn base64_encode(bytes: &[u8]) -> (text: String)
    requires
        base64_len(bytes@.len()) <= usize::MAX,
    ensures
        text@ == base64_standard(bytes@),
{
    base64::Engine::encode(&base64::engine::general_purpose::STANDARD, bytes)
}

/// Encodes bytes as base64 text, or returns `None` when the text would be
/// longer than any string can be.
pub fn to_base64(bytes: &[u8]) -> (text: Option<String>)
    ensures
        text.is_some() <==> base64_len(bytes@.len()) <= usize::MAX,
        text matches Some(t) ==> t@ == base64_standard(bytes@),
{
    let groups = bytes.len() / 3;
    let started = if bytes.len() % 3 == 0 {
        groups
    } else {
        groups + 1
    };
    assert(started == (bytes@.len() + 2) / 3);
    if started <= usize::MAX / 4 {
        Some(base64_encode(bytes))
    } else {
        None
    }
}

/// The error type of the `png` crate's encoder.
#[verifier::external_type_specification]
#[verifier::external_body]
pub struct ExEncodingError(png::EncodingError);

/// The PNG file that the `png` crate writes for an 8-bit RGBA image of the
/// given size, with fast compression and no row filter.
pub uninterp spec fn png_rgba8(pixels: Seq<u8>, width: u32, height: u32) -> Seq<u8>;

/// Whether `len` bytes are exactly the pixels of a non-empty 8-bit RGBA image
/// of the given size.
pub open spec fn fits_rgba8(len: nat, width: u32, height: u32) -> bool {
    width > 0 && height > 0 && len == 4 * width * height
}

/// Widest image the encoder is given: a row of four bytes per pixel and one
/// filter byte must stay below 2^31 bytes, well inside the 32-bit counters
/// with which the compressor measures runs within a row.
pub const MAX_IMAGE_WIDTH: u32 = 0x1FFF_FFFF;

/// Bytes the encoder compresses for an image of the given size: each row
/// with a filter byte in front.
pub open spec fn raw_len(width: u32, height: u32) -> nat {
    ((4 * width + 1) * height) as nat
}

/// Whether the encoder's own arithmetic stays within its integer types for
/// an image of the given size: rows are short enough for its 32-bit
/// counters, and the whole image for `usize`.
pub open spec fn encodable_size(width: u32, height: u32) -> bool {
    width <= MAX_IMAGE_WIDTH && raw_len(width, height) <= usize::MAX / 2
}

/// The longest PNG file the encoder writes for an image of the given size.
/// Its compressor never does worse than storing the rows as they are, five
/// bytes of framing for every 65535 stored; signature, header, chunk frames
/// and trailer stay within the rest.
pub open spec fn png_len_bound(width: u32, height: u32) -> nat {
    raw_len(width, height) + raw_len(width, height) / 8192 + 128
}

/// A PNG file of an encodable image is short enough to be written as base64
/// text.
pub proof fn lemma_png_fits_text(len: nat, width: u32, height: u32)
    requires
        encodable_size(width, height),
        len <= png_len_bound(width, height),
    ensures
        base64_len(len) <= usize::MAX,
{
    assert(usize::MAX >= 0xFFFF_FFFF);
}

/// `Encoder::new`, `set_color`, `set_depth`, `set_compression`, `set_filter`
/// and `write_header`, then `Writer::write_image_data` and `finish`, of the
/// `png` crate, writing into a fresh byte vector.
///
/// Taken on trust: the header is refused when the width or the height is
/// zero, the image data when its length is not four bytes per pixel, and
/// nothing else fails when the output is a vector in memory; the bytes
/// written depend on the pixels and the size alone; and the file is no
/// longer than `png_len_bound`, because the writer falls back to stored
/// blocks whenever fast compression comes out longer. Sizes on which the
/// encoder's or the compressor's arithmetic could overflow are excluded.
#[verifier::external_body]
fn encode_png(pixels: &[u8], width: u32, height: u32) -> (r: Result<Vec<u8>, png::EncodingError>)
    requires
        encodable_size(width, height),
    ensures
        r.is_ok() <==> fits_rgba8(pixels@.len(), width, height),
        r matches Ok(bytes) ==> bytes@ == png_rgba8(pixels@, width, height),
        r matches Ok(bytes) ==> bytes@.len() <= png_len_bound(width, height),
{
    let mut out = Vec::new();
    let mut encoder = png::Encoder::new(&mut out, width, height);
    encoder.set_color(png::ColorType::Rgba);
    encoder.set_depth(png::BitDepth::Eight);
    encoder.set_compression(png::Compression::Fast);
    encoder.set_filter(png::Filter::NoFilter);
    let mut writer = encoder.write_header()?;
    writer.write_image_data(pixels)?;
    writer.finish()?;
    Ok(out)
}

/// Why an image could not be encoded.
#[derive(Clone, Copy, Debug, PartialEq, Eq, Structural)]
pub enum EncodeError {
    /// The image is wider or larger than the encoder can size.
    TooLarge,
    /// The encoder refused the image: a side is zero, or the buffer does not
    /// hold exactly four bytes per pixel.
    Refused,
}

/// What [`encode_rgba8`] answers for an image of the given size backed by
/// `len` bytes, as far as success and failure go.
pub open spec fn encode_verdict(len: nat, width: u32, height: u32) -> Result<(), EncodeError> {
    if !encodable_size(width, height) {
        Err(EncodeError::TooLarge)
    } else if !fits_rgba8(len, width, height) {
        Err(EncodeError::Refused)
    } else {
        Ok(())
    }
}

/// Turns the encoder's answer into this crate's own. The bytes of a
/// successful encoding are passed on untouched.
pub fn encoded_or_refused(outcome: Result<Vec<u8>, png::EncodingError>) -> (r: Result<
    Vec<u8>,
    EncodeError,
>)
    ensures
        match outcome {
            Ok(bytes) => r matches Ok(out) && out@ == bytes@,
            Err(_) => r == Err::<Vec<u8>, EncodeError>(EncodeError::Refused),
        },
{
    match outcome {
        Ok(bytes) => Ok(bytes),
        Err(_) => Err(EncodeError::Refused),
    }
}

/// Encodes premultiplied RGBA pixels, four bytes each and row by row, as a
/// PNG file.
pub fn encode_rgba8(pixels: &[u8], width: u32, height: u32) -> (r: Result<Vec<u8>, EncodeError>)
    ensures
        match r {
            Ok(bytes) => {
                &&& encode_verdict(pixels@.len(), width, height).is_ok()
                &&& bytes@ == png_rgba8(pixels@, width, height)
                &&& bytes@.len() <= png_len_bound(width, height)
                &&& base64_len(bytes@.len()) <= usize::MAX
            },
            Err(e) => encode_verdict(pixels@.len(), width, height) == Err::<(), EncodeError>(e),
        },
{
    if width > MAX_IMAGE_WIDTH {
        return Err(EncodeError::TooLarge);
    }
    let row: u64 = 4 * (width as u64) + 1;
    let limit: u64 = (usize::MAX / 2) as u64;
    if height as u64 > 0 && row > limit / (height as u64) {
        assert(row * height > limit) by (nonlinear_arith)
            requires
                height > 0,
                row > limit / (height as u64),
                row >= 0,
                limit >= 0,
        ;
        return Err(EncodeError::TooLarge);
    }
    assert((4 * width + 1) * height <= usize::MAX / 2) by (nonlinear_arith)
        requires
            row == 4 * width + 1,
            limit == usize::MAX / 2,
            height == 0 || row <= limit / (height as u64),
            limit >= 0,
    ;
    let outcome = encoded_or_refused(encode_png(pixels, width, height));
    proof {
        if outcome.is_ok() {
            lemma_png_fits_text(outcome.unwrap()@.len(), width, height);
        }
    }
    outcome
}

} // verus!
