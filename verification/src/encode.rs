//! Encoding a captured picture: as JPEG, and then as Base64 text.

use vstd::prelude::*;
use vstd::string::*;
use crate::capture::{Screenshot, is_picture};

verus! {

/// The quality at which pictures are encoded.
pub const JPEG_QUALITY: u8 = 85;

/// The longest side that a JPEG picture can have.
pub const MAX_JPEG_SIDE: u32 = 65535;

// ---------------------------------------------------------------------------
// JPEG
// ---------------------------------------------------------------------------

/// The JPEG file that `image` makes of RGBA pixels at a quality.
pub uninterp spec fn jpeg_file(width: u32, height: u32, rgba: Seq<u8>, quality: u8) -> Seq<u8>;

/// The sizes that JPEG can hold.
pub open spec fn has_jpeg_size(width: u32, height: u32) -> bool {
    1 <= width <= MAX_JPEG_SIDE && 1 <= height <= MAX_JPEG_SIDE
}

/// Puts RGBA pixels into an `image::RgbaImage` with `from_raw`, and has
/// `image::DynamicImage::write_with_encoder` write it into memory with an
/// `image::codecs::jpeg::JpegEncoder` of the quality. It succeeds exactly where both
/// sides are from 1 to 65535; the file depends on the arguments alone.
#[verifier::external_body]
fn write_jpeg(width: u32, height: u32, rgba: Vec<u8>, quality: u8) -> (file: Option<Vec<u8>>)
    requires
        rgba@.len() == 4 * width * height,
    ensures
        file is Some == has_jpeg_size(width, height),
        file matches Some(bytes) ==> bytes@ == jpeg_file(width, height, rgba@, quality),
{
    let pixels = image::RgbaImage::from_raw(width, height, rgba)?;
    let mut file = std::io::Cursor::new(Vec::new());
    let encoder = image::codecs::jpeg::JpegEncoder::new_with_quality(&mut file, quality);
    match image::DynamicImage::ImageRgba8(pixels).write_with_encoder(encoder) {
        Ok(()) => Some(file.into_inner()),
        Err(_) => None,
    }
}

// ---------------------------------------------------------------------------
// Base64
// ---------------------------------------------------------------------------

/// The character for six bits in the standard alphabet.
pub open spec fn base64_char(sextet: int) -> char {
    if sextet < 26 {
        (65 + sextet) as char
    } else if sextet < 52 {
        (97 + sextet - 26) as char
    } else if sextet < 62 {
        (48 + sextet - 52) as char
    } else if sextet == 62 {
        '+'
    } else {
        '/'
    }
}

/// The byte at a position, and 0 past the end.
pub open spec fn byte_or_zero(bytes: Seq<u8>, i: int) -> int {
    if i < bytes.len() {
        bytes[i] as int
    } else {
        0
    }
}

/// The number that the three bytes of group `g` make.
pub open spec fn base64_group(bytes: Seq<u8>, g: int) -> int {
    byte_or_zero(bytes, 3 * g) * 65536 + byte_or_zero(bytes, 3 * g + 1) * 256 + byte_or_zero(
        bytes,
        3 * g + 2,
    )
}

/// The character at position `k` of the Base64 text: six bits of its group, or padding
/// where the bytes have ended.
pub open spec fn base64_at(bytes: Seq<u8>, k: int) -> char {
    let n = base64_group(bytes, k / 4);
    if k % 4 == 0 {
        base64_char(n / 262144)
    } else if k % 4 == 1 {
        base64_char(n / 4096 % 64)
    } else if k % 4 == 2 {
        if 3 * (k / 4) + 1 < bytes.len() {
            base64_char(n / 64 % 64)
        } else {
            '='
        }
    } else {
        if 3 * (k / 4) + 2 < bytes.len() {
            base64_char(n % 64)
        } else {
            '='
        }
    }
}

/// The length of the Base64 text of so many bytes.
pub open spec fn base64_len(n: nat) -> nat {
    4 * ((n + 2) / 3)
}

/// The Base64 text of `bytes`: four characters for each three bytes, padded.
pub open spec fn base64_text(bytes: Seq<u8>) -> Seq<char> {
    Seq::new(base64_len(bytes.len()), |k: int| base64_at(bytes, k))
}

/// Calls `base64::Engine::encode` of the `STANDARD` engine: Base64 with the standard
/// alphabet and with padding. A text too long to be allocated is left out.
#[verifier::external_body]
fn encode_base64(bytes: &Vec<u8>) -> (text: String)
    requires
        base64_len(bytes@.len()) <= isize::MAX,
    ensures
        text@ == base64_text(bytes@),
{
    base64::Engine::encode(&base64::engine::general_purpose::STANDARD, bytes)
}

/// Writes bytes in Base64.
pub fn base64_of(bytes: &Vec<u8>) -> (text: String)
    requires
        base64_len(bytes@.len()) <= isize::MAX,
    ensures
        text@ == base64_text(bytes@),
{
    encode_base64(bytes)
}

// ---------------------------------------------------------------------------
// A picture
// ---------------------------------------------------------------------------

/// The JPEG file of a picture.
pub open spec fn file_of(shot: Screenshot) -> Seq<u8> {
    jpeg_file(shot.width, shot.height, shot.rgba@, JPEG_QUALITY)
}

/// A picture that can be handed over: JPEG can hold it, and the text of the file can be
/// allocated.
pub open spec fn is_deliverable(shot: Screenshot) -> bool {
    has_jpeg_size(shot.width, shot.height) && base64_len(file_of(shot).len()) <= isize::MAX
}

/// Encodes a picture as JPEG, and the file as Base64 text. `None` where the picture
/// cannot be handed over.
pub fn encode_screenshot(shot: Screenshot) -> (text: Option<String>)
    requires
        is_picture(shot),
    ensures
        text is Some == is_deliverable(shot),
        text matches Some(text) ==> text@ == base64_text(file_of(shot)),
{
    match write_jpeg(shot.width, shot.height, shot.rgba, JPEG_QUALITY) {
        Some(file) => {
            let groups: usize = if file.len() % 3 == 0 {
                file.len() / 3
            } else {
                file.len() / 3 + 1
            };
            if groups as u128 * 4 <= isize::MAX as u128 {
                Some(base64_of(&file))
            } else {
                None
            }
        },
        None => None,
    }
}

// ---------------------------------------------------------------------------
// Laws
// ---------------------------------------------------------------------------

/// Every picture that JPEG can hold can be handed over, as long as the text of its file at
/// quality 85, four characters for each three bytes, can be addressed.
pub proof fn law_pictures_that_can_be_handed_over(shot: Screenshot)
    ensures
        is_deliverable(shot) <==> {
            &&& 1 <= shot.width <= 65535
            &&& 1 <= shot.height <= 65535
            &&& 4 * ((jpeg_file(shot.width, shot.height, shot.rgba@, 85).len() + 2) / 3)
                <= isize::MAX
        },
        file_of(shot) == jpeg_file(shot.width, shot.height, shot.rgba@, 85),
{
}

/// The six bits that a character of the standard alphabet stands for.
pub open spec fn sextet_of(c: char) -> int {
    if 'A' <= c <= 'Z' {
        c as int - 'A' as int
    } else if 'a' <= c <= 'z' {
        c as int - 'a' as int + 26
    } else if '0' <= c <= '9' {
        c as int - '0' as int + 52
    } else if c == '+' {
        62
    } else {
        63
    }
}

/// Three bytes can be read back from the four characters that they become.
pub proof fn law_base64_reads_back(bytes: Seq<u8>, g: int)
    requires
        0 <= g,
        3 * g + 2 < bytes.len(),
    ensures
        ({
            let text = base64_text(bytes);
            &&& 4 * g + 3 < text.len()
            &&& sextet_of(text[4 * g]) * 4 + sextet_of(text[4 * g + 1]) / 16 == bytes[3 * g]
            &&& sextet_of(text[4 * g + 1]) % 16 * 16 + sextet_of(text[4 * g + 2]) / 4 == bytes[3 * g
                + 1]
            &&& sextet_of(text[4 * g + 2]) % 4 * 64 + sextet_of(text[4 * g + 3]) == bytes[3 * g + 2]
        }),
{
    let (a, b, c): (int, int, int) = (
        bytes[3 * g] as int,
        bytes[3 * g + 1] as int,
        bytes[3 * g + 2] as int,
    );
    let n: int = a * 65536 + b * 256 + c;
    assert(base64_group(bytes, g) == n);
    lemma_groups(a, b, c);
    lemma_sextet(n / 262144);
    lemma_sextet(n / 4096 % 64);
    lemma_sextet(n / 64 % 64);
    lemma_sextet(n % 64);
    let text = base64_text(bytes);
    assert(text[4 * g] == base64_char(n / 262144));
    assert(text[4 * g + 1] == base64_char(n / 4096 % 64));
    assert(text[4 * g + 2] == base64_char(n / 64 % 64));
    assert(text[4 * g + 3] == base64_char(n % 64));
}

/// The four groups of six bits in three bytes.
proof fn lemma_groups(a: int, b: int, c: int)
    requires
        0 <= a < 256,
        0 <= b < 256,
        0 <= c < 256,
    ensures
        ({
            let n = a * 65536 + b * 256 + c;
            &&& n / 262144 == a / 4
            &&& n / 4096 % 64 == a % 4 * 16 + b / 16
            &&& n / 64 % 64 == b % 16 * 4 + c / 64
            &&& n % 64 == c % 64
        }),
{
    let n = a * 65536 + b * 256 + c;
    assert(n / 4096 == a * 16 + b / 16);
    assert(n / 64 == a * 1024 + b * 4 + c / 64);
}

proof fn lemma_sextet(sextet: int)
    requires
        0 <= sextet < 64,
    ensures
        sextet_of(base64_char(sextet)) == sextet,
{
}

} // verus!
