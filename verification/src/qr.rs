//! Booking confirmations as QR codes: the code's image, encoded as a PNG and
//! written in base64.

use vstd::prelude::*;
use base64::Engine;
use image::ImageEncoder;
use crate::errors::AppError;
use crate::text::join2;

verus! {

/// What `qrcode` makes of `data` at its default error-correction level,
/// rendered as a grey image with a quiet zone: the pixels row by row, the
/// width and the height; or the crate's message where the data does not fit.
pub uninterp spec fn qr_image(data: Seq<u8>) -> Result<(Seq<u8>, u32, u32), Seq<char>>;

/// What the `image` crate's PNG encoder writes for a grey image, or its message.
pub uninterp spec fn png_l8(pixels: Seq<u8>, width: u32, height: u32) -> Result<Seq<u8>, Seq<char>>;

/// The character of the standard base64 alphabet for a six-bit value:
/// `A`-`Z`, `a`-`z`, `0`-`9`, `+` and `/`.
pub open spec fn base64_char(v: int) -> char {
    if v < 26 {
        (65 + v) as char
    } else if v < 52 {
        (97 + (v - 26)) as char
    } else if v < 62 {
        (48 + (v - 52)) as char
    } else if v == 62 {
        '+'
    } else {
        '/'
    }
}

/// The standard, padded base64 text of `bytes`: each group of three bytes
/// becomes four characters, and a last group of one or two bytes becomes
/// two or three characters padded with `=` to four.
pub open spec fn base64_standard(bytes: Seq<u8>) -> Seq<char>
    decreases bytes.len(),
{
    if bytes.len() == 0 {
        Seq::empty()
    } else if bytes.len() == 1 {
        let n = bytes[0] as int;
        seq![base64_char(n / 4), base64_char((n % 4) * 16), '=', '=']
    } else if bytes.len() == 2 {
        let n = bytes[0] as int * 256 + bytes[1] as int;
        seq![base64_char(n / 1024), base64_char((n / 16) % 64), base64_char((n % 16) * 4), '=']
    } else {
        let n = bytes[0] as int * 65536 + bytes[1] as int * 256 + bytes[2] as int;
        seq![base64_char(n / 262144), base64_char((n / 4096) % 64), base64_char((n / 64) % 64), base64_char(n % 64)]
            + base64_standard(bytes.subrange(3, bytes.len() as int))
    }
}

/// Calls `qrcode::QrCode::new` on `data`, then `render::<image::Luma<u8>>()`
/// with the quiet zone on, and `build()`. Trusted: the outcome is the
/// crate's, as named by `qr_image`, and a built image has one byte per pixel.
#[verifier::external_body]
fn qr_render(data: &[u8]) -> (r: Result<(Vec<u8>, u32, u32), String>)
    ensures
        match (r, qr_image(data@)) {
            (Ok(img), Ok(want)) => img.0@ == want.0 && img.1 == want.1 && img.2 == want.2
                && img.0@.len() == img.1 * img.2,
            (Err(m), Err(want)) => m@ == want,
            _ => false,
        },
{
    match qrcode::QrCode::new(data) {
        Err(e) => Err(e.to_string()),
        Ok(code) => {
            let img = code.render::<image::Luma<u8>>().quiet_zone(true).build();
            let (w, h) = (img.width(), img.height());
            Ok((img.into_raw(), w, h))
        },
    }
}

/// Calls `ImageEncoder::write_image` of `image::codecs::png::PngEncoder`
/// with a grey (`L8`) image. The encoder panics unless there is one byte per
/// pixel, which `requires` rules out. Trusted: the outcome is the crate's, as
/// named by `png_l8`.
#[verifier::external_body]
fn png_encode(pixels: &[u8], width: u32, height: u32) -> (r: Result<Vec<u8>, String>)
    requires
        pixels@.len() == width * height,
    ensures
        match (r, png_l8(pixels@, width, height)) {
            (Ok(b), Ok(want)) => b@ == want,
            (Err(m), Err(want)) => m@ == want,
            _ => false,
        },
{
    let mut out: Vec<u8> = Vec::new();
    let encoder = image::codecs::png::PngEncoder::new(&mut out);
    match encoder.write_image(pixels, width, height, image::ExtendedColorType::L8) {
        Err(e) => Err(e.to_string()),
        Ok(()) => Ok(out),
    }
}

/// Calls `Engine::encode` of `base64::engine::general_purpose::STANDARD`.
/// Trusted: the crate writes the standard alphabet with `=` padding, as
/// `base64_standard` states it.
#[verifier::external_body]
fn base64_encode(bytes: &[u8]) -> (s: String)
    ensures
        s@ == base64_standard(bytes@),
{
    base64::engine::general_purpose::STANDARD.encode(bytes)
}

/// The QR code for `data`, where one can be made: a PNG of the code written
/// in base64.
pub open spec fn qr_code_of(data: Seq<char>) -> Option<Seq<char>> {
    match qr_image(vstd::utf8::encode_utf8(data)) {
        Err(_) => None,
        Ok(img) => match png_l8(img.0, img.1, img.2) {
            Err(_) => None,
            Ok(png) => Some(base64_standard(png)),
        },
    }
}

/// The outcome of making the QR code of `data`: the base64 PNG, or the
/// message of the stage that failed.
pub open spec fn qr_outcome(data: Seq<char>) -> Result<Seq<char>, Seq<char>> {
    match qr_image(vstd::utf8::encode_utf8(data)) {
        Err(m) => Err("QR generation failed: "@ + m),
        Ok(img) => match png_l8(img.0, img.1, img.2) {
            Err(m) => Err("PNG encoding failed: "@ + m),
            Ok(png) => Ok(base64_standard(png)),
        },
    }
}

/// Makes the QR code of `data` as a base64 PNG; a failure of the code or the
/// encoder is an internal error whose message names the stage that failed.
pub fn generate_qr_code(data: &str) -> (r: Result<String, AppError>)
    ensures
        match qr_image(vstd::utf8::encode_utf8(data@)) {
            Err(m) => r matches Err(AppError::Internal(x)) && x@ == "QR generation failed: "@ + m,
            Ok(img) => match png_l8(img.0, img.1, img.2) {
                Err(m) => r matches Err(AppError::Internal(x)) && x@ == "PNG encoding failed: "@ + m,
                Ok(png) => r matches Ok(s) && s@ == base64_standard(png),
            },
        },
        r matches Ok(s) ==> qr_code_of(data@) == Some(s@) && qr_outcome(data@) == Ok::<Seq<char>, Seq<char>>(s@),
        r matches Err(AppError::Internal(m)) ==> qr_code_of(data@) is None && qr_outcome(data@) == Err::<Seq<char>, Seq<char>>(m@),
        r is Err ==> r matches Err(AppError::Internal(_)),
{
    match qr_render(data.as_bytes()) {
        Err(m) => Err(AppError::Internal(join2("QR generation failed: ", m.as_str()))),
        Ok((pixels, w, h)) => match png_encode(pixels.as_slice(), w, h) {
            Err(m) => Err(AppError::Internal(join2("PNG encoding failed: ", m.as_str()))),
            Ok(png) => Ok(base64_encode(png.as_slice())),
        },
    }
}

} // verus!
