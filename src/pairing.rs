use vstd::prelude::*;

use base64::Engine;
use image::ImageEncoder;
use vstd::string::StringSliceAdditionalSpecFns;

use crate::error::BridgeError;
use crate::text::{decimal, digits_value, is_digit, lemma_decimal_digits, push_decimal};

verus! {

#[verifier::external_type_specification]
#[verifier::external_body]
pub struct ExQrError(qrcode::types::QrError);

#[verifier::external_type_specification]
#[verifier::external_body]
pub struct ExImageError(image::ImageError);

/// The least width and height, in pixels, of a pairing code's raster.
pub const PAIRING_CODE_MIN_SIZE: u32 = 300;

/// The dotted-quad notation of an IPv4 address.
pub open spec fn ipv4_text(octets: Seq<u8>) -> Seq<char> {
    decimal(octets[0] as nat) + "."@ + decimal(octets[1] as nat) + "."@ + decimal(
        octets[2] as nat,
    ) + "."@ + decimal(octets[3] as nat)
}

/// One field of a dotted quad: one to three digits, no leading zero, a
/// value of at most 255.
pub open spec fn is_octet_text(s: Seq<char>) -> bool {
    &&& 1 <= s.len() <= 3
    &&& forall|i: int| 0 <= i < s.len() ==> is_digit(#[trigger] s[i])
    &&& s.len() > 1 ==> s[0] != '0'
    &&& digits_value(s) <= 255
}

/// A syntactically valid IPv4 address: four fields joined by dots.
pub open spec fn is_ipv4_text(s: Seq<char>) -> bool {
    exists|a: Seq<char>, b: Seq<char>, c: Seq<char>, d: Seq<char>|
        is_octet_text(a) && is_octet_text(b) && is_octet_text(c) && is_octet_text(d) && s == a
            + "."@ + b + "."@ + c + "."@ + d
}

proof fn lemma_octet_text(v: u8)
    ensures
        is_octet_text(decimal(v as nat)),
{
    lemma_decimal_digits(v as nat);
}

/// Every address that the library writes for a local IPv4 address is a
/// syntactically valid dotted quad.
pub proof fn lemma_ipv4_text_is_valid(octets: Seq<u8>)
    requires
        octets.len() == 4,
    ensures
        is_ipv4_text(ipv4_text(octets)),
{
    lemma_octet_text(octets[0]);
    lemma_octet_text(octets[1]);
    lemma_octet_text(octets[2]);
    lemma_octet_text(octets[3]);
    let a = decimal(octets[0] as nat);
    let b = decimal(octets[1] as nat);
    let c = decimal(octets[2] as nat);
    let d = decimal(octets[3] as nat);
    assert(ipv4_text(octets) == a + "."@ + b + "."@ + c + "."@ + d);
}

/// Writes an IPv4 address in dotted-quad notation.
pub fn ipv4_address_text(octets: &[u8; 4]) -> (r: String)
    ensures
        r@ == ipv4_text(octets@),
{
    let mut s = String::new();
    push_decimal(&mut s, octets[0] as u32);
    s.append(".");
    push_decimal(&mut s, octets[1] as u32);
    s.append(".");
    push_decimal(&mut s, octets[2] as u32);
    s.append(".");
    push_decimal(&mut s, octets[3] as u32);
    s
}

/// The host part of the pairing address: the local IPv4 address where one
/// was resolved, else `localhost`.
pub open spec fn pairing_host(local_ip: Option<Seq<u8>>) -> Seq<char> {
    match local_ip {
        Some(octets) => ipv4_text(octets),
        None => "localhost"@,
    }
}

/// The address that a second device opens to reach the web interface.
pub open spec fn pairing_url(local_ip: Option<Seq<u8>>, port: u16) -> Seq<char> {
    "http://"@ + pairing_host(local_ip) + ":"@ + decimal(port as nat)
}

/// Builds the pairing address from the resolved local address, if any, and
/// the web interface's port. It is computed anew for each request.
pub fn pairing_address(local_ip: Option<[u8; 4]>, port: u16) -> (r: String)
    ensures
        r@ == pairing_url(
            match local_ip {
                Some(o) => Some(o@),
                None => None,
            },
            port,
        ),
{
    let mut s = String::from_str("http://");
    match local_ip {
        Some(octets) => {
            let host = ipv4_address_text(&octets);
            s.append(host.as_str());
        },
        None => {
            s.append("localhost");
        },
    }
    s.append(":");
    push_decimal(&mut s, port as u32);
    s
}

/// The character of the standard base64 alphabet for a value under 64.
pub open spec fn base64_digit(v: int) -> char {
    "ABCDEFGHIJKLMNOPQRSTUVWXYZabcdefghijklmnopqrstuvwxyz0123456789+/"@[v]
}

/// Standard base64: each group of three bytes becomes four characters of
/// six bits each; a last group of one or two bytes is padded with `=`.
pub open spec fn base64_of(b: Seq<u8>) -> Seq<char>
    decreases b.len(),
{
    if b.len() == 0 {
        Seq::empty()
    } else {
        let b0 = b[0] as int;
        let b1 = if b.len() > 1 { b[1] as int } else { 0 };
        let b2 = if b.len() > 2 { b[2] as int } else { 0 };
        let first = base64_digit(b0 / 4);
        let second = base64_digit((b0 % 4) * 16 + b1 / 16);
        if b.len() == 1 {
            seq![first, second, '=', '=']
        } else if b.len() == 2 {
            seq![first, second, base64_digit((b1 % 16) * 4), '=']
        } else {
            seq![first, second, base64_digit((b1 % 16) * 4 + b2 / 64), base64_digit(b2 % 64)]
                + base64_of(b.subrange(3, b.len() as int))
        }
    }
}

/// Whether the base64 text of `len` bytes, four characters for each group
/// of three or fewer, has a length that fits in `usize`.
pub open spec fn base64_fits(len: nat) -> bool {
    (len + 2) / 3 <= usize::MAX / 4
}

/// Relies on base64's `STANDARD` engine (`Engine::encode`): the standard
/// alphabet with `=` padding. It panics where the output length overflows
/// `usize`.
#[verifier::external_body]
fn base64_standard(bytes: &[u8]) -> (r: String)
    requires
        base64_fits(bytes@.len()),
    ensures
        r@ == base64_of(bytes@),
{
    base64::engine::general_purpose::STANDARD.encode(bytes)
}

/// A byte that percent-encoding leaves as it is: an ASCII letter or digit,
/// or one of `-`, `.`, `_`, `~`.
pub open spec fn is_unreserved(b: u8) -> bool {
    (48 <= b <= 57) || (65 <= b <= 90) || (97 <= b <= 122) || b == 45 || b == 46 || b == 95 || b
        == 126
}

/// The upper-case hexadecimal digit of a value under 16.
pub open spec fn hex_digit_upper(v: int) -> char {
    "0123456789ABCDEF"@[v]
}

/// Percent-encoding of bytes: an unreserved byte stands for itself, every
/// other byte becomes `%` and two upper-case hexadecimal digits.
pub open spec fn percent_encoded(b: Seq<u8>) -> Seq<char>
    decreases b.len(),
{
    if b.len() == 0 {
        Seq::empty()
    } else {
        (if is_unreserved(b[0]) {
            seq![b[0] as char]
        } else {
            seq!['%', hex_digit_upper(b[0] as int / 16), hex_digit_upper(b[0] as int % 16)]
        }) + percent_encoded(b.drop_first())
    }
}

/// Relies on urlencoding::encode: every byte of the UTF-8 text is
/// percent-encoded but ASCII letters, digits and `-`, `_`, `.`, `~`, with
/// upper-case hexadecimal digits.
#[verifier::external_body]
fn url_encode(s: &str) -> (r: String)
    ensures
        r@ == percent_encoded(s.spec_bytes()),
{
    urlencoding::encode(s).into_owned()
}

/// The grayscale raster of the QR code for the bytes (width, height, and one
/// byte per pixel row by row), rendered at least as wide and as high as
/// asked; `None` where no QR code holds the bytes.
pub uninterp spec fn qr_raster_of(data: Seq<u8>, min_width: u32, min_height: u32) -> Option<
    (u32, u32, Seq<u8>),
>;

/// Relies on qrcode's `QrCode::new` (error-correction level M, the smallest
/// version that holds the bytes; it fails when none does) and its renderer
/// (`render::<Luma<u8>>`, `min_dimensions`, `build`), then image's
/// `ImageBuffer::into_raw`. The raster depends on its arguments alone, and
/// it is at least as wide and as high as asked, since each module gets the
/// least whole size that reaches the minimum.
#[verifier::external_body]
fn qr_raster(data: &[u8], min_width: u32, min_height: u32) -> (r: Result<
    (u32, u32, Vec<u8>),
    qrcode::types::QrError,
>)
    requires
        min_width <= 4096,
        min_height <= 4096,
    ensures
        match r {
            Ok(t) => {
                &&& qr_raster_of(data@, min_width, min_height) == Some((t.0, t.1, t.2@))
                &&& t.0 >= min_width
                &&& t.1 >= min_height
                &&& t.2@.len() == t.0 as nat * t.1 as nat
            },
            Err(_) => qr_raster_of(data@, min_width, min_height) is None,
        },
{
    match qrcode::QrCode::new(data) {
        Ok(code) => {
            let raster = code.render::<image::Luma<u8>>().min_dimensions(min_width, min_height).build();
            Ok((raster.width(), raster.height(), raster.into_raw()))
        },
        Err(e) => Err(e),
    }
}

/// The PNG file that encodes a grayscale raster, or `None` where the
/// encoder refuses it.
pub uninterp spec fn png_gray_of(pixels: Seq<u8>, width: u32, height: u32) -> Option<Seq<u8>>;

/// Relies on image's `PngEncoder::write_image` with `ExtendedColorType::L8`
/// into a byte vector: its outcome depends on its arguments alone. It
/// panics unless the buffer holds width × height bytes. Writing to a vector
/// cannot fail, and the PNG header of an 8-bit grayscale raster is refused
/// only for a zero width or height.
#[verifier::external_body]
fn png_encode_gray(pixels: &[u8], width: u32, height: u32) -> (r: Result<Vec<u8>, image::ImageError>)
    requires
        pixels@.len() == width as nat * height as nat,
    ensures
        match r {
            Ok(png) => png_gray_of(pixels@, width, height) == Some(png@),
            Err(_) => png_gray_of(pixels@, width, height) is None,
        },
        width > 0 && height > 0 ==> r is Ok,
{
    let mut png = Vec::new();
    let written = image::codecs::png::PngEncoder::new(&mut png).write_image(
        pixels,
        width,
        height,
        image::ExtendedColorType::L8,
    );
    written.map(|_| png)
}

/// Encodes bytes in standard base64.
pub fn base64_text(bytes: &[u8]) -> (r: String)
    requires
        base64_fits(bytes@.len()),
    ensures
        r@ == base64_of(bytes@),
{
    base64_standard(bytes)
}

/// A `data:` address that carries an HTML document.
pub open spec fn html_data_url(html: Seq<u8>) -> Seq<char> {
    "data:text/html,"@ + percent_encoded(html)
}

/// Builds a `data:` address that carries the given HTML document, for the
/// window that presents a pairing code.
pub fn html_data_address(html: &str) -> (r: String)
    ensures
        r@ == html_data_url(html.spec_bytes()),
{
    let encoded = url_encode(html);
    let mut s = String::from_str("data:text/html,");
    s.append(encoded.as_str());
    s
}

/// The base64 text of the PNG file that encodes a grayscale raster, where
/// the encoder accepts the raster and the text's length fits in `usize`.
pub open spec fn raster_png_base64(pixels: Seq<u8>, width: u32, height: u32) -> Option<Seq<char>> {
    match png_gray_of(pixels, width, height) {
        Some(png) => if base64_fits(png.len()) {
            Some(base64_of(png))
        } else {
            None
        },
        None => None,
    }
}

/// Serializes a grayscale raster (one byte per pixel, row by row) as a PNG
/// file and returns that file in base64.
pub fn encode_raster_base64(pixels: &[u8], width: u32, height: u32) -> (r: Result<
    String,
    BridgeError,
>)
    requires
        pixels@.len() == width as nat * height as nat,
    ensures
        match raster_png_base64(pixels@, width, height) {
            Some(text) => r is Ok && r->Ok_0@ == text,
            None => r is Err && r->Err_0 is EncodingFailed,
        },
        width > 0 && height > 0 ==> png_gray_of(pixels@, width, height) is Some,
{
    match png_encode_gray(pixels, width, height) {
        Ok(png) => {
            let len = png.len();
            let groups: usize = len / 3 + if len % 3 == 0 {
                0
            } else {
                1
            };
            assert(groups == (len as nat + 2) / 3);
            if groups > usize::MAX / 4 {
                return Err(BridgeError::EncodingFailed(String::from_str("PNG too large for base64")));
            }
            Ok(base64_standard(png.as_slice()))
        },
        Err(e) => {
            let mut message = String::from_str("Failed to encode PNG: ");
            message.append(e.to_string().as_str());
            Err(BridgeError::EncodingFailed(message))
        },
    }
}

/// The PNG file of the pairing code for the bytes: their QR code rendered
/// in grayscale at least `PAIRING_CODE_MIN_SIZE` pixels wide and high.
pub open spec fn pairing_png_of(data: Seq<u8>) -> Option<Seq<u8>> {
    match qr_raster_of(data, PAIRING_CODE_MIN_SIZE, PAIRING_CODE_MIN_SIZE) {
        Some((width, height, pixels)) => png_gray_of(pixels, width, height),
        None => None,
    }
}

/// The pairing code for the bytes: the base64 text of their PNG file.
pub open spec fn pairing_code_of(data: Seq<u8>) -> Option<Seq<char>> {
    match qr_raster_of(data, PAIRING_CODE_MIN_SIZE, PAIRING_CODE_MIN_SIZE) {
        Some((width, height, pixels)) => raster_png_base64(pixels, width, height),
        None => None,
    }
}

/// Encodes text as a QR code rendered in grayscale, at least
/// `PAIRING_CODE_MIN_SIZE` pixels wide and high, serialized as PNG and
/// returned in base64. Text that no QR code holds fails with
/// `EncodingFailed`; text that one holds always has a PNG file, and fails
/// only where that file's base64 length would not fit in `usize`.
pub fn generate_qr_code_base64(data: &str) -> (r: Result<String, BridgeError>)
    ensures
        match pairing_code_of(data.spec_bytes()) {
            Some(text) => r is Ok && r->Ok_0@ == text,
            None => r is Err && r->Err_0 is EncodingFailed,
        },
        match qr_raster_of(data.spec_bytes(), PAIRING_CODE_MIN_SIZE, PAIRING_CODE_MIN_SIZE) {
            Some((width, height, pixels)) => {
                &&& width >= PAIRING_CODE_MIN_SIZE
                &&& height >= PAIRING_CODE_MIN_SIZE
                &&& pixels.len() == width as nat * height as nat
                &&& pairing_png_of(data.spec_bytes()) is Some
            },
            None => true,
        },
{
    match qr_raster(data.as_bytes(), PAIRING_CODE_MIN_SIZE, PAIRING_CODE_MIN_SIZE) {
        Ok((width, height, pixels)) => encode_raster_base64(pixels.as_slice(), width, height),
        Err(e) => {
            let mut message = String::from_str("Failed to create QR code: ");
            message.append(e.to_string().as_str());
            Err(BridgeError::EncodingFailed(message))
        },
    }
}

} // verus!
