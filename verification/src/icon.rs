//! The menu-bar icon's pixels, decoded from the PNG that ships with the app.

use vstd::prelude::*;

verus! {

/// What the `png` decoder gives for these bytes: the first frame's pixel
/// bytes (trimmed to the frame's size), its width and its height; `None`
/// where the bytes are no decodable PNG.
pub uninterp spec fn png_first_frame(data: Seq<u8>) -> Option<(Seq<u8>, u32, u32)>;

/// `png::Decoder::read_info`, then `Reader::next_frame` into a buffer of
/// `Reader::output_buffer_size` bytes, cut to `OutputInfo::buffer_size`.
/// Decoding errors give `None`.
#[verifier::external_body]
fn png_decode(data: &[u8]) -> (r: Option<(Vec<u8>, u32, u32)>)
    ensures
        match r {
            Some((px, w, h)) => png_first_frame(data@) == Some((px@, w, h)),
            None => png_first_frame(data@) is None,
        },
{
    let decoder = png::Decoder::new(std::io::Cursor::new(data));
    let mut reader = decoder.read_info().ok()?;
    let mut buf = vec![0u8; reader.output_buffer_size()];
    let info = reader.next_frame(&mut buf).ok()?;
    buf.truncate(info.buffer_size());
    Some((buf, info.width, info.height))
}

/// An image as 8-bit RGBA pixels, row by row.
pub struct RgbaImage {
    pub pixels: Vec<u8>,
    pub width: u32,
    pub height: u32,
}

/// The frame holds exactly four bytes per pixel.
pub open spec fn is_rgba_frame(frame: (Seq<u8>, u32, u32)) -> bool {
    frame.0.len() == frame.1 as nat * frame.2 as nat * 4
}

/// Decodes the icon: `Some` exactly when the PNG decodes to a frame with
/// four bytes per pixel, and then that frame.
pub fn decode_icon(data: &[u8]) -> (r: Option<RgbaImage>)
    ensures
        match png_first_frame(data@) {
            Some(f) => if is_rgba_frame(f) {
                r matches Some(img) && img.pixels@ == f.0 && img.width == f.1 && img.height == f.2
            } else {
                r is None
            },
            None => r is None,
        },
{
    match png_decode(data) {
        None => None,
        Some((pixels, width, height)) => {
            assert(width as u128 * height as u128 <= 0xffff_ffff_ffff_ffff) by (nonlinear_arith)
                requires
                    width <= 0xffff_ffff,
                    height <= 0xffff_ffff,
            ;
            let pixel_count = width as u128 * height as u128;
            if pixels.len() as u128 == pixel_count * 4 {
                Some(RgbaImage { pixels, width, height })
            } else {
                None
            }
        },
    }
}

} // verus!
