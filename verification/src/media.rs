//! Image transcoding and probing, behind trusted wrappers over the image
//! codec crate.

use vstd::prelude::*;

verus! {

/// The JPEG re-encoding of an image held in `data`: decoding and
/// re-encoding depend on the bytes alone.
pub uninterp spec fn jpeg_render(data: Seq<u8>) -> Seq<u8>;

/// Whether the bytes decode as an image and re-encode as JPEG: a function
/// of the bytes alone.
pub uninterp spec fn jpeg_decodes(data: Seq<u8>) -> bool;

/// Relies on `image::load_from_memory` and `image::DynamicImage::write_to`
/// with the JPEG format: whether the bytes transcode, and what they
/// transcode to, depend on the bytes alone.
#[verifier::external_body]
pub fn png_to_jpeg(data: &[u8]) -> (r: Option<Vec<u8>>)
    ensures
        r is Some <==> jpeg_decodes(data@),
        r matches Some(v) ==> v@ == jpeg_render(data@),
{
    let img = match image::load_from_memory(data) {
        Ok(i) => i,
        Err(_) => return None,
    };
    let mut bytes: Vec<u8> = Vec::new();
    match img.write_to(std::io::Cursor::new(&mut bytes), image::ImageFormat::Jpeg) {
        Ok(_) => Some(bytes),
        Err(_) => None,
    }
}

/// Relies on `image::load_from_memory` and `DynamicImage::width`/`height`:
/// the dimensions of a decodable image, nothing otherwise.  Nothing more is
/// promised of the values.
#[verifier::external_body]
pub fn image_dimensions(data: &[u8]) -> Option<(u32, u32)> {
    match image::load_from_memory(data) {
        Ok(img) => Some((img.width(), img.height())),
        Err(_) => None,
    }
}

} // verus!
