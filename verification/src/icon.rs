use vstd::prelude::*;

verus! {

/// What the `image` crate decodes from these bytes read as PNG: the width, the height
/// and the pixel bytes (`DynamicImage::as_bytes`), or nothing when it refuses them.
pub uninterp spec fn decoded_png(bytes: Seq<u8>) -> Option<(u32, u32, Seq<u8>)>;

/// Decodes PNG bytes with `image::load_from_memory_with_format(bytes, ImageFormat::Png)`
/// (the same `ImageReader::decode` path, with its default limits, that opening a ".png"
/// file takes), then reads `width`, `height` and `as_bytes` of the image. Claimed: the
/// result is the name `decoded_png` of the bytes, and `None` exactly when the crate
/// refuses them.
#[verifier::external_body]
fn decode_png(bytes: &[u8]) -> (r: Option<(u32, u32, Vec<u8>)>)
    ensures
        r is Some <==> decoded_png(bytes@) is Some,
        r matches Some(t) ==> decoded_png(bytes@) == Some((t.0, t.1, t.2@)),
{
    match image::load_from_memory_with_format(bytes, image::ImageFormat::Png) {
        Ok(img) => Some((img.width(), img.height(), img.as_bytes().to_vec())),
        Err(_) => None,
    }
}

/// The window icon: its size and its pixel bytes.
#[derive(Debug, Clone)]
pub struct IconImage {
    pub width: u32,
    pub height: u32,
    pub pixels: Vec<u8>,
}

/// The window icon held in the bytes of the PNG file "icon.png", or `None` when they
/// are no image.
pub fn load_icon(bytes: &[u8]) -> (r: Option<IconImage>)
    ensures
        r is Some <==> decoded_png(bytes@) is Some,
        r matches Some(i) ==> decoded_png(bytes@) == Some((i.width, i.height, i.pixels@)),
{
    match decode_png(bytes) {
        Some((width, height, pixels)) => Some(IconImage { width, height, pixels }),
        None => None,
    }
}

} // verus!
