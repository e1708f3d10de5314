use vstd::prelude::*;

verus! {

#[verifier::external_type_specification]
#[verifier::external_body]
pub struct ExImageError(image::ImageError);

/// What the image codec reads out of a byte stream: `Some` with the
/// decoded width and height when the bytes hold a decodable image,
/// `None` when they do not. Decoding guesses the format from the bytes
/// alone and is a pure function of them, so its outcome has a name
/// here, and the wrappers below speak of it.
pub uninterp spec fn decoded_dims(bytes: Seq<u8>) -> Option<(u32, u32)>;

/// The pixel payload after the whole normalization chain on decodable
/// bytes: decode, stretch or squash to `w` by `h` picking the nearest
/// source pixel with no blending, and lay the result out row-major as
/// RGB, one byte per channel. A pure function of its arguments; beyond
/// that only its length is stated, by the wrapper below.
pub uninterp spec fn resampled_rgb(bytes: Seq<u8>, w: u32, h: u32) -> Seq<u8>;

/// Relies on image::load_from_memory together with
/// DynamicImage::width and DynamicImage::height: decoding a byte
/// buffer is deterministic, succeeds exactly when the bytes hold a
/// supported image, and the two methods report its dimensions.
#[verifier::external_body]
pub(crate) fn read_dimensions(bytes: &Vec<u8>) -> (r: Result<(u32, u32), image::ImageError>)
    ensures
        r is Ok <==> decoded_dims(bytes@) is Some,
        r is Ok ==> decoded_dims(bytes@) == Some(r->Ok_0),
{
    let img = image::load_from_memory(bytes.as_slice())?;
    Ok((img.width(), img.height()))
}

/// Relies on image::load_from_memory, DynamicImage::resize_exact with
/// the nearest-neighbor filter, and DynamicImage::to_rgb8: the chain
/// is a deterministic function of the input bytes and the target
/// size, succeeds exactly when the bytes decode, and the resized
/// RGB buffer holds exactly `w * h` pixels of three bytes each.
#[verifier::external_body]
pub(crate) fn decode_resize_rgb(bytes: &Vec<u8>, w: u32, h: u32) -> (r: Result<
    Vec<u8>,
    image::ImageError,
>)
    requires
        0 < w <= 0xFFFF,
        0 < h <= 0xFFFF,
    ensures
        r is Ok <==> decoded_dims(bytes@) is Some,
        r is Ok ==> r->Ok_0@ == resampled_rgb(bytes@, w, h) && r->Ok_0@.len() == 3 * w * h,
{
    let img = image::load_from_memory(bytes.as_slice())?;
    let resized = img.resize_exact(w, h, image::imageops::FilterType::Nearest);
    Ok(resized.to_rgb8().into_raw())
}

} // verus!
