use crate::codec::{decode_resize_rgb, decoded_dims, read_dimensions, resampled_rgb};
use crate::errors::GifError;
use crate::frames::{Canvas, Frame};
use vstd::prelude::*;

verus! {

/// What the canvas resolver owes on given first-image bytes: the
/// decoded dimensions, rejected when the bytes do not decode or when
/// either axis is zero or beyond the container's 16-bit size fields.
pub open spec fn planned_canvas(first: Seq<u8>) -> Result<Canvas, GifError> {
    match decoded_dims(first) {
        Option::None => Err(GifError::ImageDecode),
        Option::Some(d) => if 1 <= d.0 <= 0xFFFF && 1 <= d.1 <= 0xFFFF {
            Ok(Canvas { width: d.0 as u16, height: d.1 as u16 })
        } else {
            Err(GifError::Resize)
        },
    }
}

/// The canvas resolver: the decoded dimensions of the first ordered
/// source become the authoritative output size for the whole run. It
/// rejects bytes that do not decode, and dimensions that are zero or
/// beyond the container's 16-bit size fields — before any frame work
/// begins.
pub fn resolve_canvas(bytes: &Vec<u8>) -> (r: Result<Canvas, GifError>)
    ensures
        r == planned_canvas(bytes@),
        r is Ok ==> r->Ok_0.wf() && decoded_dims(bytes@) == Some(
            ((r->Ok_0.width as u32, r->Ok_0.height as u32)),
        ),
{
    match read_dimensions(bytes) {
        Result::Err(_) => Err(GifError::ImageDecode),
        Result::Ok((w, h)) => {
            if w == 0 || h == 0 || w > 0xFFFF || h > 0xFFFF {
                Err(GifError::Resize)
            } else {
                Ok(Canvas { width: w as u16, height: h as u16 })
            }
        },
    }
}

/// The frame normalizer: decodes one source image and stretches or
/// squashes it to the canvas by nearest-neighbor sampling — no
/// interpolation, no aspect-ratio preservation — then lays it out as
/// 8-bit-per-channel RGB. The frame fits the canvas exactly and
/// carries the configured delay.
pub fn normalize_frame(bytes: &Vec<u8>, canvas: Canvas, delay: u16) -> (r: Result<
    Frame,
    GifError,
>)
    requires
        canvas.wf(),
    ensures
        r is Ok <==> decoded_dims(bytes@) is Some,
        r is Err ==> r->Err_0 == GifError::ImageDecode,
        r is Ok ==> {
            let f = r->Ok_0;
            &&& f.wf()
            &&& f.fits(canvas)
            &&& f.delay == delay
            &&& f.pixels@ == resampled_rgb(bytes@, canvas.width as u32, canvas.height as u32)
        },
{
    let w: u32 = canvas.width as u32;
    let h: u32 = canvas.height as u32;
    match decode_resize_rgb(bytes, w, h) {
        Result::Err(_) => Err(GifError::ImageDecode),
        Result::Ok(pixels) => Ok(
            Frame { width: canvas.width, height: canvas.height, delay, pixels },
        ),
    }
}

} // verus!
