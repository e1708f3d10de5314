use crate::codec::{decoded_dims, resampled_rgb};
use crate::encoder::EncodingSession;
use crate::errors::GifError;
use crate::frames::Canvas;
use crate::normalize::{normalize_frame, planned_canvas, resolve_canvas};
use vstd::prelude::*;

verus! {

/// The byte sequences of a list of byte buffers.
pub open spec fn views_of(images: Seq<Vec<u8>>) -> Seq<Seq<u8>> {
    images.map_values(|v: Vec<u8>| v@)
}

/// The one frame record the pipeline owes for given source bytes on a
/// given canvas: the nearest-neighbor resample of the bytes to the
/// canvas, at the canvas dimensions, with the uniform delay.
pub open spec fn frame_record(bytes: Seq<u8>, canvas: Canvas, delay: u16) -> (
    Seq<u8>,
    u16,
    u16,
    u16,
) {
    (resampled_rgb(bytes, canvas.width as u32, canvas.height as u32), canvas.width, canvas.height, delay)
}

/// A session describes a complete run over these ordered sources: its
/// canvas is the one resolved from the first of them, playback is
/// declared endless, and it holds exactly one record per source, in
/// source order, each the normalization of its source to that canvas
/// with the one configured delay.
pub open spec fn session_models(s: EncodingSession, images: Seq<Seq<u8>>, delay: u16) -> bool {
    &&& images.len() > 0
    &&& planned_canvas(images[0]) == Ok::<Canvas, GifError>(s.canvas())
    &&& s.wf()
    &&& s.loops_forever()
    &&& s.frames().len() == images.len()
    &&& forall|i: int|
        0 <= i < images.len() ==> #[trigger] s.frames()[i] == frame_record(
            images[i],
            s.canvas(),
            delay,
        )
}

/// Runs the whole pipeline over the ordered sources' bytes, stopping
/// at the first failure: resolves the canvas from the first image,
/// opens the session, and appends one normalized frame per source, in
/// order. Returns the still-open session so that what it holds stays
/// visible to the contract.
pub fn build_session(images: &Vec<Vec<u8>>, delay: u16) -> (r: Result<EncodingSession, GifError>)
    ensures
        r is Ok ==> session_models(r->Ok_0, views_of(images@), delay),
        r is Ok ==> forall|i: int|
            0 <= i < images@.len() ==> decoded_dims(#[trigger] images@[i]@) is Some,
        images@.len() == 0 ==> r is Err && r->Err_0 == GifError::NoInput,
        r is Err ==> (r->Err_0 == GifError::NoInput <==> images@.len() == 0),
        images@.len() > 0 && planned_canvas(images@[0]@) is Err ==> r is Err && r->Err_0
            == planned_canvas(images@[0]@)->Err_0,
        r is Err && r->Err_0 == GifError::ImageDecode ==> exists|i: int|
            0 <= i < images@.len() && decoded_dims(#[trigger] images@[i]@) is None,
        r is Err && r->Err_0 == GifError::Resize ==> planned_canvas(images@[0]@) == Err::<
            Canvas,
            GifError,
        >(GifError::Resize),
        r is Err ==> r->Err_0 == GifError::NoInput || r->Err_0 == GifError::ImageDecode
            || r->Err_0 == GifError::Resize || r->Err_0 == GifError::FrameWrite,
{
    let ghost iv = views_of(images@);
    if images.len() == 0 {
        return Err(GifError::NoInput);
    }
    let canvas = match resolve_canvas(&images[0]) {
        Result::Err(e) => {
            return Err(e);
        },
        Result::Ok(c) => c,
    };
    let mut session = match EncodingSession::open(canvas) {
        Result::Err(e) => {
            return Err(e);
        },
        Result::Ok(s) => s,
    };
    let mut i: usize = 0;
    while i < images.len()
        invariant
            iv == views_of(images@),
            iv.len() == images@.len(),
            i <= images@.len(),
            planned_canvas(iv[0]) == Ok::<Canvas, GifError>(canvas),
            canvas.wf(),
            session.wf(),
            session.canvas() == canvas,
            session.loops_forever(),
            session.frames().len() == i,
            forall|j: int|
                0 <= j < i ==> #[trigger] session.frames()[j] == frame_record(
                    iv[j],
                    canvas,
                    delay,
                ),
            forall|j: int| 0 <= j < i ==> decoded_dims(#[trigger] iv[j]) is Some,
        decreases images@.len() - i,
    {
        proof {
            assert(iv[i as int] == images@[i as int]@);
        }
        let frame = match normalize_frame(&images[i], canvas, delay) {
            Result::Err(e) => {
                proof {
                    assert(decoded_dims(iv[i as int]) is None);
                }
                return Err(e);
            },
            Result::Ok(f) => f,
        };
        session = match session.append(&frame) {
            Result::Err(e) => {
                return Err(e);
            },
            Result::Ok(s) => s,
        };
        i = i + 1;
    }
    proof {
        assert forall|j: int| 0 <= j < images@.len() implies decoded_dims(
            #[trigger] images@[j]@,
        ) is Some by {
            assert(iv[j] == images@[j]@);
        }
    }
    Ok(session)
}

/// Law: the pipeline's outcome is a function of its inputs alone.
/// Two runs over identical source bytes and the same delay describe
/// identical containers: the same canvas, the same number of frame
/// records with the same payload bytes and delays, and both declare
/// endless playback.
pub proof fn lemma_idempotent(
    s1: EncodingSession,
    s2: EncodingSession,
    images: Seq<Seq<u8>>,
    delay: u16,
)
    requires
        session_models(s1, images, delay),
        session_models(s2, images, delay),
    ensures
        s1.canvas() == s2.canvas(),
        s1.frames() == s2.frames(),
        s1.loops_forever() && s2.loops_forever(),
{
    assert(Ok::<Canvas, GifError>(s1.canvas()) == Ok::<Canvas, GifError>(s2.canvas()));
    assert(s1.frames() =~= s2.frames());
}

/// The whole run as one call: builds the session over the ordered
/// sources and closes the container. The bytes handed back are the
/// serialization of a session that models the run — canvas from the
/// first source, one record per source with the uniform delay,
/// endless playback declared.
pub fn encode_all(images: &Vec<Vec<u8>>, delay: u16) -> (r: Result<Vec<u8>, GifError>)
    ensures
        r is Ok ==> exists|s: EncodingSession|
            #[trigger] session_models(s, views_of(images@), delay) && r->Ok_0@ == s.bytes(),
        r is Ok ==> planned_canvas(images@[0]@) is Ok && (forall|i: int|
            0 <= i < images@.len() ==> decoded_dims(#[trigger] images@[i]@) is Some),
        images@.len() == 0 ==> r is Err && r->Err_0 == GifError::NoInput,
        r is Err ==> (r->Err_0 == GifError::NoInput <==> images@.len() == 0),
        images@.len() > 0 && planned_canvas(images@[0]@) is Err ==> r is Err && r->Err_0
            == planned_canvas(images@[0]@)->Err_0,
        r is Err && r->Err_0 == GifError::ImageDecode ==> exists|i: int|
            0 <= i < images@.len() && decoded_dims(#[trigger] images@[i]@) is None,
        r is Err ==> r->Err_0 == GifError::NoInput || r->Err_0 == GifError::ImageDecode
            || r->Err_0 == GifError::Resize || r->Err_0 == GifError::FrameWrite,
{
    match build_session(images, delay) {
        Result::Err(e) => Err(e),
        Result::Ok(session) => {
            let ghost built = session;
            let r = session.finish();
            proof {
                if r is Ok {
                    assert(session_models(built, views_of(images@), delay) && r->Ok_0@
                        == built.bytes());
                }
            }
            r
        },
    }
}

} // verus!
