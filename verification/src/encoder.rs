use crate::errors::GifError;
use crate::frames::{Canvas, Frame};
use vstd::prelude::*;

verus! {

#[verifier::external_type_specification]
#[verifier::external_body]
pub struct ExEncodingError(gif::EncodingError);

/// An opaque handle on the container encoder writing into an
/// in-memory buffer. Verus refuses to declare the encoder type itself
/// (its writer parameter is bound by a trait it does not know), so
/// this struct hides it; the three names and the wrappers below are
/// all that is assumed about it.
#[verifier::external_body]
pub struct ByteEncoder {
    inner: gif::Encoder<Vec<u8>>,
}

/// The frame records completely written to the container so far,
/// oldest first, each as the pixel payload handed in together with
/// its width, height and delay. A record that an error cut short is
/// not counted.
pub uninterp spec fn enc_frames(e: ByteEncoder) -> Seq<(Seq<u8>, u16, u16, u16)>;

/// The global dimensions the encoder's screen descriptor was written
/// with.
pub uninterp spec fn enc_canvas(e: ByteEncoder) -> (u16, u16);

/// Whether the declaration of endless playback has been written.
pub uninterp spec fn enc_loops(e: ByteEncoder) -> bool;

/// The container bytes as into_inner hands them back once the
/// trailer is appended: a function of the encoder value alone, since
/// everything the encoder wrote is determined by the calls that built
/// it up.
pub uninterp spec fn enc_bytes(e: ByteEncoder) -> Seq<u8>;

/// Relies on gif::Encoder::new over an in-memory buffer, with an
/// empty global palette: it writes the screen descriptor for the
/// given dimensions and nothing else; writing into a Vec<u8> cannot
/// fail, so neither can the call.
#[verifier::external_body]
fn enc_new(width: u16, height: u16) -> (r: Result<ByteEncoder, gif::EncodingError>)
    ensures
        r is Ok,
        r is Ok ==> enc_frames(r->Ok_0) == Seq::<(Seq<u8>, u16, u16, u16)>::empty() && enc_canvas(
            r->Ok_0,
        ) == (width, height) && !enc_loops(r->Ok_0),
{
    match gif::Encoder::new(Vec::new(), width, height, &[]) {
        Ok(inner) => Ok(ByteEncoder { inner }),
        Err(e) => Err(e),
    }
}

/// Relies on gif::Encoder::set_repeat with Repeat::Infinite: it
/// writes the application extension declaring endless playback and
/// touches nothing already written; into a Vec<u8> it cannot fail.
#[verifier::external_body]
fn enc_set_infinite(e: &mut ByteEncoder) -> (r: Result<(), gif::EncodingError>)
    ensures
        r is Ok,
        enc_loops(*final(e)),
        enc_frames(*final(e)) == enc_frames(*old(e)),
        enc_canvas(*final(e)) == enc_canvas(*old(e)),
{
    e.inner.set_repeat(gif::Repeat::Infinite)
}

/// Relies on gif::Frame::from_rgb and gif::Encoder::write_frame:
/// from_rgb turns exactly width * height pixels of three bytes each
/// into one frame (and panics on any other length, hence the
/// requires), and write_frame appends that single record with its
/// delay, touching neither the screen descriptor nor the playback
/// declaration. On an error no complete record was added.
#[verifier::external_body]
fn enc_write_rgb(
    e: &mut ByteEncoder,
    width: u16,
    height: u16,
    pixels: &Vec<u8>,
    delay: u16,
) -> (r: Result<(), gif::EncodingError>)
    requires
        pixels@.len() == 3 * width * height,
    ensures
        enc_canvas(*final(e)) == enc_canvas(*old(e)),
        enc_loops(*final(e)) == enc_loops(*old(e)),
        r is Ok ==> enc_frames(*final(e)) == enc_frames(*old(e)).push(
            (pixels@, width, height, delay),
        ),
        r is Err ==> enc_frames(*final(e)) == enc_frames(*old(e)),
{
    let mut frame = gif::Frame::from_rgb(width, height, pixels.as_slice());
    frame.delay = delay;
    e.inner.write_frame(&frame)
}

/// Relies on gif::Encoder::into_inner: it writes the trailer that
/// closes the container structure and hands the buffer back; into a
/// Vec<u8> the write cannot fail, and the writer is present until
/// this very call consumes it.
#[verifier::external_body]
fn enc_finish(e: ByteEncoder) -> (r: Result<Vec<u8>, gif::EncodingError>)
    ensures
        r is Ok,
        r is Ok ==> r->Ok_0@ == enc_bytes(e),
{
    e.inner.into_inner()
}

/// An open encoding session: the container's global structure is
/// written, frames are appended strictly in call order, one at a
/// time, and closing the session yields the container bytes.
///
/// Lifecycle: opened on a fixed canvas with playback declared
/// infinite before any frame; consumed by every step, so no frame can
/// be appended after a failure or after the close.
pub struct EncodingSession {
    enc: ByteEncoder,
    width: u16,
    height: u16,
}

impl EncodingSession {
    /// The canvas the session was opened with.
    pub closed spec fn canvas(self) -> Canvas {
        Canvas { width: self.width, height: self.height }
    }

    /// The frame records written so far, oldest first: payload bytes,
    /// width, height, delay.
    pub closed spec fn frames(self) -> Seq<(Seq<u8>, u16, u16, u16)> {
        enc_frames(self.enc)
    }

    /// The container declares endless playback.
    pub closed spec fn loops_forever(self) -> bool {
        enc_loops(self.enc)
    }

    /// The container bytes this session would yield if closed now:
    /// what `finish` hands back.
    pub closed spec fn bytes(self) -> Seq<u8> {
        enc_bytes(self.enc)
    }

    /// Session invariant: the underlying encoder carries this very
    /// canvas, playback was declared infinite before any frame, the
    /// canvas is not degenerate, and every record written fits it.
    pub closed spec fn wf(self) -> bool {
        &&& enc_canvas(self.enc) == (self.width, self.height)
        &&& enc_loops(self.enc)
        &&& self.canvas().wf()
        &&& forall|i: int|
            0 <= i < self.frames().len() ==> (#[trigger] self.frames()[i]).1 == self.width
                && self.frames()[i].2 == self.height
    }

    /// Opens a session: writes the global structure for this canvas
    /// and declares infinite playback, once, before any frame.
    pub fn open(canvas: Canvas) -> (r: Result<EncodingSession, GifError>)
        requires
            canvas.wf(),
        ensures
            r is Ok,
            r is Ok ==> {
                let s = r->Ok_0;
                &&& s.wf()
                &&& s.canvas() == canvas
                &&& s.loops_forever()
                &&& s.frames() == Seq::<(Seq<u8>, u16, u16, u16)>::empty()
            },
    {
        match enc_new(canvas.width, canvas.height) {
            Result::Err(_) => Err(GifError::EncoderInit),
            Result::Ok(mut enc) => {
                match enc_set_infinite(&mut enc) {
                    Result::Err(_) => Err(GifError::EncoderInit),
                    Result::Ok(_) => Ok(
                        EncodingSession { enc, width: canvas.width, height: canvas.height },
                    ),
                }
            },
        }
    }

    /// Appends one frame record with its delay. The frame must fit
    /// the session's canvas; records are written strictly in call
    /// order and never buffered. A write failure is fatal: the
    /// session is consumed either way, no retry is possible, and an
    /// error leaves no complete record behind.
    pub fn append(self, frame: &Frame) -> (r: Result<EncodingSession, GifError>)
        requires
            self.wf(),
            frame.wf(),
            frame.fits(self.canvas()),
        ensures
            r is Err ==> r->Err_0 == GifError::FrameWrite,
            r is Ok ==> {
                let s = r->Ok_0;
                &&& s.wf()
                &&& s.canvas() == self.canvas()
                &&& s.loops_forever()
                &&& s.frames() == self.frames().push(
                    (frame.pixels@, frame.width, frame.height, frame.delay),
                )
            },
    {
        let ghost orig = self;
        let EncodingSession { mut enc, width, height } = self;
        match enc_write_rgb(&mut enc, width, height, &frame.pixels, frame.delay) {
            Result::Err(_) => Err(GifError::FrameWrite),
            Result::Ok(_) => {
                let s = EncodingSession { enc, width, height };
                proof {
                    assert(s.frames() == orig.frames().push(
                        (frame.pixels@, frame.width, frame.height, frame.delay),
                    ));
                    assert forall|i: int| 0 <= i < s.frames().len() implies (
                    #[trigger] s.frames()[i]).1 == width && s.frames()[i].2 == height by {
                        if i < orig.frames().len() {
                            assert(s.frames()[i] == orig.frames()[i]);
                            assert(orig.frames()[i].1 == width && orig.frames()[i].2 == height);
                        } else {
                            assert(s.frames()[i] == (
                                frame.pixels@,
                                frame.width,
                                frame.height,
                                frame.delay,
                            ));
                        }
                    }
                }
                Ok(s)
            },
        }
    }

    /// Closes the container structure and hands its bytes back. The
    /// session ends here on every path.
    pub fn finish(self) -> (r: Result<Vec<u8>, GifError>)
        requires
            self.wf(),
        ensures
            r is Ok,
            r is Ok ==> r->Ok_0@ == self.bytes(),
    {
        match enc_finish(self.enc) {
            Result::Err(_) => Err(GifError::FrameWrite),
            Result::Ok(bytes) => Ok(bytes),
        }
    }
}

/// Law: a well-formed session never holds a frame record whose
/// dimensions differ from its canvas — normalization and appending
/// cannot emit a mismatched frame.
pub proof fn lemma_frames_fit_canvas(s: EncodingSession)
    requires
        s.wf(),
    ensures
        forall|i: int|
            0 <= i < s.frames().len() ==> (#[trigger] s.frames()[i]).1 == s.canvas().width
                && s.frames()[i].2 == s.canvas().height,
{
}

/// Law: a well-formed session has declared endless playback, whatever
/// the number of frames — the declaration is written at open, before
/// the first record.
pub proof fn lemma_loop_declared(s: EncodingSession)
    requires
        s.wf(),
    ensures
        s.loops_forever(),
{
}

} // verus!
