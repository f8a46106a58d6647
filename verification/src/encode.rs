//! The boundary to the GIF bitstream encoder of the `gif` crate.
//!
//! The encoder is consumed as a black box that encodes one frame at a time
//! and appends the resulting bytes to an owned output buffer.  What those
//! bytes are is named, not restated: the header, the repeat extension and
//! each frame's encoding are deterministic functions of the values handed
//! in, so downstream contracts can speak of them exactly without spelling
//! out the bitstream algorithm.

use vstd::prelude::*;

verus! {

/// The stateful GIF encoder of the `gif` crate, writing into an owned byte
/// buffer.  It is held opaquely: its `W: std::io::Write` bound keeps the
/// type itself from being declared to the verifier, so the whole pair of
/// encoder and buffer lives behind this struct, and everything known about
/// it is said over [`encoder_output`] by the trusted functions below.
#[verifier::external_body]
pub struct GifEncoder {
    inner: gif::Encoder<Vec<u8>>,
}

/// The bytes currently sitting in the encoder's output buffer: everything
/// it has written since the buffer was last taken.
pub uninterp spec fn encoder_output(e: GifEncoder) -> Seq<u8>;

/// The one-time stream header for a canvas of the given dimensions: the
/// `GIF89a` signature, the logical screen descriptor announcing the canvas
/// (dimensions little-endian, a global color table of the minimum size
/// declared and left all black as padding), background index and aspect
/// ratio zero.
pub open spec fn gif_stream_header(width: u16, height: u16) -> Seq<u8> {
    seq![
        0x47u8, 0x49u8, 0x46u8, 0x38u8, 0x39u8, 0x61u8,
        (width as int % 256) as u8, (width as int / 256) as u8,
        (height as int % 256) as u8, (height as int / 256) as u8,
        0x80u8, 0x00u8, 0x00u8,
        0x00u8, 0x00u8, 0x00u8, 0x00u8, 0x00u8, 0x00u8,
    ]
}

/// The Netscape application extension announcing a finite, nonzero
/// repetition count, little-endian, inside a single data sub-block.
pub open spec fn gif_loop_extension(repetitions: u16) -> Seq<u8> {
    seq![
        0x21u8, 0xFFu8, 0x0Bu8,
        0x4Eu8, 0x45u8, 0x54u8, 0x53u8, 0x43u8, 0x41u8, 0x50u8, 0x45u8, 0x32u8, 0x2Eu8, 0x30u8,
        0x03u8, 0x01u8,
        (repetitions as int % 256) as u8, (repetitions as int / 256) as u8,
        0x00u8,
    ]
}

/// The encoding of one RGBA frame: control extension, image descriptor,
/// quantized local palette and compressed image data.  A function of the
/// frame's dimensions, pixel bytes and delay alone.
pub uninterp spec fn gif_frame_bytes(width: u16, height: u16, rgba: Seq<u8>, delay: u16) -> Seq<u8>;

/// Why the encoder boundary failed.  Terminal for the one connection that
/// owns the encoder; no other connection is affected.
#[derive(Clone, Copy, PartialEq, Eq, Structural, Debug)]
pub enum EncodeError {
    /// The encoder could not be created or could not write its preamble.
    /// The in-memory boundary never produces it; it is the conversion arm
    /// of the outside constructor's error.
    Init,
    /// One frame could not be encoded.
    Frame,
}

/// Relies on `gif::Encoder::new` with an empty global palette: it writes
/// exactly the screen descriptor and padding of [`gif_stream_header`] into
/// the fresh buffer.  It cannot fail: the empty palette passes the color
/// table check, and a `Vec`'s `io::Write` never errors, so the result is
/// always `Ok`.
#[verifier::external_body]
pub(crate) fn gif_encoder_new(width: u16, height: u16) -> (r: Result<GifEncoder, EncodeError>)
    ensures
        r is Ok,
        r matches Ok(e) ==> encoder_output(e) == gif_stream_header(width, height),
{
    match gif::Encoder::new(Vec::new(), width, height, &[]) {
        Ok(inner) => Ok(GifEncoder { inner }),
        Err(_) => Err(EncodeError::Init),
    }
}

/// Relies on `gif::Encoder::set_repeat`: for a finite, nonzero repetition
/// count it appends exactly [`gif_loop_extension`] to the output (a count
/// of zero would write nothing, hence the precondition).  It cannot fail:
/// the extension goes through the `Vec`'s `io::Write`, which never errors,
/// so the result is always `Ok`.
#[verifier::external_body]
pub(crate) fn gif_set_repeat(e: &mut GifEncoder, repetitions: u16) -> (r: Result<
    (),
    EncodeError,
>)
    requires
        repetitions >= 1,
    ensures
        r is Ok,
        encoder_output(*final(e)) == encoder_output(*old(e))
            + gif_loop_extension(repetitions),
{
    e.inner.set_repeat(gif::Repeat::Finite(repetitions)).map_err(|_| EncodeError::Init)
}

/// Relies on `gif::Frame::from_rgba_speed` (at speed 10) and
/// `gif::Encoder::write_frame`: together they quantize one RGBA frame and
/// append its control extension, image descriptor, local palette and
/// compressed image data — a deterministic function of the dimensions,
/// pixel bytes and delay.  `from_rgba_speed` panics unless the buffer holds
/// exactly four bytes per pixel, hence the precondition.
#[verifier::external_body]
pub(crate) fn gif_encode_frame(
    e: &mut GifEncoder,
    width: u16,
    height: u16,
    rgba: &Vec<u8>,
    delay: u16,
) -> (r: Result<(), EncodeError>)
    requires
        rgba@.len() == width as int * height as int * 4,
    ensures
        r is Ok ==> encoder_output(*final(e)) == encoder_output(*old(e))
            + gif_frame_bytes(width, height, rgba@, delay),
{
    let mut pixels = rgba.clone();
    let mut frame = gif::Frame::from_rgba_speed(width, height, &mut pixels, 10);
    frame.delay = delay;
    e.inner.write_frame(&frame).map_err(|_| EncodeError::Frame)
}

/// Relies on `gif::Encoder::get_mut` and `std::mem::take`: swaps the output
/// buffer for an empty one in a single exchange and returns the bytes
/// written so far.  `get_mut` cannot panic here: the writer is only ever
/// removed by `into_inner`, which this library never calls.
#[verifier::external_body]
pub(crate) fn gif_take_output(e: &mut GifEncoder) -> (r: Vec<u8>)
    ensures
        r@ == encoder_output(*old(e)),
        encoder_output(*final(e)) == Seq::<u8>::empty(),
{
    std::mem::take(e.inner.get_mut())
}

} // verus!
