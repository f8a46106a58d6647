//! The connection encoder adapter: the per-connection pipeline that turns
//! the frame results one subscription observes into a sequence of encoded
//! byte chunks.
//!
//! Each adapter exclusively owns its encoder and its subscription; nothing
//! here is shared between connections, so a failure, a cap or a slow reader
//! on one connection cannot affect any other.

use vstd::prelude::*;

use crate::channel::{Channel, SlotValue, Subscription};
use crate::encode::{
    encoder_output, gif_encode_frame, gif_encoder_new, gif_frame_bytes, gif_loop_extension,
    gif_set_repeat, gif_stream_header, gif_take_output, EncodeError, GifEncoder,
};
use crate::frame::{FrameResult, FrameView, RenderFailure};

verus! {

/// A connection-terminal failure: it ends this connection's stream and no
/// other's.
pub enum StreamError {
    /// The producer published a render failure for this tick.
    Render(RenderFailure),
    /// The received frame does not fit the stream's declared canvas.
    DimensionMismatch,
    /// The encoder itself failed.
    Encode(EncodeError),
}

/// What one pull on the adapter yields.
pub enum StreamStep {
    /// Nothing new has been published; suspend and pull again.
    Pending,
    /// The next chunk of the encoded body.
    Chunk(Vec<u8>),
    /// The stream ended with a connection-terminal error.
    Ended(StreamError),
}

/// A frame fits a stream when its dimensions match the stream's canvas and
/// its buffer holds exactly four bytes per pixel.
pub open spec fn frame_fits(f: FrameView, width: u16, height: u16) -> bool {
    f.width == width && f.height == height && f.rgba.len() == width as int * height as int * 4
}

/// The per-connection encoder adapter: one subscription, one exclusively
/// owned stateful encoder, a count of chunks already yielded and an
/// optional hard cap on that count.
pub struct GifStreamAdapter {
    /// The stateful encoder, exclusively owned by this connection.
    pub enc: GifEncoder,
    /// Canvas width every frame must match.
    pub width: u16,
    /// Canvas height every frame must match.
    pub height: u16,
    /// Display-duration hint written into every frame, in units of 10 ms.
    pub delay: u16,
    /// This connection's handle into the latest-value channel.
    pub sub: Subscription,
    /// How many chunks this adapter has yielded.
    pub chunks_sent: u64,
    /// Hard cap on yielded chunks, for limited clients; `None` streams
    /// without bound.
    pub cap: Option<u64>,
    /// The stream ended with a terminal error.
    pub ended: bool,
}

impl GifStreamAdapter {
    /// The bytes encoded but not yet yielded: the accumulation buffer.
    pub open spec fn pending(self) -> Seq<u8> {
        encoder_output(self.enc)
    }

    /// A capped adapter never yields more chunks than its cap.
    pub open spec fn wf(self) -> bool {
        match self.cap {
            Some(n) => self.chunks_sent <= n,
            None => true,
        }
    }

    /// The stream is over: either it ended with a terminal error, or a
    /// capped connection has received its full quota (a clean end, not an
    /// error).
    pub open spec fn spec_finished(self) -> bool {
        self.ended || match self.cap {
            Some(n) => self.chunks_sent >= n,
            None => false,
        }
    }

    /// Whether the stream is over; once true, [`Self::next_chunk`] must not
    /// be called again.
    pub fn is_finished(&self) -> (r: bool)
        ensures
            r == self.spec_finished(),
    {
        if self.ended {
            true
        } else {
            match self.cap {
                Some(n) => self.chunks_sent >= n,
                None => false,
            }
        }
    }

    /// A fresh adapter for one connection: a new encoder whose pending
    /// bytes are exactly the stream header followed by the single-pass
    /// repeat extension, zero chunks yielded, nothing ended.
    ///
    /// Construction always succeeds: the encoder writes its preamble into
    /// an in-memory buffer, which cannot fail.  The `Result` is the shape
    /// of the encoder boundary; no input produces its `Err`.
    pub fn new(width: u16, height: u16, delay: u16, sub: Subscription, cap: Option<u64>) -> (r:
        Result<GifStreamAdapter, EncodeError>)
        ensures
            r is Ok,
            r matches Ok(a) ==> {
                &&& a.wf()
                &&& a.pending() == gif_stream_header(width, height) + gif_loop_extension(1)
                &&& a.width == width
                &&& a.height == height
                &&& a.delay == delay
                &&& a.sub == sub
                &&& a.cap == cap
                &&& a.chunks_sent == 0
                &&& !a.ended
            },
    {
        let mut enc = gif_encoder_new(width, height).unwrap();
        gif_set_repeat(&mut enc, 1).unwrap();
        Ok(GifStreamAdapter { enc, width, height, delay, sub, chunks_sent: 0, cap, ended: false })
    }

    /// One pull: receive at most one new frame result from the channel and
    /// turn it into the next step of this connection's stream.
    ///
    /// - Nothing new published: `Pending`, the adapter is unchanged.
    /// - A render failure: the stream ends with that failure.
    /// - A frame that does not fit the canvas: the stream ends.
    /// - A fitting frame: its encoding is appended to the pending bytes and
    ///   the whole accumulation buffer is swapped out in one exchange and
    ///   yielded as the next chunk — or, if the encoder fails, the stream
    ///   ends with that failure.
    pub fn next_chunk(&mut self, ch: &Channel) -> (r: StreamStep)
        requires
            ch.wf(),
            old(self).wf(),
            !old(self).spec_finished(),
            old(self).sub.valid_for(*ch),
            old(self).chunks_sent < u64::MAX,
        ensures
            final(self).wf(),
            final(self).sub.valid_for(*ch),
            final(self).width == old(self).width,
            final(self).height == old(self).height,
            final(self).delay == old(self).delay,
            final(self).cap == old(self).cap,
            r is Pending <==> !ch.has_fresh_value(old(self).sub),
            r is Pending ==> *final(self) == *old(self),
            r is Ended ==> final(self).ended,
            ch.has_fresh_value(old(self).sub) ==> (ch.slot matches SlotValue::Published(
                FrameResult::Failed(e),
            ) ==> (r matches StreamStep::Ended(StreamError::Render(e2)) && e2.kind == e.kind
                && e2.message@ == e.message@)),
            ch.has_fresh_value(old(self).sub) ==> (ch.slot matches SlotValue::Published(
                FrameResult::Frame(f),
            ) ==> {
                &&& !frame_fits(f@, old(self).width, old(self).height) ==> (r is Ended
                    && r->Ended_0 is DimensionMismatch)
                &&& frame_fits(f@, old(self).width, old(self).height) ==> (r is Chunk || (r is Ended
                    && r->Ended_0 is Encode))
                &&& frame_fits(f@, old(self).width, old(self).height) ==> (r matches
                    StreamStep::Chunk(c) ==> {
                    &&& c@ == old(self).pending() + gif_frame_bytes(
                        old(self).width,
                        old(self).height,
                        f.rgba@,
                        old(self).delay,
                    )
                    &&& final(self).pending() == Seq::<u8>::empty()
                    &&& final(self).chunks_sent == old(self).chunks_sent + 1
                    &&& !final(self).ended
                    &&& final(self).sub.last_seen == ch.generation
                })
            }),
    {
        let got = ch.try_next(&mut self.sub);
        match got {
            None => StreamStep::Pending,
            Some(FrameResult::Failed(e)) => {
                self.ended = true;
                StreamStep::Ended(StreamError::Render(e))
            },
            Some(FrameResult::Frame(f)) => {
                let w: u64 = self.width as u64;
                let h: u64 = self.height as u64;
                proof {
                    assert(w as int * h as int <= 65535 * 65535) by (nonlinear_arith)
                        requires
                            w <= 65535,
                            h <= 65535,
                    ;
                }
                let fits = f.width == self.width && f.height == self.height && (f.rgba.len()
                    as u64) == w * h * 4;
                if !fits {
                    self.ended = true;
                    StreamStep::Ended(StreamError::DimensionMismatch)
                } else {
                    match gif_encode_frame(&mut self.enc, self.width, self.height, &f.rgba, self.delay) {
                        Ok(()) => {
                            let out = gif_take_output(&mut self.enc);
                            self.chunks_sent = self.chunks_sent + 1;
                            StreamStep::Chunk(out)
                        },
                        Err(err) => {
                            self.ended = true;
                            StreamStep::Ended(StreamError::Encode(err))
                        },
                    }
                }
            },
        }
    }
}

/// Law: cap enforcement.  A well-formed capped adapter has yielded at most
/// its cap of chunks, and the moment the count reaches the cap the stream
/// is finished — cleanly, with no error required.
pub proof fn lemma_cap_bounds_chunks(a: GifStreamAdapter, n: u64)
    requires
        a.wf(),
        a.cap == Some(n),
    ensures
        a.chunks_sent <= n,
        a.chunks_sent == n ==> a.spec_finished(),
{
}

} // verus!
