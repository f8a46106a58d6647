//! Frames and frame results: the values that flow from the producer to the
//! per-connection encoders.

use vstd::prelude::*;

verus! {

/// Mathematical view of one rendered frame.
pub struct FrameView {
    pub width: u16,
    pub height: u16,
    pub rgba: Seq<u8>,
    pub delay: u16,
}

/// One rendered image: fixed dimensions, a row-major RGBA pixel buffer
/// (four bytes per pixel), and a display-duration hint in units of 10 ms.
///
/// A frame is immutable once produced; ownership passes from the producer to
/// the channel, and each subscriber receives its own copy.
pub struct PixelFrame {
    pub width: u16,
    pub height: u16,
    pub rgba: Vec<u8>,
    pub delay: u16,
}

impl View for PixelFrame {
    type V = FrameView;

    open spec fn view(&self) -> FrameView {
        FrameView { width: self.width, height: self.height, rgba: self.rgba@, delay: self.delay }
    }
}

impl PixelFrame {
    /// A frame is well formed when its buffer holds exactly four bytes per pixel.
    pub open spec fn wf(&self) -> bool {
        self.rgba@.len() == self.width as int * self.height as int * 4
    }

    /// An owned copy with the same content.
    pub fn duplicate(&self) -> (r: Self)
        ensures
            r@ == self@,
    {
        PixelFrame {
            width: self.width,
            height: self.height,
            rgba: clone_bytes(&self.rgba),
            delay: self.delay,
        }
    }
}

/// An owned copy of a byte buffer, equal to the original element by element.
pub fn clone_bytes(v: &Vec<u8>) -> (r: Vec<u8>)
    ensures
        r@ == v@,
{
    let mut out: Vec<u8> = Vec::new();
    let mut i: usize = 0;
    while i < v.len()
        invariant
            i <= v@.len(),
            out@ == v@.subrange(0, i as int),
        decreases v@.len() - i,
    {
        out.push(v[i]);
        proof {
            assert(v@.subrange(0, i + 1 as int) =~= v@.subrange(0, i as int).push(v@[i as int]));
        }
        i += 1;
    }
    proof {
        assert(out@ =~= v@);
    }
    out
}

/// What went wrong while rendering one frame.
#[derive(Clone, Copy, PartialEq, Eq, Structural, Debug)]
pub enum FailureKind {
    /// The drawing surface could not be created or read back.
    SurfaceUnavailable,
    /// A font or glyph resource could not be loaded.
    FontUnavailable,
    /// The drawing callback itself reported an error.
    DrawFailed,
}

/// A per-tick rendering failure: recoverable, published in place of a frame.
pub struct RenderFailure {
    pub kind: FailureKind,
    pub message: String,
}

impl RenderFailure {
    /// An owned copy with the same content.
    pub fn duplicate(&self) -> (r: Self)
        ensures
            r.kind == self.kind,
            r.message@ == self.message@,
    {
        RenderFailure { kind: self.kind, message: self.message.clone() }
    }
}

/// What the producer publishes on each tick: a frame, or the failure that
/// took its place.  The startup sentinel is deliberately not representable
/// here; it lives only in the channel slot (see [`crate::channel`]).
pub enum FrameResult {
    /// A successfully rendered frame.
    Frame(PixelFrame),
    /// The renderer failed on this tick.
    Failed(RenderFailure),
}

/// Equality of content between two frame results.
pub open spec fn frame_result_eqv(a: FrameResult, b: FrameResult) -> bool {
    match (a, b) {
        (FrameResult::Frame(fa), FrameResult::Frame(fb)) => fa@ == fb@,
        (FrameResult::Failed(ea), FrameResult::Failed(eb)) => ea.kind == eb.kind
            && ea.message@ == eb.message@,
        _ => false,
    }
}

impl FrameResult {
    /// An owned copy with the same content.
    pub fn duplicate(&self) -> (r: Self)
        ensures
            frame_result_eqv(r, *self),
    {
        match self {
            FrameResult::Frame(f) => FrameResult::Frame(f.duplicate()),
            FrameResult::Failed(e) => FrameResult::Failed(e.duplicate()),
        }
    }
}

} // verus!
