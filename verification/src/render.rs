//! Renderers: capabilities that, given a frame index, produce one raw pixel
//! buffer.  A renderer is deterministic in the frame index, so everything
//! downstream of it can be tested against exact pixel values.
//!
//! The synthetic patterns here are rendered by verified code.  Drawing that
//! needs a vector-graphics library and font loading (such as the
//! [`TimeDisplay`] text overlay) lives outside the library, behind the same
//! width/height contract.

use vstd::prelude::*;

use crate::frame::PixelFrame;

verus! {

/// The text overlay drawable: prints the current frame number.  Its pixels
/// are painted by an external vector-graphics surface, so only its fixed
/// dimensions are part of the library.
#[derive(Default, Copy, Clone)]
pub struct TimeDisplay;

impl TimeDisplay {
    /// Canvas width in pixels.
    pub const WIDTH: usize = 300;

    /// Canvas height in pixels.
    pub const HEIGHT: usize = 100;
}

/// A closed set of synthetic frame contents.
#[derive(Clone, Copy, PartialEq, Eq, Structural, Debug)]
pub enum Pattern {
    /// Every pixel has this fixed color.
    Solid { red: u8, green: u8, blue: u8 },
    /// A gray level that cycles with the frame index.
    Pulse,
}

/// The gray level of the [`Pattern::Pulse`] pattern at a frame index: it
/// climbs by two per frame and wraps every 128 frames.
pub open spec fn pulse_shade(idx: u64) -> u8 {
    (((idx as int) % 128) * 2) as u8
}

/// Byte `i` of the RGBA buffer a pattern paints for frame `idx`.
pub open spec fn pattern_byte(p: Pattern, idx: u64, i: int) -> u8 {
    match p {
        Pattern::Solid { red, green, blue } => {
            if i % 4 == 0 {
                red
            } else if i % 4 == 1 {
                green
            } else if i % 4 == 2 {
                blue
            } else {
                255
            }
        },
        Pattern::Pulse => {
            if i % 4 == 3 {
                255
            } else {
                pulse_shade(idx)
            }
        },
    }
}

/// A renderer: fixed dimensions plus the pattern it paints.  The dimensions
/// are instance data so one process can serve mock and real contents through
/// the same contract.
#[derive(Clone, Copy, PartialEq, Eq, Structural, Debug)]
pub struct Renderer {
    pub width: u16,
    pub height: u16,
    pub pattern: Pattern,
}

impl Renderer {
    /// The frame buffer fits in one allocation on this machine.
    pub open spec fn wf(self) -> bool {
        self.width as int * self.height as int * 4 <= usize::MAX as int
    }

    /// A renderer for the given canvas, or `None` when one frame would not
    /// fit in a single buffer on this machine.
    pub fn new(width: u16, height: u16, pattern: Pattern) -> (r: Option<Renderer>)
        ensures
            r is Some <==> width as int * height as int * 4 <= usize::MAX as int,
            r matches Some(x) ==> x == (Renderer { width, height, pattern }) && x.wf(),
    {
        let w: u64 = width as u64;
        let h: u64 = height as u64;
        proof {
            assert(w as int * h as int <= 65535 * 65535) by (nonlinear_arith)
                requires
                    w <= 65535,
                    h <= 65535,
            ;
        }
        if w * h * 4 <= usize::MAX as u64 {
            Some(Renderer { width, height, pattern })
        } else {
            None
        }
    }

    /// Renders frame `idx`: a well-formed frame of this renderer's
    /// dimensions whose every byte is the pattern's value, with the given
    /// display-duration hint.
    pub fn render(&self, idx: u64, delay: u16) -> (f: PixelFrame)
        requires
            self.wf(),
        ensures
            f.wf(),
            f.width == self.width,
            f.height == self.height,
            f.delay == delay,
            forall|i: int| 0 <= i < f.rgba@.len() ==> f.rgba@[i] == pattern_byte(self.pattern, idx, i),
    {
        let total: usize = (self.width as usize) * (self.height as usize) * 4;
        let mut rgba: Vec<u8> = Vec::new();
        let mut i: usize = 0;
        while i < total
            invariant
                i <= total,
                rgba@.len() == i,
                forall|j: int| 0 <= j < i ==> rgba@[j] == pattern_byte(self.pattern, idx, j),
            decreases total - i,
        {
            rgba.push(pattern_byte_at(&self.pattern, idx, i));
            i += 1;
        }
        PixelFrame { width: self.width, height: self.height, rgba, delay }
    }
}

/// Byte `i` of the buffer that `p` paints for frame `idx`.
fn pattern_byte_at(p: &Pattern, idx: u64, i: usize) -> (b: u8)
    ensures
        b == pattern_byte(*p, idx, i as int),
{
    let channel: usize = i % 4;
    match p {
        Pattern::Solid { red, green, blue } => {
            if channel == 0 {
                *red
            } else if channel == 1 {
                *green
            } else if channel == 2 {
                *blue
            } else {
                255
            }
        },
        Pattern::Pulse => {
            if channel == 3 {
                255
            } else {
                let m: u64 = idx % 128;
                (m as u8) * 2
            }
        },
    }
}

} // verus!
