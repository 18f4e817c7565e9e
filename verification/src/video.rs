//! The display surface shared between the CPU and a render consumer: a
//! boolean pixel grid in row-major order and a tri-state signal that the
//! executor raises after a mutating operation and the consumer resets to
//! `None` once it has observed it.

use vstd::prelude::*;

verus! {

/// Default width of the pixel grid.
pub const DEFAULT_DISPLAY_WIDTH: usize = 64;
/// Default height of the pixel grid.
pub const DEFAULT_DISPLAY_HEIGHT: usize = 32;

/// The pending display mutation, if any, between two consumer polls.
#[derive(Clone, Copy, Debug, PartialEq, Eq, Structural)]
pub enum VideoSignal {
    /// Nothing happened since the consumer last looked.
    Idle,
    /// The screen was cleared.
    Clear,
    /// Pixels were drawn; the whole buffer should be repainted.
    Refresh,
}

/// The pixel grid and its pending signal. Pixel `(x, y)` lives at index
/// `y * width + x` of `display`.
pub struct VideoCommunicator {
    pub display: Vec<bool>,
    pub width: usize,
    pub height: usize,
    pub signal: VideoSignal,
}

/// The mathematical state of a display surface.
pub ghost struct AbstractVideo {
    pub display: Seq<bool>,
    pub width: usize,
    pub height: usize,
    pub signal: VideoSignal,
}

impl View for VideoCommunicator {
    type V = AbstractVideo;

    open spec fn view(&self) -> AbstractVideo {
        AbstractVideo {
            display: self.display@,
            width: self.width,
            height: self.height,
            signal: self.signal,
        }
    }
}

impl AbstractVideo {
    /// The grid has the default geometry and one pixel per cell.
    pub open spec fn wf(self) -> bool {
        &&& self.width == DEFAULT_DISPLAY_WIDTH
        &&& self.height == DEFAULT_DISPLAY_HEIGHT
        &&& self.display.len() == self.width * self.height
    }
}

impl VideoCommunicator {
    /// A fresh surface: default geometry, all pixels off, no signal pending.
    pub fn new() -> (v: VideoCommunicator)
        ensures
            v@.wf(),
            v@.display == Seq::new((DEFAULT_DISPLAY_WIDTH * DEFAULT_DISPLAY_HEIGHT) as nat, |p: int| false),
            v@.signal == VideoSignal::Idle,
    {
        let mut display: Vec<bool> = Vec::new();
        let n = DEFAULT_DISPLAY_WIDTH * DEFAULT_DISPLAY_HEIGHT;
        let mut k: usize = 0;
        while k < n
            invariant
                k <= n,
                display@.len() == k,
                forall|p: int| 0 <= p < k ==> !display@[p],
            decreases n - k,
        {
            display.push(false);
            k = k + 1;
        }
        let v = VideoCommunicator {
            display,
            width: DEFAULT_DISPLAY_WIDTH,
            height: DEFAULT_DISPLAY_HEIGHT,
            signal: VideoSignal::Idle,
        };
        assert(v@.display =~= Seq::new((DEFAULT_DISPLAY_WIDTH * DEFAULT_DISPLAY_HEIGHT) as nat, |p: int| false));
        v
    }
}

} // verus!
