//! The communicator that carries every channel between the CPU and its
//! external collaborators; today that is the display surface alone.

use vstd::prelude::*;
use crate::video::{AbstractVideo, VideoCommunicator, VideoSignal};

verus! {

/// Everything the CPU shares with the outside while it runs.
pub struct Communicator {
    pub video: VideoCommunicator,
}

/// The mathematical state of a communicator.
pub ghost struct AbstractCom {
    pub video: AbstractVideo,
}

impl View for Communicator {
    type V = AbstractCom;

    open spec fn view(&self) -> AbstractCom {
        AbstractCom { video: self.video@ }
    }
}

impl AbstractCom {
    pub open spec fn wf(self) -> bool {
        self.video.wf()
    }
}

impl Communicator {
    /// A fresh communicator around a fresh display surface.
    pub fn new() -> (c: Communicator)
        ensures
            c@.wf(),
            forall|p: int| 0 <= p < c@.video.display.len() ==> !c@.video.display[p],
            c@.video.signal == VideoSignal::Idle,
    {
        Communicator { video: VideoCommunicator::new() }
    }
}

} // verus!
