//! Plain playback state shared with the consuming application.

use vstd::prelude::*;

verus! {

/// How the queue advances once the current item finishes.
#[derive(Copy, Clone, Debug, Eq, PartialEq)]
pub enum QueueBehavior {
    Sequential,
    Random,
    LoopTrack,
    LoopAll,
}

impl Default for QueueBehavior {
    fn default() -> (r: Self)
        ensures
            r == QueueBehavior::Sequential,
    {
        QueueBehavior::Sequential
    }
}

/// The lifecycle of the item currently playing.
#[derive(Copy, Clone, Debug, Eq, PartialEq)]
pub enum PlaybackState {
    Loading,
    Playing,
    Paused,
    Stopped,
}

} // verus!
