//! Playback events produced by the protocol task.
//!
//! Track identifiers are carried as their base-62 text form, which is the
//! only part of a track identity the notifier reads.

use vstd::prelude::*;

verus! {

/// One playback state change, consumed exactly once by the notifier.
#[derive(Clone, Debug, PartialEq, Eq)]
pub enum PlayerEvent {
    /// The current track changed from `old_track_id` to `new_track_id`.
    Changed { old_track_id: String, new_track_id: String },
    /// Playback of `track_id` started.
    Started { track_id: String },
    /// Playback of `track_id` stopped.
    Stopped { track_id: String },
    /// The player volume changed to `volume`.
    Volume { volume: u16 },
    /// The play position moved to `position` (milliseconds).
    Seek { position: u32 },
}

} // verus!
