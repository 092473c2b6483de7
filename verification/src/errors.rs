//! The error taxonomy of the command surface. Every failure is recoverable
//! and is reported to the caller as a structured value; none ends the process.

use vstd::prelude::*;

verus! {

/// Why a command could not be carried out.
///
/// The variants that carry a `String` hold the collaborator's own message,
/// so the caller can show the cause.
#[derive(Debug)]
pub enum CommandError {
    /// The requesting user is not in a voice channel, so there is no channel
    /// to open a session on.
    NotInVoiceChannel,
    /// The tenant has no live session and the command needs one.
    NoActiveSession,
    /// The resolver could not turn the query into a playable track.
    TrackResolutionFailed(String),
    /// The resolver could not list the playlist's entries.
    PlaylistResolutionFailed(String),
    /// The queue holds nothing, so there is nothing to skip or show.
    QueueEmpty,
    /// The durable store refused the write; any live change already made is
    /// kept, not rolled back.
    PersistenceFailed(String),
    /// The audio layer refused to stop the current track.
    SkipFailed(String),
}

impl CommandError {
    /// A fixed, user-facing description of the variant.
    pub fn describe(&self) -> (r: &'static str)
        ensures
            r@ == self.spec_describe(),
    {
        match self {
            CommandError::NotInVoiceChannel => "You are not in a voice channel.",
            CommandError::NoActiveSession => "Bot is not in a voice chat.",
            CommandError::TrackResolutionFailed(_) => "Failed to get the track.",
            CommandError::PlaylistResolutionFailed(_) => "Failed to get the playlist.",
            CommandError::QueueEmpty => "There is nothing playing right now...",
            CommandError::PersistenceFailed(_) => "Could not update the database.",
            CommandError::SkipFailed(_) => "Failed to skip song!",
        }
    }

    /// What `describe` returns for each variant.
    pub open spec fn spec_describe(&self) -> Seq<char> {
        match self {
            CommandError::NotInVoiceChannel => "You are not in a voice channel."@,
            CommandError::NoActiveSession => "Bot is not in a voice chat."@,
            CommandError::TrackResolutionFailed(_) => "Failed to get the track."@,
            CommandError::PlaylistResolutionFailed(_) => "Failed to get the playlist."@,
            CommandError::QueueEmpty => "There is nothing playing right now..."@,
            CommandError::PersistenceFailed(_) => "Could not update the database."@,
            CommandError::SkipFailed(_) => "Failed to skip song!"@,
        }
    }

    /// True of the variants that report an empty queue.
    pub fn is_queue_empty(&self) -> (r: bool)
        ensures
            r == (self is QueueEmpty),
    {
        match self {
            CommandError::QueueEmpty => true,
            _ => false,
        }
    }
}

} // verus!
