use vstd::prelude::*;
use std::sync::Arc;
use crate::context_menus::QueueItemData;
use crate::playback::PlaybackState;

verus! {

/// A signed-in Last.fm session.
#[derive(Clone, Debug)]
pub struct Session {
    pub name: String,
    pub key: String,
}

/// Where signing in to Last.fm stands.
#[derive(Clone, Debug)]
pub enum LastFMState {
    Disconnected,
    /// Waiting for the user to confirm the sign-in made with this token.
    AwaitingFinalization(String),
    Connected(Session),
}

/// The metadata of the playing track that is handed to the services.
#[derive(Clone, Debug)]
pub struct Metadata {
    pub name: Option<String>,
    pub artist: Option<String>,
}

/// What is told to the services that follow playback.
#[derive(Clone, Debug)]
pub enum MMBSEvent {
    NewTrack(String),
    MetadataRecieved(Arc<Metadata>),
    StateChanged(PlaybackState),
    PositionChanged(u64),
    DurationChanged(u64),
}

/// Encoded image data.
#[derive(Debug, Clone)]
pub struct ImageEvent(pub Vec<u8>);

/// The sender of decoded images.
pub struct TransferDummy;

/// The play queue and the playing entry.
#[derive(Clone, Debug)]
pub struct Queue {
    pub data: Vec<QueueItemData>,
    pub position: usize,
}

impl Queue {
    /// The queue length, where an entry played now is appended and jumped to.
    pub fn len(&self) -> (r: usize)
        ensures
            r == self.data@.len(),
    {
        self.data.len()
    }
}

} // verus!
