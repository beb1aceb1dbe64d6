//! The video player's playback state machine.
//!
//! Decoding and presentation belong to the host's media backend; what is
//! tracked and verified here is the state the game logic reads: whether a
//! stream is open and whether it is playing, paused, or stopped.

use vstd::prelude::*;

verus! {

/// The playback state of an open video stream.
#[derive(Clone, Copy, PartialEq, Eq, Structural, Debug)]
pub enum VideoStreamState {
    Playing,
    Paused,
    Stopped,
}

/// A video player: at most one open stream and its playback state.
pub struct VideoPlayer {
    stream: Option<VideoStreamState>,
}

impl View for VideoPlayer {
    type V = Option<VideoStreamState>;

    closed spec fn view(&self) -> Option<VideoStreamState> {
        self.stream
    }
}

impl VideoPlayer {
    /// A player with no open stream.
    pub fn new() -> (p: VideoPlayer)
        ensures
            p@ is None,
    {
        VideoPlayer { stream: None }
    }

    /// Opens a stream and starts it; the host's backend does the decoding.
    pub fn play(&mut self)
        ensures
            final(self)@ == Some(VideoStreamState::Playing),
    {
        self.stream = Some(VideoStreamState::Playing);
    }

    /// Pauses the open stream.
    pub fn pause(&mut self)
        requires
            old(self)@ is Some,
        ensures
            final(self)@ == Some(VideoStreamState::Paused),
    {
        self.stream = Some(VideoStreamState::Paused);
    }

    /// Resumes the open stream.
    pub fn resume(&mut self)
        requires
            old(self)@ is Some,
        ensures
            final(self)@ == Some(VideoStreamState::Playing),
    {
        self.stream = Some(VideoStreamState::Playing);
    }

    /// Stops the open stream.
    pub fn stop(&mut self)
        requires
            old(self)@ is Some,
        ensures
            final(self)@ == Some(VideoStreamState::Stopped),
    {
        self.stream = Some(VideoStreamState::Stopped);
    }

    /// The open stream's playback state.
    pub fn get_state(&self) -> (s: VideoStreamState)
        requires
            self@ is Some,
        ensures
            self@ == Some(s),
    {
        match self.stream {
            Some(s) => s,
            None => unreached(),
        }
    }
}

} // verus!
