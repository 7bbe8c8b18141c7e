//! The playback engine: the one place that knows whether a stream is open,
//! and that turns a primitive request into the command the backend must
//! carry out, or into the reason why the request makes no sense right now.
//!
//! The engine holds no policy. It never decides to recover from a refusal;
//! that is the player's part.

use vstd::prelude::*;

use crate::playback::{BackendError, Command, CommandView, PlaybackState, Snapshot};

verus! {

/// Tracks the single stream handle and validates primitive requests
/// against it.
pub struct PlaybackEngine {
    live: bool,
}

/// The state of the stream as the engine sees it: what the stream reports
/// while one is open, `Stopped` where none is.
pub open spec fn state_of(live: bool, seen: Snapshot) -> PlaybackState {
    if live {
        seen.state
    } else {
        PlaybackState::Stopped
    }
}

/// The elapsed time of the stream: what the stream reports, 0 once it has
/// stopped or where none is open.
pub open spec fn position_of(live: bool, seen: Snapshot) -> u64 {
    if state_of(live, seen) is Stopped {
        0
    } else {
        seen.position_ms
    }
}

impl PlaybackEngine {
    /// Whether a stream is open.
    pub closed spec fn live(&self) -> bool {
        self.live
    }

    /// An engine with no stream open.
    pub fn new() -> (engine: Self)
        ensures
            !engine.live(),
    {
        PlaybackEngine { live: false }
    }

    pub fn has_handle(&self) -> (live: bool)
        ensures
            live == self.live(),
    {
        self.live
    }

    /// Reads the playback state; it is never kept between calls.
    pub fn state(&self, seen: &Snapshot) -> (state: PlaybackState)
        ensures
            state == state_of(self.live(), *seen),
    {
        if self.live {
            seen.state
        } else {
            PlaybackState::Stopped
        }
    }

    /// Reads the elapsed time in milliseconds.
    pub fn position(&self, seen: &Snapshot) -> (ms: u64)
        ensures
            ms == position_of(self.live(), *seen),
    {
        match self.state(seen) {
            PlaybackState::Stopped => 0,
            _ => seen.position_ms,
        }
    }

    /// Asks for a file to be read and decoded, the first half of opening a
    /// stream. A directory is no audio file. Loading touches no stream, so
    /// it is in order while one is open.
    pub fn load(&self, path: String, is_dir: bool, start_ticks: u64, volume: u32) -> (result:
        Result<Command, BackendError>)
        ensures
            is_dir ==> result == Err::<Command, BackendError>(BackendError::NotAudio),
            !is_dir ==> result is Ok && result->Ok_0@ == (CommandView::Load {
                path: path@,
                start_ticks,
                volume,
            }),
    {
        if is_dir {
            Err(BackendError::NotAudio)
        } else {
            Ok(Command::Load { path, start_ticks, volume })
        }
    }

    /// Asks for the loaded file to be played, the second half of opening a
    /// stream. No stream is started while another is still open.
    pub fn start(&self) -> (result: Result<Command, BackendError>)
        ensures
            !self.live() ==> result == Ok::<Command, BackendError>(Command::Start),
            self.live() ==> result == Err::<Command, BackendError>(BackendError::InvalidState),
    {
        if self.live {
            Err(BackendError::InvalidState)
        } else {
            Ok(Command::Start)
        }
    }

    /// Asks for the open stream to be stopped. With no stream open there is
    /// nothing to do, which is not an error.
    pub fn close(&self) -> (command: Option<Command>)
        ensures
            self.live() ==> command == Some(Command::Close),
            !self.live() ==> command is None,
    {
        if self.live {
            Some(Command::Close)
        } else {
            None
        }
    }

    /// Asks for the open stream to fade to `volume`. The level is passed on
    /// as it is: keeping it in range is the caller's part.
    pub fn set_volume(&self, volume: u32) -> (result: Result<Command, BackendError>)
        ensures
            self.live() ==> result == Ok::<Command, BackendError>(Command::SetVolume { volume }),
            !self.live() ==> result == Err::<Command, BackendError>(BackendError::InvalidState),
    {
        if self.live {
            Ok(Command::SetVolume { volume })
        } else {
            Err(BackendError::InvalidState)
        }
    }

    /// Asks for a relative seek, which only a playing stream can take.
    pub fn seek_relative(&self, seen: &Snapshot, delta_ms: i64) -> (result: Result<
        Command,
        BackendError,
    >)
        ensures
            state_of(self.live(), *seen) is Playing ==> result == Ok::<Command, BackendError>(
                Command::SeekBy { delta_ms },
            ),
            !(state_of(self.live(), *seen) is Playing) ==> result == Err::<Command, BackendError>(
                BackendError::InvalidState,
            ),
    {
        match self.state(seen) {
            PlaybackState::Playing => Ok(Command::SeekBy { delta_ms }),
            _ => Err(BackendError::InvalidState),
        }
    }

    /// Asks for a pause, which only a playing stream can take.
    pub fn pause(&self, seen: &Snapshot) -> (result: Result<Command, BackendError>)
        ensures
            state_of(self.live(), *seen) is Playing ==> result == Ok::<Command, BackendError>(
                Command::Pause,
            ),
            !(state_of(self.live(), *seen) is Playing) ==> result == Err::<Command, BackendError>(
                BackendError::InvalidState,
            ),
    {
        match self.state(seen) {
            PlaybackState::Playing => Ok(Command::Pause),
            _ => Err(BackendError::InvalidState),
        }
    }

    /// Asks for playback to go on, which only a paused stream can take.
    pub fn resume(&self, seen: &Snapshot) -> (result: Result<Command, BackendError>)
        ensures
            self.live() && seen.state.paused() ==> result == Ok::<Command, BackendError>(
                Command::Resume,
            ),
            !(self.live() && seen.state.paused()) ==> result == Err::<Command, BackendError>(
                BackendError::InvalidState,
            ),
    {
        if self.live && seen.state.is_paused() {
            Ok(Command::Resume)
        } else {
            Err(BackendError::InvalidState)
        }
    }

    /// Records that the backend started the stream that was asked for.
    pub fn opened(&mut self)
        ensures
            final(self).live(),
        no_unwind
    {
        self.live = true;
    }

    /// Records that the backend stopped the stream and gave it up.
    pub fn closed(&mut self)
        ensures
            !final(self).live(),
        no_unwind
    {
        self.live = false;
    }
}

} // verus!
