//! The vocabulary shared by the playback engine and the player: what a
//! stream reports about itself, what the audio backend can be asked to do,
//! and how it answers.

use vstd::prelude::*;
use vstd::string::StringExecFns;

verus! {

/// The volume level of full scale. Levels are counted in ten-thousandths, so
/// one hundredth of a percent is one unit.
pub const FULL_VOLUME: u32 = 10000;

/// What a stream reports about itself.
///
/// `Pausing` and `Stopping` are reported while a fade is under way; for the
/// player's decisions they count as `Paused` and `Stopped`.
#[derive(Clone, Copy, Debug, PartialEq, Eq, Structural)]
pub enum PlaybackState {
    Playing,
    Pausing,
    Paused,
    Stopping,
    Stopped,
}

impl PlaybackState {
    /// Paused, or on the way there.
    pub open spec fn paused(self) -> bool {
        self is Pausing || self is Paused
    }

    /// Stopped, or on the way there.
    pub open spec fn stopped(self) -> bool {
        self is Stopping || self is Stopped
    }

    /// The state's name as it is shown to a user.
    pub open spec fn name_text(self) -> Seq<char> {
        match self {
            PlaybackState::Playing => "Playing"@,
            PlaybackState::Pausing => "Pausing"@,
            PlaybackState::Paused => "Paused"@,
            PlaybackState::Stopping => "Stopping"@,
            PlaybackState::Stopped => "Stopped"@,
        }
    }

    pub fn is_paused(&self) -> (yes: bool)
        ensures
            yes == self.paused(),
    {
        match self {
            PlaybackState::Pausing | PlaybackState::Paused => true,
            _ => false,
        }
    }

    pub fn is_stopped(&self) -> (yes: bool)
        ensures
            yes == self.stopped(),
    {
        match self {
            PlaybackState::Stopping | PlaybackState::Stopped => true,
            _ => false,
        }
    }

    pub fn name(&self) -> (out: String)
        ensures
            out@ == self.name_text(),
    {
        match self {
            PlaybackState::Playing => String::from_str("Playing"),
            PlaybackState::Pausing => String::from_str("Pausing"),
            PlaybackState::Paused => String::from_str("Paused"),
            PlaybackState::Stopping => String::from_str("Stopping"),
            PlaybackState::Stopped => String::from_str("Stopped"),
        }
    }
}

/// Why the audio backend, or the engine in front of it, turned a request down.
#[derive(Clone, Copy, Debug, PartialEq, Eq, Structural)]
pub enum BackendError {
    /// The path names a directory, or cannot be read.
    NotAudio,
    /// The file is there but cannot be decoded.
    DecodeError,
    /// The stream is not in a state from which the request makes sense.
    InvalidState,
    /// The backend failed for a reason of its own.
    BackendFault,
}

/// What the driver read from the audio backend just before it handed a
/// request to the player. `state` and `position_ms` describe the stream that
/// is open; where none is, they are not looked at.
#[derive(Clone, Copy, Debug, PartialEq, Eq, Structural)]
pub struct Snapshot {
    pub state: PlaybackState,
    pub position_ms: u64,
    pub clock_ticks: u64,
    pub clock_ticking: bool,
}

/// One thing the driver is asked to do on the audio backend.
///
/// A stream is opened in two halves. `Load` does what can fail on the file,
/// and touches no stream; `Start` makes the loaded file the open stream.
/// Between the two the open stream can be closed, so that it is given up
/// only once its successor is known to be playable.
#[derive(Clone, Debug, PartialEq, Eq)]
pub enum Command {
    /// Read and decode the file at `path`, to be played timed from
    /// `start_ticks` and at `volume`, and keep it ready.
    Load { path: String, start_ticks: u64, volume: u32 },
    /// Start the clock.
    StartClock,
    /// Stop the open stream and let go of it.
    Close,
    /// Play the file that was loaded, as the open stream.
    Start,
    /// Let go of the file that was loaded; it is not going to be played.
    Discard,
    /// Fade the open stream to `volume`.
    SetVolume { volume: u32 },
    /// Move the open stream's position by `delta_ms`.
    SeekBy { delta_ms: i64 },
    /// Pause the open stream.
    Pause,
    /// Resume the open stream.
    Resume,
}

/// A [`Command`] with its text as characters.
pub enum CommandView {
    Load { path: Seq<char>, start_ticks: u64, volume: u32 },
    StartClock,
    Close,
    Start,
    Discard,
    SetVolume { volume: u32 },
    SeekBy { delta_ms: i64 },
    Pause,
    Resume,
}

impl View for Command {
    type V = CommandView;

    open spec fn view(&self) -> CommandView {
        match *self {
            Command::Load { path, start_ticks, volume } => CommandView::Load {
                path: path@,
                start_ticks,
                volume,
            },
            Command::StartClock => CommandView::StartClock,
            Command::Close => CommandView::Close,
            Command::Start => CommandView::Start,
            Command::Discard => CommandView::Discard,
            Command::SetVolume { volume } => CommandView::SetVolume { volume },
            Command::SeekBy { delta_ms } => CommandView::SeekBy { delta_ms },
            Command::Pause => CommandView::Pause,
            Command::Resume => CommandView::Resume,
        }
    }
}

/// How the backend answered a [`Command`].
#[derive(Clone, Copy, Debug, PartialEq, Eq, Structural)]
pub enum Outcome {
    /// The command was carried out.
    Done,
    /// A file was loaded; the track lasts `duration_ms`.
    Loaded { duration_ms: u64 },
    /// The command was not carried out.
    Failed(BackendError),
}

impl Outcome {
    /// Whether the command was carried out.
    pub open spec fn ok(self) -> bool {
        !(self is Failed)
    }

    /// The length of the loaded track, 0 where the answer does not tell.
    pub open spec fn duration(self) -> u64 {
        match self {
            Outcome::Loaded { duration_ms } => duration_ms,
            _ => 0,
        }
    }

    pub fn is_ok(&self) -> (yes: bool)
        ensures
            yes == self.ok(),
    {
        match self {
            Outcome::Failed(_) => false,
            _ => true,
        }
    }

    pub fn duration_ms(&self) -> (ms: u64)
        ensures
            ms == self.duration(),
    {
        match self {
            Outcome::Loaded { duration_ms } => *duration_ms,
            _ => 0,
        }
    }
}

/// What the player wants next: a command carried out, or the request
/// answered.
#[derive(Clone, Debug, PartialEq, Eq)]
pub enum Action {
    /// Carry the command out and come back with its outcome.
    Perform(Command),
    /// The request is finished; this is its result.
    Reply(bool),
}

/// An [`Action`] with its text as characters.
pub enum ActionView {
    Perform(CommandView),
    Reply(bool),
}

impl View for Action {
    type V = ActionView;

    open spec fn view(&self) -> ActionView {
        match *self {
            Action::Perform(command) => ActionView::Perform(command@),
            Action::Reply(result) => ActionView::Reply(result),
        }
    }
}

} // verus!
