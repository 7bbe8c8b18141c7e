//! The player: the policy that sits between the callers' requests and the
//! playback engine.
//!
//! The player never touches the audio backend itself. A request hands back
//! an [`Action`]: either the answer, or one [`Command`] for the driver to
//! carry out. The driver reports the command's [`Outcome`] through
//! [`Player::advance`], which again hands back an action, until the request
//! is answered. What the player decides is therefore a function of its own
//! state, the request, what the driver read from the backend, and the
//! outcomes; [`PlayerView`] states that function.

use vstd::prelude::*;
use vstd::string::StringExecFns;

use crate::decimal::{level_text, push_level, push_seconds, seconds_text};
use crate::engine::{state_of, PlaybackEngine};
use crate::metadata::{show, Metadata, Picture, Tags};
use crate::music::{or_unknown, Music, Probe};
use crate::playback::{
    Action, ActionView, Command, CommandView, Outcome, PlaybackState, Snapshot, FULL_VOLUME,
};
use crate::text::{push_char, quote, quoted};

verus! {

/// How a stream is being opened.
#[derive(Clone, Copy, Debug, PartialEq, Eq, Structural)]
pub struct Plan {
    /// The clock reading from which the new stream is timed.
    pub start_ticks: u64,
    /// Whether the clock has to be started first.
    pub start_clock: bool,
    /// The seek to make in the new stream, for a restart that a seek asked for.
    pub then_seek: Option<i64>,
    /// The length of the track in milliseconds, once the file is loaded.
    pub length_ms: u64,
}

/// The command whose outcome the player is waiting for, and what is to
/// follow it.
#[derive(Clone, Copy, Debug, PartialEq, Eq, Structural)]
pub enum Pending {
    /// Nothing is under way.
    Idle,
    /// The last command of a request. A strict request answers with the
    /// command's success, the others answer `true`.
    Final { strict: bool },
    /// The close that `end` asked for.
    Ending,
    /// The resume that comes before a seek in a paused stream.
    Resuming { delta_ms: i64 },
    /// The loading of the file that is to be the new stream.
    Loading { plan: Plan },
    /// The start of the clock that comes before a new stream.
    Ticking { plan: Plan },
    /// The close of the old stream, now that the new file is loaded.
    Closing { plan: Plan },
    /// The start of the new stream.
    Starting { plan: Plan },
    /// The letting go of a loaded file that is not going to be played.
    Discarding,
}

/// Where the player stands with its track.
#[derive(Clone, Copy, Debug, PartialEq, Eq, Structural)]
pub enum Stage {
    /// No stream was ever opened.
    NoTrack,
    /// The track's stream is playing.
    Playing,
    /// The track's stream is paused, or on the way there.
    Paused,
    /// The track has ended or was stopped; its path is kept, so that it
    /// can be started again.
    Stopped,
}

/// The player as a plain value.
pub struct PlayerView {
    /// The path of the track, the one whose stream was opened last.
    pub path: Seq<char>,
    /// The length of that track in milliseconds, 0 while unknown.
    pub length_ms: u64,
    /// The clock reading at which that track's stream began.
    pub start_ticks: u64,
    /// The volume level, in ten-thousandths of full scale.
    pub volume: u32,
    /// The level that was in force when the player was muted.
    pub muted_volume: u32,
    pub muted: bool,
    /// Whether a stream is open.
    pub live: bool,
    /// Whether a stream was ever opened, so that there is a track to speak
    /// of.
    pub has_track: bool,
    /// The track that is being opened, while an opening is under way;
    /// empty at other times.
    pub target: Seq<char>,
    pub pending: Pending,
}

impl PlayerView {
    /// The player in its first state: nothing loaded, unmuted, at half
    /// volume.
    pub open spec fn fresh() -> PlayerView {
        PlayerView {
            path: Seq::empty(),
            length_ms: 0,
            start_ticks: 0,
            volume: 5000,
            muted_volume: 0,
            muted: false,
            live: false,
            has_track: false,
            target: Seq::empty(),
            pending: Pending::Idle,
        }
    }

    /// What holds of every player: the levels are in range; an open stream
    /// is the stream of a track; a stream is open while a request that is
    /// about that stream alone is under way, and none while a new one is
    /// being started; and no track is being opened while nothing is under
    /// way.
    pub open spec fn wf(self) -> bool {
        &&& self.volume <= FULL_VOLUME
        &&& self.muted_volume <= FULL_VOLUME
        &&& (self.live ==> self.has_track)
        &&& match self.pending {
            Pending::Idle => self.target.len() == 0,
            Pending::Final { .. } | Pending::Ending | Pending::Resuming { .. } => self.live,
            Pending::Starting { .. } => !self.live,
            _ => true,
        }
    }

    pub open spec fn idle(self) -> bool {
        self.pending is Idle
    }

    /// The playback state: read from the stream, `Stopped` where none is open.
    pub open spec fn state(self, seen: Snapshot) -> PlaybackState {
        state_of(self.live, seen)
    }

    /// No stream was ever opened.
    pub open spec fn no_track(self) -> bool {
        !self.has_track
    }

    /// Where the player stands, going by what the stream reports.
    pub open spec fn stage(self, seen: Snapshot) -> Stage {
        if self.no_track() {
            Stage::NoTrack
        } else if self.state(seen) is Playing {
            Stage::Playing
        } else if self.state(seen).paused() {
            Stage::Paused
        } else {
            Stage::Stopped
        }
    }

    /// The level that reaches the backend: none while muted.
    pub open spec fn audible(self) -> u32 {
        if self.muted {
            0
        } else {
            self.volume
        }
    }

    /// The clock reading at which the track ends, where the clock can
    /// count that far.
    pub open spec fn end_ticks(self) -> Option<u64> {
        if self.start_ticks + self.length_ms <= u64::MAX {
            Some((self.start_ticks + self.length_ms) as u64)
        } else {
            None
        }
    }

    /// Sets the volume to `amount` ten-thousandths. An amount out of range
    /// changes nothing and counts as done. An amount in range is stored even
    /// where it cannot be applied: with no stream open the answer is `false`,
    /// and while muted nothing is sent.
    pub open spec fn volume(self, amount: i64) -> (PlayerView, ActionView) {
        if amount < 0 || amount > FULL_VOLUME {
            (self, ActionView::Reply(true))
        } else if !self.idle() {
            (self, ActionView::Reply(false))
        } else {
            let next = PlayerView { volume: amount as u32, ..self };
            if !self.live {
                (next, ActionView::Reply(false))
            } else if self.muted {
                (next, ActionView::Reply(true))
            } else {
                (
                    PlayerView { pending: Pending::Final { strict: true }, ..next },
                    ActionView::Perform(CommandView::SetVolume { volume: amount as u32 }),
                )
            }
        }
    }

    /// Mutes, keeping the level for later, or unmutes, bringing that level
    /// back. The open stream is told the new audible level; the answer is
    /// `true` whatever the backend makes of it.
    pub open spec fn toggle_mute(self) -> (PlayerView, ActionView) {
        if !self.idle() {
            (self, ActionView::Reply(false))
        } else {
            let next = if self.muted {
                PlayerView { volume: self.muted_volume, muted: false, ..self }
            } else {
                PlayerView { muted_volume: self.volume, volume: 0, muted: true, ..self }
            };
            if self.live {
                (
                    PlayerView { pending: Pending::Final { strict: false }, ..next },
                    ActionView::Perform(CommandView::SetVolume { volume: next.volume }),
                )
            } else {
                (next, ActionView::Reply(true))
            }
        }
    }

    /// Pauses a playing stream; anything else is turned down.
    pub open spec fn pause(self, seen: Snapshot) -> (PlayerView, ActionView) {
        if self.idle() && self.state(seen) is Playing {
            (
                PlayerView { pending: Pending::Final { strict: true }, ..self },
                ActionView::Perform(CommandView::Pause),
            )
        } else {
            (self, ActionView::Reply(false))
        }
    }

    /// Resumes a paused stream; anything else is turned down.
    pub open spec fn resume(self, seen: Snapshot) -> (PlayerView, ActionView) {
        if self.idle() && self.live && seen.state.paused() {
            (
                PlayerView { pending: Pending::Final { strict: true }, ..self },
                ActionView::Perform(CommandView::Resume),
            )
        } else {
            (self, ActionView::Reply(false))
        }
    }

    /// Stops the open stream; with none open the answer is `false`.
    pub open spec fn end(self) -> (PlayerView, ActionView) {
        if self.idle() && self.live {
            (PlayerView { pending: Pending::Ending, ..self }, ActionView::Perform(CommandView::Close))
        } else {
            (self, ActionView::Reply(false))
        }
    }

    /// Opens `path` as the new stream. A directory is turned down before
    /// anything is touched, and the open stream is kept until the file is
    /// loaded.
    pub open spec fn play(self, path: Seq<char>, is_dir: bool, seen: Snapshot) -> (
        PlayerView,
        ActionView,
    ) {
        if !self.idle() || is_dir {
            (self, ActionView::Reply(false))
        } else {
            self.launch(path, seen, None)
        }
    }

    /// Moves the position by `delta_ms`. A playing stream is sought
    /// directly, a paused one is resumed first, and a stopped track is
    /// started again and sought from its beginning. With no track to go
    /// back to the answer is `false`.
    pub open spec fn seek(self, delta_ms: i64, seen: Snapshot) -> (PlayerView, ActionView) {
        if !self.idle() {
            (self, ActionView::Reply(false))
        } else if self.state(seen) is Playing {
            (
                PlayerView { pending: Pending::Final { strict: true }, ..self },
                ActionView::Perform(CommandView::SeekBy { delta_ms }),
            )
        } else if self.state(seen).paused() {
            (
                PlayerView { pending: Pending::Resuming { delta_ms }, ..self },
                ActionView::Perform(CommandView::Resume),
            )
        } else if self.no_track() {
            (self, ActionView::Reply(false))
        } else {
            self.launch(self.path, seen, Some(delta_ms))
        }
    }

    /// Begins the opening of a stream with what can fail on the file: the
    /// file is loaded, to be played at the audible level. The open stream is
    /// not touched yet.
    pub open spec fn launch(self, path: Seq<char>, seen: Snapshot, then_seek: Option<i64>) -> (
        PlayerView,
        ActionView,
    ) {
        let plan = Plan {
            start_ticks: seen.clock_ticks,
            start_clock: !seen.clock_ticking,
            then_seek,
            length_ms: 0,
        };
        (
            PlayerView { target: path, pending: Pending::Loading { plan }, ..self },
            ActionView::Perform(
                CommandView::Load {
                    path,
                    start_ticks: plan.start_ticks,
                    volume: self.audible(),
                },
            ),
        )
    }

    /// With the file loaded: the clock is started where it stands still.
    pub open spec fn after_load(self, plan: Plan) -> (PlayerView, ActionView) {
        if plan.start_clock {
            (
                PlayerView { pending: Pending::Ticking { plan }, ..self },
                ActionView::Perform(CommandView::StartClock),
            )
        } else {
            self.after_clock(plan)
        }
    }

    /// With the clock running: the open stream is closed, now that its
    /// successor is ready.
    pub open spec fn after_clock(self, plan: Plan) -> (PlayerView, ActionView) {
        if self.live {
            (
                PlayerView { pending: Pending::Closing { plan }, ..self },
                ActionView::Perform(CommandView::Close),
            )
        } else {
            self.after_close(plan)
        }
    }

    /// With no stream open any more: the loaded file is started.
    pub open spec fn after_close(self, plan: Plan) -> (PlayerView, ActionView) {
        (
            PlayerView { pending: Pending::Starting { plan }, ..self },
            ActionView::Perform(CommandView::Start),
        )
    }

    /// Gives up an opening after the file was loaded: the file is let go
    /// of, and the answer will be `false`.
    pub open spec fn give_up(self) -> (PlayerView, ActionView) {
        (
            PlayerView { pending: Pending::Discarding, ..self },
            ActionView::Perform(CommandView::Discard),
        )
    }

    /// Takes the outcome of the command that is under way. A failure ends
    /// the request with `false` and leaves the track as it was. A file that
    /// cannot be loaded leaves everything as it was, the open stream
    /// included. A stream counts as closed, or as open, only once the
    /// backend has said so.
    pub open spec fn advance(self, outcome: Outcome) -> (PlayerView, ActionView) {
        let idle = PlayerView { pending: Pending::Idle, target: Seq::empty(), ..self };
        match self.pending {
            Pending::Idle => (self, ActionView::Reply(false)),
            Pending::Final { strict } => (idle, ActionView::Reply(!strict || outcome.ok())),
            Pending::Ending => if outcome.ok() {
                (PlayerView { live: false, ..idle }, ActionView::Reply(true))
            } else {
                (idle, ActionView::Reply(false))
            },
            Pending::Resuming { delta_ms } => if outcome.ok() {
                (
                    PlayerView { pending: Pending::Final { strict: true }, ..self },
                    ActionView::Perform(CommandView::SeekBy { delta_ms }),
                )
            } else {
                (idle, ActionView::Reply(false))
            },
            Pending::Loading { plan } => if outcome.ok() {
                self.after_load(Plan { length_ms: outcome.duration(), ..plan })
            } else {
                (idle, ActionView::Reply(false))
            },
            Pending::Ticking { plan } => if outcome.ok() {
                self.after_clock(plan)
            } else {
                self.give_up()
            },
            Pending::Closing { plan } => if outcome.ok() {
                (PlayerView { live: false, ..self }).after_close(plan)
            } else {
                self.give_up()
            },
            Pending::Starting { plan } => if outcome.ok() {
                let opened = PlayerView {
                    live: true,
                    has_track: true,
                    path: self.target,
                    length_ms: plan.length_ms,
                    start_ticks: plan.start_ticks,
                    ..idle
                };
                match plan.then_seek {
                    Some(delta_ms) => (
                        PlayerView { pending: Pending::Final { strict: false }, ..opened },
                        ActionView::Perform(CommandView::SeekBy { delta_ms }),
                    ),
                    None => (opened, ActionView::Reply(true)),
                }
            } else {
                (idle, ActionView::Reply(false))
            },
            Pending::Discarding => (idle, ActionView::Reply(false)),
        }
    }

    /// The track's length as the timer shows it.
    pub open spec fn length_text(self) -> Seq<char> {
        if self.no_track() {
            "0.0"@
        } else {
            seconds_text(self.length_ms as nat)
        }
    }

    /// The elapsed time as the timer shows it: that of the stream, and
    /// `0.0` once playback has stopped, wherever it stopped.
    pub open spec fn elapsed_text(self, seen: Snapshot) -> Seq<char> {
        if self.state(seen).stopped() {
            "0.0"@
        } else {
            seconds_text(seen.position_ms as nat)
        }
    }

    /// The timer line: length, a slash, elapsed time.
    pub open spec fn timer(self, seen: Snapshot) -> Seq<char> {
        self.length_text() + seq!['/'] + self.elapsed_text(seen)
    }

    /// The status report with `track` for the track's line: state, track
    /// and level, one line each.
    pub open spec fn report(self, seen: Snapshot, track: Seq<char>) -> Seq<char> {
        "Status: "@ + self.state(seen).name_text() + "\nAudio Path: "@ + track + "\nVolume: "@
            + level_text(self.volume as nat)
    }

    /// The status report, the track's path in quotes.
    pub open spec fn status(self, seen: Snapshot) -> Seq<char> {
        self.report(seen, quoted(self.path))
    }
}

/// The player's state between requests and while one is under way.
pub struct Player {
    path: String,
    length_ms: u64,
    start_ticks: u64,
    volume: u32,
    muted_volume: u32,
    muted: bool,
    engine: PlaybackEngine,
    has_track: bool,
    target: String,
    pending: Pending,
}

impl View for Player {
    type V = PlayerView;

    closed spec fn view(&self) -> PlayerView {
        PlayerView {
            path: self.path@,
            length_ms: self.length_ms,
            start_ticks: self.start_ticks,
            volume: self.volume,
            muted_volume: self.muted_volume,
            muted: self.muted,
            live: self.engine.live(),
            has_track: self.has_track,
            target: self.target@,
            pending: self.pending,
        }
    }
}

impl Player {
    #[verifier::type_invariant]
    spec fn inv(self) -> bool {
        self@.wf()
    }

    /// A player with nothing loaded, unmuted, at half volume.
    pub fn new() -> (player: Player)
        ensures
            player@ == PlayerView::fresh(),
            player@.wf(),
    {
        Player {
            path: String::new(),
            length_ms: 0,
            start_ticks: 0,
            volume: 5000,
            muted_volume: 0,
            muted: false,
            engine: PlaybackEngine::new(),
            has_track: false,
            target: String::new(),
            pending: Pending::Idle,
        }
    }

    /// Sets the volume to `amount` ten-thousandths of full scale. An amount
    /// below 0 or above full scale is passed over: nothing changes, and the
    /// answer is `true`. What is decided otherwise is
    /// [`PlayerView::volume`].
    pub fn volume(&mut self, amount: i64) -> (action: Action)
        ensures
            (final(self)@, action@) == old(self)@.volume(amount),
            amount < 0 || amount > FULL_VOLUME ==> final(self)@ == old(self)@ && action
                == Action::Reply(true),
            final(self)@.wf(),
    {
        proof {
            use_type_invariant(&*self);
        }
        if amount < 0 || amount > FULL_VOLUME as i64 {
            return Action::Reply(true);
        }
        if !self.is_idle() {
            return Action::Reply(false);
        }
        let level: u32 = amount as u32;
        self.volume = level;
        if self.muted && self.engine.has_handle() {
            return Action::Reply(true);
        }
        match self.engine.set_volume(level) {
            Ok(command) => {
                self.pending = Pending::Final { strict: true };
                Action::Perform(command)
            },
            Err(_) => Action::Reply(false),
        }
    }

    /// Mutes, or unmutes. What is decided is [`PlayerView::toggle_mute`].
    pub fn toggle_mute(&mut self) -> (action: Action)
        ensures
            (final(self)@, action@) == old(self)@.toggle_mute(),
            final(self)@.wf(),
    {
        proof {
            use_type_invariant(&*self);
        }
        if !self.is_idle() {
            return Action::Reply(false);
        }
        if self.muted {
            self.volume = self.muted_volume;
            self.muted = false;
        } else {
            self.muted_volume = self.volume;
            self.volume = 0;
            self.muted = true;
        }
        match self.engine.set_volume(self.volume) {
            Ok(command) => {
                self.pending = Pending::Final { strict: false };
                Action::Perform(command)
            },
            Err(_) => Action::Reply(true),
        }
    }

    /// Pauses the stream, if it is playing. What is decided is
    /// [`PlayerView::pause`].
    pub fn pause(&mut self, seen: &Snapshot) -> (action: Action)
        ensures
            (final(self)@, action@) == old(self)@.pause(*seen),
            final(self)@.wf(),
    {
        proof {
            use_type_invariant(&*self);
        }
        if !self.is_idle() {
            return Action::Reply(false);
        }
        match self.engine.pause(seen) {
            Ok(command) => {
                self.pending = Pending::Final { strict: true };
                Action::Perform(command)
            },
            Err(_) => Action::Reply(false),
        }
    }

    /// Resumes the stream, if it is paused. What is decided is
    /// [`PlayerView::resume`].
    pub fn resume(&mut self, seen: &Snapshot) -> (action: Action)
        ensures
            (final(self)@, action@) == old(self)@.resume(*seen),
            final(self)@.wf(),
    {
        proof {
            use_type_invariant(&*self);
        }
        if !self.is_idle() {
            return Action::Reply(false);
        }
        match self.engine.resume(seen) {
            Ok(command) => {
                self.pending = Pending::Final { strict: true };
                Action::Perform(command)
            },
            Err(_) => Action::Reply(false),
        }
    }

    /// Stops the stream; the track is kept for a later restart. What is
    /// decided is [`PlayerView::end`].
    pub fn end(&mut self) -> (action: Action)
        ensures
            (final(self)@, action@) == old(self)@.end(),
            final(self)@.wf(),
    {
        proof {
            use_type_invariant(&*self);
        }
        if !self.is_idle() {
            return Action::Reply(false);
        }
        match self.engine.close() {
            Some(command) => {
                self.pending = Pending::Ending;
                Action::Perform(command)
            },
            None => Action::Reply(false),
        }
    }

    /// Plays the file at `path`; `is_dir` tells whether the path names a
    /// directory, which is turned down with nothing altered. What is decided
    /// otherwise is [`PlayerView::play`].
    pub fn play(&mut self, path: String, is_dir: bool, seen: &Snapshot) -> (action: Action)
        ensures
            (final(self)@, action@) == old(self)@.play(path@, is_dir, *seen),
            is_dir ==> final(self)@ == old(self)@ && action == Action::Reply(false),
            final(self)@.wf(),
    {
        proof {
            use_type_invariant(&*self);
        }
        if !self.is_idle() || is_dir {
            return Action::Reply(false);
        }
        self.launch(path, seen, None)
    }

    /// Moves the position by `delta_ms` milliseconds, backwards where the
    /// number is negative. What is decided is [`PlayerView::seek`].
    pub fn seek(&mut self, delta_ms: i64, seen: &Snapshot) -> (action: Action)
        ensures
            (final(self)@, action@) == old(self)@.seek(delta_ms, *seen),
            final(self)@.wf(),
    {
        proof {
            use_type_invariant(&*self);
        }
        if !self.is_idle() {
            return Action::Reply(false);
        }
        match self.engine.seek_relative(seen, delta_ms) {
            Ok(command) => {
                self.pending = Pending::Final { strict: true };
                Action::Perform(command)
            },
            Err(_) => match self.engine.resume(seen) {
                Ok(command) => {
                    self.pending = Pending::Resuming { delta_ms };
                    Action::Perform(command)
                },
                Err(_) => if !self.has_track {
                    Action::Reply(false)
                } else {
                    let again = self.path.clone();
                    self.launch(again, seen, Some(delta_ms))
                },
            },
        }
    }

    /// Takes the outcome of the command that was handed out last, and gives
    /// the next action of the request. What is decided is
    /// [`PlayerView::advance`].
    pub fn advance(&mut self, outcome: Outcome) -> (action: Action)
        ensures
            (final(self)@, action@) == old(self)@.advance(outcome),
            final(self)@.wf(),
    {
        proof {
            use_type_invariant(&*self);
        }
        let pending = self.pending;
        let done = outcome.is_ok();
        match pending {
            Pending::Idle => Action::Reply(false),
            Pending::Final { strict } => {
                self.rest();
                Action::Reply(!strict || done)
            },
            Pending::Ending => {
                self.rest();
                if done {
                    self.engine.closed();
                }
                Action::Reply(done)
            },
            Pending::Resuming { delta_ms } => {
                if done {
                    self.pending = Pending::Final { strict: true };
                    Action::Perform(Command::SeekBy { delta_ms })
                } else {
                    self.rest();
                    Action::Reply(false)
                }
            },
            Pending::Loading { plan } => {
                if done {
                    let loaded = Plan {
                        start_ticks: plan.start_ticks,
                        start_clock: plan.start_clock,
                        then_seek: plan.then_seek,
                        length_ms: outcome.duration_ms(),
                    };
                    self.after_load(loaded)
                } else {
                    self.rest();
                    Action::Reply(false)
                }
            },
            Pending::Ticking { plan } => {
                if done {
                    self.after_clock(plan)
                } else {
                    self.give_up()
                }
            },
            Pending::Closing { plan } => {
                if done {
                    self.engine.closed();
                    self.after_close(plan)
                } else {
                    self.give_up()
                }
            },
            Pending::Starting { plan } => {
                if done {
                    self.path = self.target.clone();
                    self.rest();
                    self.has_track = true;
                    self.engine.opened();
                    self.length_ms = plan.length_ms;
                    self.start_ticks = plan.start_ticks;
                    match plan.then_seek {
                        Some(delta_ms) => {
                            self.pending = Pending::Final { strict: false };
                            Action::Perform(Command::SeekBy { delta_ms })
                        },
                        None => Action::Reply(true),
                    }
                } else {
                    self.rest();
                    Action::Reply(false)
                }
            },
            Pending::Discarding => {
                self.rest();
                Action::Reply(false)
            },
        }
    }

    /// Brings the player to rest: nothing is under way, and no track is
    /// being opened.
    fn rest(&mut self)
        ensures
            final(self)@ == (PlayerView {
                pending: Pending::Idle,
                target: Seq::empty(),
                ..old(self)@
            }),
    {
        proof {
            use_type_invariant(&*self);
        }
        self.target = String::new();
        self.pending = Pending::Idle;
    }

    fn launch(&mut self, path: String, seen: &Snapshot, then_seek: Option<i64>) -> (action: Action)
        requires
            old(self)@.idle(),
        ensures
            (final(self)@, action@) == old(self)@.launch(path@, *seen, then_seek),
    {
        proof {
            use_type_invariant(&*self);
        }
        let plan = Plan {
            start_ticks: seen.clock_ticks,
            start_clock: !seen.clock_ticking,
            then_seek,
            length_ms: 0,
        };
        let level: u32 = if self.muted {
            0
        } else {
            self.volume
        };
        self.pending = Pending::Loading { plan };
        self.target = path.clone();
        match self.engine.load(path, false, plan.start_ticks, level) {
            Ok(command) => Action::Perform(command),
            Err(_) => Action::Reply(false),
        }
    }

    fn after_load(&mut self, plan: Plan) -> (action: Action)
        ensures
            (final(self)@, action@) == old(self)@.after_load(plan),
    {
        proof {
            use_type_invariant(&*self);
        }
        if plan.start_clock {
            self.pending = Pending::Ticking { plan };
            Action::Perform(Command::StartClock)
        } else {
            self.after_clock(plan)
        }
    }

    fn after_clock(&mut self, plan: Plan) -> (action: Action)
        ensures
            (final(self)@, action@) == old(self)@.after_clock(plan),
    {
        proof {
            use_type_invariant(&*self);
        }
        match self.engine.close() {
            Some(command) => {
                self.pending = Pending::Closing { plan };
                Action::Perform(command)
            },
            None => self.after_close(plan),
        }
    }

    fn after_close(&mut self, plan: Plan) -> (action: Action)
        requires
            !old(self)@.live,
        ensures
            (final(self)@, action@) == old(self)@.after_close(plan),
    {
        proof {
            use_type_invariant(&*self);
        }
        match self.engine.start() {
            Ok(command) => {
                self.pending = Pending::Starting { plan };
                Action::Perform(command)
            },
            Err(_) => Action::Reply(false),
        }
    }

    fn give_up(&mut self) -> (action: Action)
        ensures
            (final(self)@, action@) == old(self)@.give_up(),
    {
        proof {
            use_type_invariant(&*self);
        }
        self.pending = Pending::Discarding;
        Action::Perform(Command::Discard)
    }

    /// The timer line: the track's length, a slash, the elapsed time, both
    /// in seconds with two decimals.
    pub fn timer(&self, seen: &Snapshot) -> (line: String)
        ensures
            line@ == self@.timer(*seen),
    {
        let mut line = String::new();
        if !self.has_track {
            line.append("0.0");
        } else {
            push_seconds(&mut line, self.length_ms);
        }
        assert(line@ =~= self@.length_text());
        push_char(&mut line, '/');
        if self.engine.state(seen).is_stopped() {
            line.append("0.0");
        } else {
            push_seconds(&mut line, self.engine.position(seen));
        }
        assert(line@ =~= self@.timer(*seen));
        line
    }

    /// The status report: playback state, track and volume level, with the
    /// track's path in quotes.
    pub fn status(&self, seen: &Snapshot) -> (report: String)
        ensures
            report@ == self@.status(*seen),
    {
        let track = quote(self.path.as_str());
        self.report(seen, track.as_str())
    }

    /// The status report with `track` standing for the track: three lines,
    /// the playback state, the track, and the volume level as a fraction
    /// of full scale.
    pub fn report(&self, seen: &Snapshot, track: &str) -> (report: String)
        ensures
            report@ == self@.report(*seen, track@),
    {
        let mut report = String::from_str("Status: ");
        let name = self.engine.state(seen).name();
        report.append(name.as_str());
        report.append("\nAudio Path: ");
        report.append(track);
        report.append("\nVolume: ");
        push_level(&mut report, self.volume);
        report
    }

    /// The tags of the current track, from what a tag reader found in its
    /// file. `None` stands for a file the reader could not make sense of; it
    /// gives a record all the same, so that a caller is never held up by a
    /// broken tag.
    pub fn metadata(&self, tags: Option<Tags>) -> (metadata: Metadata)
        ensures
            match tags {
                Some(found) => metadata.shows(found),
                None => metadata.is_unreadable(),
            },
    {
        match tags {
            Some(found) => {
                let cover = match found.cover {
                    Some(picture) => picture,
                    None => Picture::blank(),
                };
                Metadata {
                    title: show(found.labels.title),
                    artist: show(found.labels.artist),
                    genre: show(found.labels.genre),
                    cover,
                }
            },
            None => Metadata {
                title: String::from_str("None"),
                artist: String::from_str("None"),
                genre: String::from_str("None"),
                cover: Picture::blank(),
            },
        }
    }

    /// The current track as it is listed, from what probing its file came
    /// to: by its tag where it has one, bare where it has none, and as a
    /// track of which little is known where the file could not be probed.
    pub fn playing(&self, probe: Probe) -> (music: Music)
        ensures
            music.lists(self@.path, probe),
    {
        match probe {
            Probe::Read { file_name: _, length, tag: Some(labels) } => Music {
                title: or_unknown(labels.title),
                length,
                path: self.path.clone(),
                artist: or_unknown(labels.artist),
                genre: or_unknown(labels.genre),
            },
            Probe::Read { file_name: _, length, tag: None } => {
                let blank = Music::default();
                Music {
                    path: self.path.clone(),
                    length,
                    title: blank.title,
                    artist: blank.artist,
                    genre: blank.genre,
                }
            },
            other => Music::new(self.path.clone(), other),
        }
    }

    /// The path of the track, the one whose stream was opened last; empty
    /// while there is no track.
    pub fn path(&self) -> (path: &str)
        ensures
            path@ == self@.path,
    {
        self.path.as_str()
    }

    /// The volume level, in ten-thousandths of full scale.
    pub fn current_volume(&self) -> (level: u32)
        ensures
            level == self@.volume,
            level <= FULL_VOLUME,
    {
        proof {
            use_type_invariant(self);
        }
        self.volume
    }

    /// The level that was in force when the player was muted.
    pub fn muted_volume(&self) -> (level: u32)
        ensures
            level == self@.muted_volume,
            level <= FULL_VOLUME,
    {
        proof {
            use_type_invariant(self);
        }
        self.muted_volume
    }

    /// The level that reaches the backend: none while muted.
    pub fn audible_volume(&self) -> (level: u32)
        ensures
            level == self@.audible(),
            level <= FULL_VOLUME,
    {
        proof {
            use_type_invariant(self);
        }
        if self.muted {
            0
        } else {
            self.volume
        }
    }

    pub fn is_muted(&self) -> (muted: bool)
        ensures
            muted == self@.muted,
    {
        self.muted
    }

    /// The current track's length in milliseconds, 0 while unknown.
    pub fn song_length(&self) -> (ms: u64)
        ensures
            ms == self@.length_ms,
    {
        self.length_ms
    }

    /// The clock reading at which the current track's stream began.
    pub fn start_offset_ticks(&self) -> (ticks: u64)
        ensures
            ticks == self@.start_ticks,
    {
        self.start_ticks
    }

    /// The clock reading at which the current track ends; `None` where the
    /// clock cannot count that far.
    pub fn end_of_track_ticks(&self) -> (ticks: Option<u64>)
        ensures
            ticks == self@.end_ticks(),
    {
        self.start_ticks.checked_add(self.length_ms)
    }

    /// Whether a stream is open.
    pub fn has_stream(&self) -> (live: bool)
        ensures
            live == self@.live,
    {
        self.engine.has_handle()
    }

    /// The playback state: read from the stream, `Stopped` where none is
    /// open.
    pub fn state(&self, seen: &Snapshot) -> (state: PlaybackState)
        ensures
            state == self@.state(*seen),
    {
        self.engine.state(seen)
    }

    /// Where the player stands with its track.
    pub fn stage(&self, seen: &Snapshot) -> (stage: Stage)
        ensures
            stage == self@.stage(*seen),
    {
        if !self.has_track {
            return Stage::NoTrack;
        }
        match self.engine.state(seen) {
            PlaybackState::Playing => Stage::Playing,
            PlaybackState::Pausing | PlaybackState::Paused => Stage::Paused,
            _ => Stage::Stopped,
        }
    }

    /// Whether a stream was ever opened, so that there is a track.
    pub fn has_track(&self) -> (yes: bool)
        ensures
            yes == self@.has_track,
    {
        self.has_track
    }

    /// What the player is waiting for.
    pub fn pending(&self) -> (pending: Pending)
        ensures
            pending == self@.pending,
    {
        self.pending
    }

    pub fn is_idle(&self) -> (idle: bool)
        ensures
            idle == self@.idle(),
    {
        match self.pending {
            Pending::Idle => true,
            _ => false,
        }
    }
}

} // verus!
