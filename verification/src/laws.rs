//! What holds of the player whatever the backend answers.
//!
//! A request is followed through with [`run`]: every command the player
//! hands out is answered with the next of a sequence of outcomes, until the
//! player gives its answer or the outcomes are used up. The statements below
//! are about such runs.

use vstd::prelude::*;

use crate::decimal::seconds_text;
use crate::playback::{ActionView, CommandView, Outcome, Snapshot, FULL_VOLUME};
use crate::player::{Pending, PlayerView, Stage};

verus! {

/// Where a run came to.
pub struct Trace {
    /// The player at the end of the run.
    pub player: PlayerView,
    /// The answer, where the run reached one.
    pub reply: Option<bool>,
    /// The commands that were handed out, in order.
    pub commands: Seq<CommandView>,
}

/// Follows `action` through: each command is answered with the next of
/// `outcomes`.
pub open spec fn run(player: PlayerView, action: ActionView, outcomes: Seq<Outcome>) -> Trace
    decreases outcomes.len(),
{
    match action {
        ActionView::Reply(result) => Trace { player, reply: Some(result), commands: Seq::empty() },
        ActionView::Perform(command) => if outcomes.len() == 0 {
            Trace { player, reply: None, commands: seq![command] }
        } else {
            let (next, following) = player.advance(outcomes[0]);
            let rest = run(next, following, outcomes.drop_first());
            Trace { commands: seq![command] + rest.commands, ..rest }
        },
    }
}

/// A request from start to finish: the pair that the request's entry
/// point gave, followed through.
pub open spec fn complete(begun: (PlayerView, ActionView), outcomes: Seq<Outcome>) -> Trace {
    run(begun.0, begun.1, outcomes)
}

/// Every outcome in the sequence is a success.
pub open spec fn all_ok(outcomes: Seq<Outcome>) -> bool {
    forall|i: int| 0 <= i < outcomes.len() ==> (#[trigger] outcomes[i]).ok()
}

/// The number of streams the backend holds once it has answered `command`
/// with `outcome`, having held `streams` before: a start that succeeds adds
/// one, a close that succeeds leaves none. A file that is only loaded is no
/// stream.
pub open spec fn streams_after(streams: nat, command: CommandView, outcome: Outcome) -> nat {
    match command {
        CommandView::Start => if outcome.ok() {
            streams + 1
        } else {
            streams
        },
        CommandView::Close => if outcome.ok() {
            0
        } else {
            streams
        },
        _ => streams,
    }
}

/// The number of streams the backend holds at the end of a run.
pub open spec fn streams_at_end(
    player: PlayerView,
    action: ActionView,
    outcomes: Seq<Outcome>,
    streams: nat,
) -> nat
    decreases outcomes.len(),
{
    match action {
        ActionView::Reply(_) => streams,
        ActionView::Perform(command) => if outcomes.len() == 0 {
            streams
        } else {
            let (next, following) = player.advance(outcomes[0]);
            streams_at_end(
                next,
                following,
                outcomes.drop_first(),
                streams_after(streams, command, outcomes[0]),
            )
        },
    }
}

/// The backend holds at most one stream at every point of a run, and the
/// player's own account of whether a stream is open agrees with the backend
/// at every point too.
pub open spec fn single_stream(
    player: PlayerView,
    action: ActionView,
    outcomes: Seq<Outcome>,
    streams: nat,
) -> bool
    decreases outcomes.len(),
{
    &&& streams <= 1
    &&& (player.live <==> streams == 1)
    &&& match action {
        ActionView::Reply(_) => true,
        ActionView::Perform(command) => outcomes.len() == 0 || {
            let (next, following) = player.advance(outcomes[0]);
            single_stream(
                next,
                following,
                outcomes.drop_first(),
                streams_after(streams, command, outcomes[0]),
            )
        },
    }
}

/// The commands whose outcome a player in this state can be waiting for.
pub open spec fn awaits(player: PlayerView, command: CommandView) -> bool {
    match player.pending {
        Pending::Idle => false,
        Pending::Final { .. } => command is SetVolume || command is SeekBy || command is Pause
            || command is Resume,
        Pending::Ending | Pending::Closing { .. } => command is Close,
        Pending::Resuming { .. } => command is Resume,
        Pending::Loading { .. } => command is Load,
        Pending::Ticking { .. } => command is StartClock,
        Pending::Starting { .. } => command is Start,
        Pending::Discarding => command is Discard,
    }
}

/// The player and the action it just gave fit together: it waits for the
/// command it handed out, and for nothing once it has answered.
pub open spec fn settled(begun: (PlayerView, ActionView)) -> bool {
    &&& begun.0.wf()
    &&& match begun.1 {
        ActionView::Perform(command) => awaits(begun.0, command),
        ActionView::Reply(_) => begun.0.idle(),
    }
}

/// Every request leaves the player well-formed and waiting for exactly the
/// command it handed out.
pub proof fn law_requests_settle(
    player: PlayerView,
    amount: i64,
    delta_ms: i64,
    path: Seq<char>,
    is_dir: bool,
    seen: Snapshot,
)
    requires
        player.wf(),
        player.idle(),
    ensures
        settled(player.volume(amount)),
        settled(player.toggle_mute()),
        settled(player.pause(seen)),
        settled(player.resume(seen)),
        settled(player.end()),
        settled(player.play(path, is_dir, seen)),
        settled(player.seek(delta_ms, seen)),
{
}

/// A request made while another is under way is turned down and changes
/// nothing, but for a volume out of range, which counts as done.
pub proof fn law_busy_player_declines(
    player: PlayerView,
    amount: i64,
    delta_ms: i64,
    path: Seq<char>,
    is_dir: bool,
    seen: Snapshot,
)
    requires
        !player.idle(),
    ensures
        player.volume(amount) == (player, ActionView::Reply(amount < 0 || amount > FULL_VOLUME)),
        player.toggle_mute() == (player, ActionView::Reply(false)),
        player.pause(seen) == (player, ActionView::Reply(false)),
        player.resume(seen) == (player, ActionView::Reply(false)),
        player.end() == (player, ActionView::Reply(false)),
        player.play(path, is_dir, seen) == (player, ActionView::Reply(false)),
        player.seek(delta_ms, seen) == (player, ActionView::Reply(false)),
{
}

/// One outcome taken in keeps the player well-formed and settled, and keeps
/// its account of the stream in step with the backend, which never holds a
/// second stream.
pub proof fn law_advance_keeps_one_stream(
    player: PlayerView,
    command: CommandView,
    outcome: Outcome,
    streams: nat,
)
    requires
        player.wf(),
        awaits(player, command),
        streams <= 1,
        player.live <==> streams == 1,
    ensures
        settled(player.advance(outcome)),
        streams_after(streams, command, outcome) <= 1,
        player.advance(outcome).0.live <==> streams_after(streams, command, outcome) == 1,
{
}

/// Through a whole run, however long and whatever the outcomes, the backend
/// holds at most one stream.
pub proof fn law_single_stream(
    player: PlayerView,
    action: ActionView,
    outcomes: Seq<Outcome>,
    streams: nat,
)
    requires
        settled((player, action)),
        streams <= 1,
        player.live <==> streams == 1,
    ensures
        single_stream(player, action, outcomes, streams),
        streams_at_end(player, action, outcomes, streams) <= 1,
        run(player, action, outcomes).player.wf(),
        run(player, action, outcomes).player.live <==> streams_at_end(
            player,
            action,
            outcomes,
            streams,
        ) == 1,
    decreases outcomes.len(),
{
    match action {
        ActionView::Reply(_) => {},
        ActionView::Perform(command) => {
            if outcomes.len() > 0 {
                law_advance_keeps_one_stream(player, command, outcomes[0], streams);
                let (next, following) = player.advance(outcomes[0]);
                law_single_stream(
                    next,
                    following,
                    outcomes.drop_first(),
                    streams_after(streams, command, outcomes[0]),
                );
            }
        },
    }
}

/// A volume in range is stored whatever comes of it. It is answered with
/// `false` where no stream is open, with `true` and without a word to the
/// backend while the player is muted, and with the backend's own answer
/// otherwise.
pub proof fn law_volume_in_range(player: PlayerView, amount: i64, outcomes: Seq<Outcome>)
    requires
        player.wf(),
        player.idle(),
        0 <= amount <= FULL_VOLUME,
        outcomes.len() >= 1,
    ensures
        ({
            let set = complete(player.volume(amount), outcomes);
            &&& set.player == (PlayerView { volume: amount as u32, ..player })
            &&& set.reply == Some(player.live && (player.muted || outcomes[0].ok()))
            &&& set.commands == if player.live && !player.muted {
                seq![CommandView::SetVolume { volume: amount as u32 }]
            } else {
                Seq::empty()
            }
        }),
{
    reveal_with_fuel(run, 3);
    let set = complete(player.volume(amount), outcomes);
    assert(player.target =~= Seq::empty());
    if player.live && !player.muted {
        assert(set.commands =~= seq![CommandView::SetVolume { volume: amount as u32 }]);
    }
}

/// While the player is muted, setting the volume tells the backend
/// nothing, and a file that is loaded, by playing or by seeking in a
/// stopped track, is loaded to be played at the level 0.
pub proof fn law_muted_player_is_silent(
    player: PlayerView,
    amount: i64,
    path: Seq<char>,
    delta_ms: i64,
    seen: Snapshot,
    outcomes: Seq<Outcome>,
    at: int,
)
    requires
        player.wf(),
        player.idle(),
        player.muted,
    ensures
        ({
            let set = complete(player.volume(amount), outcomes);
            0 <= at < set.commands.len() ==> !(set.commands[at] is SetVolume)
        }),
        ({
            let played = complete(player.play(path, false, seen), outcomes);
            0 <= at < played.commands.len() ==> (played.commands[at] matches CommandView::Load {
                volume,
                ..
            } ==> volume == 0)
        }),
        ({
            let sought = complete(player.seek(delta_ms, seen), outcomes);
            0 <= at < sought.commands.len() ==> (sought.commands[at] matches CommandView::Load {
                volume,
                ..
            } ==> volume == 0)
        }),
{
    reveal_with_fuel(run, 7);
    lemma_following(outcomes);
}

/// Pausing takes a playing stream and resuming a paused one; each is
/// answered with the backend's own answer, and anything else with `false`
/// and without a word to the backend. Neither changes what the player
/// holds.
pub proof fn law_pause_and_resume(player: PlayerView, seen: Snapshot, outcomes: Seq<Outcome>)
    requires
        player.wf(),
        player.idle(),
        outcomes.len() >= 1,
    ensures
        ({
            let paused = complete(player.pause(seen), outcomes);
            &&& paused.player == player
            &&& paused.reply == Some(player.stage(seen) is Playing && outcomes[0].ok())
            &&& paused.commands == if player.stage(seen) is Playing {
                seq![CommandView::Pause]
            } else {
                Seq::empty()
            }
        }),
        ({
            let resumed = complete(player.resume(seen), outcomes);
            &&& resumed.player == player
            &&& resumed.reply == Some(player.stage(seen) is Paused && outcomes[0].ok())
            &&& resumed.commands == if player.stage(seen) is Paused {
                seq![CommandView::Resume]
            } else {
                Seq::empty()
            }
        }),
{
    reveal_with_fuel(run, 3);
    let paused = complete(player.pause(seen), outcomes);
    let resumed = complete(player.resume(seen), outcomes);
    assert(player.target =~= Seq::empty());
    if player.stage(seen) is Playing {
        assert(paused.commands =~= seq![CommandView::Pause]);
    }
    if player.stage(seen) is Paused {
        assert(resumed.commands =~= seq![CommandView::Resume]);
    }
}

/// A player starts with no track, and has one from the first stream that
/// is started: while a stream is open the stage follows the stream, and
/// `end` leaves the player at `Stopped` with its track kept.
pub proof fn law_stages(player: PlayerView, seen: Snapshot, outcomes: Seq<Outcome>)
    requires
        player.wf(),
        player.idle(),
        outcomes.len() >= 1,
    ensures
        PlayerView::fresh().stage(seen) is NoTrack,
        player.live ==> !(player.stage(seen) is NoTrack),
        player.live ==> (player.stage(seen) is Playing <==> seen.state is Playing),
        player.live ==> (player.stage(seen) is Paused <==> seen.state.paused()),
        player.live ==> (player.stage(seen) is Stopped <==> seen.state.stopped()),
        !player.live ==> (player.stage(seen) is NoTrack <==> !player.has_track),
        !player.live ==> (player.stage(seen) is Stopped <==> player.has_track),
        ({
            let ended = complete(player.end(), outcomes);
            ended.reply == Some(true) ==> ended.player.stage(seen) is Stopped
        }),
{
    reveal_with_fuel(run, 3);
}

/// Muting and unmuting, or the other way round, brings the volume level
/// back exactly, whatever the backend made of the two changes.
///
/// A player that is muted to begin with must hold the level 0, as it does
/// unless the volume was set while it was muted; the level set then is given
/// up on unmuting.
pub proof fn law_mute_round_trip(player: PlayerView, first: Seq<Outcome>, second: Seq<Outcome>)
    requires
        player.wf(),
        player.idle(),
        player.muted ==> player.volume == 0,
        first.len() >= 1,
        second.len() >= 1,
    ensures
        ({
            let once = complete(player.toggle_mute(), first);
            let twice = complete(once.player.toggle_mute(), second);
            &&& once.reply == Some(true)
            &&& once.player.muted == !player.muted
            &&& once.player.audible() == if player.muted {
                player.muted_volume
            } else {
                0
            }
            &&& twice.reply == Some(true)
            &&& twice.player.volume == player.volume
            &&& twice.player.muted == player.muted
            &&& twice.player.idle()
        }),
{
    reveal_with_fuel(run, 3);
}

/// Once `end` has been answered `true`, the timer shows the length of the
/// track that was stopped, in seconds with two decimals, and `0.0` as the
/// elapsed time, whatever position the backend reports. `end` is answered
/// `true` exactly where a stream was open and the backend closed it; the
/// track is kept either way. With no stream open the elapsed time is `0.0`
/// as well.
pub proof fn law_timer_after_end(player: PlayerView, outcomes: Seq<Outcome>, seen: Snapshot)
    requires
        player.wf(),
        player.idle(),
        outcomes.len() >= 1,
    ensures
        ({
            let ended = complete(player.end(), outcomes);
            &&& ended.reply == Some(player.live && outcomes[0].ok())
            &&& ended.player.path == player.path
            &&& ended.player.length_ms == player.length_ms
            &&& ended.player.has_track == player.has_track
            &&& ended.reply == Some(true) ==> {
                &&& !ended.player.live
                &&& ended.player.timer(seen) == seconds_text(player.length_ms as nat) + seq!['/']
                    + "0.0"@
            }
            &&& !player.live ==> {
                &&& ended.player == player
                &&& player.elapsed_text(seen) == "0.0"@
            }
        }),
{
    reveal_with_fuel(run, 3);
    assert(player.target =~= Seq::empty());
}

/// The commands that open a stream when every one of them is carried out:
/// the file is loaded, the clock is started where it stands still, the open
/// stream is closed, and the loaded file is started.
pub open spec fn opening(player: PlayerView, path: Seq<char>, seen: Snapshot) -> Seq<
    CommandView,
> {
    let load = seq![
        CommandView::Load { path, start_ticks: seen.clock_ticks, volume: player.audible() },
    ];
    let clock = if seen.clock_ticking {
        Seq::empty()
    } else {
        seq![CommandView::StartClock]
    };
    let close = if player.live {
        seq![CommandView::Close]
    } else {
        Seq::empty()
    };
    load + clock + close + seq![CommandView::Start]
}

/// The outcomes of a run, one after the other.
proof fn lemma_following(outcomes: Seq<Outcome>)
    ensures
        outcomes.len() >= 2 ==> outcomes.drop_first()[0] == outcomes[1],
        outcomes.len() >= 3 ==> outcomes.drop_first().drop_first()[0] == outcomes[2],
        outcomes.len() >= 4 ==> outcomes.drop_first().drop_first().drop_first()[0] == outcomes[3],
        outcomes.len() >= 5 ==> outcomes.drop_first().drop_first().drop_first().drop_first()[0]
            == outcomes[4],
{
}

/// Playing a file, with a backend that carries every command out: the
/// file is loaded first, the old stream is closed only then, and the player
/// holds the new track. The backend, which held at most one stream, holds
/// exactly one afterwards.
pub proof fn law_play_replaces_stream(
    player: PlayerView,
    path: Seq<char>,
    seen: Snapshot,
    outcomes: Seq<Outcome>,
)
    requires
        player.wf(),
        player.idle(),
        outcomes.len() >= 4,
        all_ok(outcomes),
    ensures
        ({
            let begun = player.play(path, false, seen);
            let played = complete(begun, outcomes);
            &&& played.reply == Some(true)
            &&& played.commands == opening(player, path, seen)
            &&& played.player == (PlayerView {
                live: true,
                has_track: true,
                path,
                length_ms: outcomes[0].duration(),
                start_ticks: seen.clock_ticks,
                ..player
            })
            &&& streams_at_end(begun.0, begun.1, outcomes, if player.live {
                1
            } else {
                0
            }) == 1
        }),
{
    reveal_with_fuel(run, 5);
    reveal_with_fuel(streams_at_end, 5);
    let played = complete(player.play(path, false, seen), outcomes);
    assert(outcomes[0].ok() && outcomes[1].ok() && outcomes[2].ok() && outcomes[3].ok());
    lemma_following(outcomes);
    assert(player.target =~= Seq::empty());
    assert(played.commands =~= opening(player, path, seen));
}

/// A file that cannot be loaded leaves the player exactly as it was, the
/// open stream included: loading is the only command handed out, no stream
/// is closed, and the answer is `false`.
pub proof fn law_unplayable_file_changes_nothing(
    player: PlayerView,
    path: Seq<char>,
    seen: Snapshot,
    outcomes: Seq<Outcome>,
)
    requires
        player.wf(),
        player.idle(),
        outcomes.len() >= 1,
        !outcomes[0].ok(),
    ensures
        ({
            let played = complete(player.play(path, false, seen), outcomes);
            &&& played.reply == Some(false)
            &&& played.player == player
            &&& played.commands == seq![
                CommandView::Load {
                    path,
                    start_ticks: seen.clock_ticks,
                    volume: player.audible(),
                },
            ]
        }),
{
    reveal_with_fuel(run, 3);
    let played = complete(player.play(path, false, seen), outcomes);
    assert(player.target =~= Seq::empty());
    assert(played.commands =~= seq![
        CommandView::Load { path, start_ticks: seen.clock_ticks, volume: player.audible() },
    ]);
}

/// A play that is not answered `true` leaves the track as it was, path,
/// length and start included, and the levels too. It leaves the open stream
/// as it was as well, unless the backend closed it and then failed to start
/// the file it had loaded.
pub proof fn law_failed_play_keeps_track(
    player: PlayerView,
    path: Seq<char>,
    is_dir: bool,
    seen: Snapshot,
    outcomes: Seq<Outcome>,
)
    requires
        player.wf(),
        player.idle(),
    ensures
        ({
            let played = complete(player.play(path, is_dir, seen), outcomes);
            played.reply != Some(true) ==> {
                &&& played.player.path == player.path
                &&& played.player.length_ms == player.length_ms
                &&& played.player.start_ticks == player.start_ticks
                &&& played.player.has_track == player.has_track
                &&& played.player.volume == player.volume
                &&& played.player.muted_volume == player.muted_volume
                &&& played.player.muted == player.muted
                &&& (played.player.live == player.live || (played.commands.len() > 0
                    && played.commands.last() is Start))
            }
        }),
{
    reveal_with_fuel(run, 6);
    lemma_following(outcomes);
}

/// Seeking in a track that has stopped, with a backend that carries every
/// command out: the track is opened again from its beginning and then
/// sought by the amount asked for, so that it plays from there; the answer
/// is `true`.
pub proof fn law_seek_restarts_stopped_track(
    player: PlayerView,
    delta_ms: i64,
    seen: Snapshot,
    outcomes: Seq<Outcome>,
)
    requires
        player.wf(),
        player.idle(),
        player.state(seen).stopped(),
        player.has_track,
        outcomes.len() >= 5,
        all_ok(outcomes),
    ensures
        ({
            let sought = complete(player.seek(delta_ms, seen), outcomes);
            &&& sought.reply == Some(true)
            &&& sought.commands == opening(player, player.path, seen) + seq![
                CommandView::SeekBy { delta_ms },
            ]
            &&& sought.player == (PlayerView {
                live: true,
                length_ms: outcomes[0].duration(),
                start_ticks: seen.clock_ticks,
                ..player
            })
        }),
{
    reveal_with_fuel(run, 6);
    let sought = complete(player.seek(delta_ms, seen), outcomes);
    assert(outcomes[0].ok() && outcomes[1].ok() && outcomes[2].ok() && outcomes[3].ok()
        && outcomes[4].ok());
    lemma_following(outcomes);
    assert(player.target =~= Seq::empty());
    assert(sought.commands =~= opening(player, player.path, seen) + seq![
        CommandView::SeekBy { delta_ms },
    ]);
}

/// Seeking in a stopped track answers with whether the restart succeeded:
/// `true` exactly where there is a track and every command of its opening
/// was carried out. A seek that fails in the new stream does not make the
/// answer `false`, and with no track nothing is handed out or changed.
pub proof fn law_seek_answer_is_restart(
    player: PlayerView,
    delta_ms: i64,
    seen: Snapshot,
    outcomes: Seq<Outcome>,
)
    requires
        player.wf(),
        player.idle(),
        player.state(seen).stopped(),
        outcomes.len() >= 5,
    ensures
        ({
            let sought = complete(player.seek(delta_ms, seen), outcomes);
            let steps = opening(player, player.path, seen).len() as int;
            &&& sought.reply is Some
            &&& sought.reply == Some(true) <==> player.has_track && forall|i: int|
                0 <= i < steps ==> (#[trigger] outcomes[i]).ok()
            &&& !player.has_track ==> sought.player == player && sought.commands.len() == 0
        }),
{
    reveal_with_fuel(run, 7);
    lemma_following(outcomes);
}

/// Seeking in a paused stream resumes it first; seeking in a playing one
/// goes straight to the backend. Either way the answer is the seek's own
/// success, and a resume that fails ends the request with `false`.
pub proof fn law_seek_in_open_stream(
    player: PlayerView,
    delta_ms: i64,
    seen: Snapshot,
    outcomes: Seq<Outcome>,
)
    requires
        player.wf(),
        player.idle(),
        player.live,
        !seen.state.stopped(),
        outcomes.len() >= 2,
    ensures
        ({
            let sought = complete(player.seek(delta_ms, seen), outcomes);
            &&& sought.player == player
            &&& seen.state is Playing ==> {
                &&& sought.commands == seq![CommandView::SeekBy { delta_ms }]
                &&& sought.reply == Some(outcomes[0].ok())
            }
            &&& seen.state.paused() && outcomes[0].ok() ==> {
                &&& sought.commands == seq![
                    CommandView::Resume,
                    CommandView::SeekBy { delta_ms },
                ]
                &&& sought.reply == Some(outcomes[1].ok())
            }
            &&& seen.state.paused() && !outcomes[0].ok() ==> {
                &&& sought.commands == seq![CommandView::Resume]
                &&& sought.reply == Some(false)
            }
        }),
{
    reveal_with_fuel(run, 3);
    let sought = complete(player.seek(delta_ms, seen), outcomes);
    lemma_following(outcomes);
    assert(player.target =~= Seq::empty());
    if seen.state is Playing {
        assert(sought.commands =~= seq![CommandView::SeekBy { delta_ms }]);
    } else if outcomes[0].ok() {
        assert(sought.commands =~= seq![CommandView::Resume, CommandView::SeekBy { delta_ms }]);
    } else {
        assert(sought.commands =~= seq![CommandView::Resume]);
    }
}

} // verus!
