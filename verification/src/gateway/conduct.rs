//! How the gateway goes about its work: what it asks for next, whatever it was told.
use crate::gateway::discord;
use crate::gateway::discord::Connection;
use crate::gateway::frame::Frame;
use crate::gateway::laws;
use crate::gateway::machine;
use crate::gateway::machine::{
    DiscoveryStage, Effect, Event, GameInfo, Gateway, Origin, Phase, ProxyStep, Request,
    SessionStage,
};
use crate::shared::DiscoveryEvent;
use std::sync::Arc;
use vstd::prelude::*;

verus! {

/// The pipe is tried until it is there, with a pause after each failure; then the gateway
/// waits.
pub proof fn the_pipe_is_tried_until_it_is_there(g: Gateway)
    requires
        g.phase is Creating,
    ensures
        ({
            let (there, nothing) = g.after(Event::PipeCreated);
            let (failed, nothing_either) = g.after(Event::PipeCreateFailed);
            &&& g.asks() is CreatePipe
            &&& there.asks() is Wait && there.phase is Idle && nothing.len() == 0
            &&& failed.asks() is Sleep && nothing_either.len() == 0
            &&& failed.after(Event::Elapsed).0.asks() is CreatePipe
            &&& failed.after(Event::Elapsed).1.len() == 0
        }),
{
}

/// Wherever the gateway waits, it hears the scanner; it hears the pipe, for a game to come
/// or for the game's frames; it hears Discord exactly while a reader runs; and it gives up
/// waiting after a time exactly where a connection is wanted and not there.
pub proof fn waiting_hears_what_can_happen(g: Gateway)
    ensures
        g.asks() matches Request::Wait(sources) ==> {
            &&& sources.discovery
            &&& sources.pipe_connect == !(g.phase is Session)
            &&& sources.pipe_read == (g.phase is Session)
            &&& sources.discord == laws::has_reader(g.phase)
            &&& sources.timer == (!laws::holds_connection(g.phase) && !(g.phase is Idle))
        },
{
}

/// While idle, a game that opens the pipe is read from; a pipe or a scanner that fails has
/// the gateway start over; the end of a game is no concern.
pub proof fn idle_serves_the_pipe(g: Gateway, app_id: String)
    requires
        g.phase is Idle,
    ensures
        g.asks() is Wait,
        g.after(Event::PipeConnected).0.asks() is ReadHandshake,
        g.after(Event::PipeConnected).0.phase is Session,
        laws::known_game(g.after(Event::PipeConnected).0.phase) is None,
        g.after(Event::PipeConnected).1.len() == 0,
        g.after(Event::PipeConnectFailed).0.phase is Creating,
        g.after(Event::PipeConnectFailed).1 == seq![Effect::DropPipe],
        g.after(Event::DiscoveryClosed).0.phase is Creating,
        g.after(Event::DiscoveryClosed).1 == seq![Effect::DropPipe],
        g.after(Event::Discovery(DiscoveryEvent::GameExited { app_id })) == (
            g,
            Seq::<Effect>::empty(),
        ),
{
}

/// A detected game has the gateway open a connection for its application, from Idle, whatever
/// the game is called.
pub proof fn idle_serves_a_detected_game(g: Gateway, game: GameInfo)
    requires
        g.phase is Idle,
    ensures
        g.after(laws::detection(game)).0.asks() == Request::OpenDiscord(&game.app_id),
        g.after(laws::detection(game)).0.phase matches Phase::Discovery { game: shown, .. } && shown
            == game,
        g.after(laws::detection(game)).1.len() == 0,
{
}

/// Discovery tries to reach Discord for its game again and again, with a pause between, as
/// long as the game runs and does not open the pipe.
pub proof fn discovery_tries_until_discord_answers(g: Gateway, game: GameInfo, other: GameInfo)
    requires
        g.phase == (Phase::Discovery { game, stage: DiscoveryStage::Opening }),
    ensures
        ({
            let (waiting, nothing) = g.after(Event::OpenFailed);
            &&& g.asks() == Request::OpenDiscord(&game.app_id)
            &&& waiting.asks() is Wait
            &&& nothing.len() == 0
            &&& waiting.after(Event::Elapsed).0.asks() == Request::OpenDiscord(&game.app_id)
            &&& waiting.after(Event::Elapsed).1.len() == 0
            &&& waiting.after(laws::detection(other)).0.asks() == Request::OpenDiscord(&game.app_id)
            &&& waiting.after(Event::PipeConnected).0.asks() is ReadHandshake
            &&& laws::known_game(waiting.after(Event::PipeConnected).0.phase) == Some(game)
            &&& waiting.after(Event::PipeConnected).1.len() == 0
            &&& waiting.after(Event::PipeConnectFailed).0.phase is Creating
            &&& waiting.after(Event::PipeConnectFailed).1 == seq![Effect::DropPipe]
            &&& waiting.after(Event::DiscoveryClosed).0.phase is Creating
            &&& waiting.after(Event::DiscoveryClosed).1 == seq![Effect::DropPipe]
        }),
{
}

/// Once Discord answers, Discovery shows its game under its name and process, and then reads
/// Discord's frames; where either fails, it opens another connection.
pub proof fn discovery_shows_its_game(
    g: Gateway,
    game: GameInfo,
    ready: Option<Arc<Frame>>,
)
    requires
        g.phase == (Phase::Discovery { game, stage: DiscoveryStage::Opening }),
    ensures
        ({
            let (opened, nothing) = g.after(Event::Opened(ready));
            let (shown, nothing_either) = opened.after(Event::Done);
            let (watching, no_more) = shown.after(Event::Done);
            &&& opened.asks() == Request::SendActivity(&game.app_name, game.pid)
            &&& shown.asks() is StartReader
            &&& watching.asks() is Wait && laws::has_reader(watching.phase)
            &&& nothing.len() == 0 && nothing_either.len() == 0 && no_more.len() == 0
            &&& opened.after(Event::Failed).0.asks() == Request::OpenDiscord(&game.app_id)
            &&& opened.after(Event::Failed).1 == seq![Effect::ClearAndClose]
            &&& shown.after(Event::Failed).0.asks() == Request::OpenDiscord(&game.app_id)
            &&& shown.after(Event::Failed).1 == seq![Effect::ClearAndClose]
            &&& watching.phase matches Phase::Discovery {
                game: watched,
                stage: DiscoveryStage::Monitoring(conn),
            } && watched == game && conn.client_id == game.app_id && conn.cached_ready == ready
        }),
{
}

/// While a game shows, Discord's frames are of no concern but for a CLOSE, which counts as a
/// lost connection: the connection is closed and another opened for the same game. A game
/// that opens the pipe is lent the connection.
pub proof fn discovery_watches_its_game(
    g: Gateway,
    game: GameInfo,
    conn: Connection,
    frame: Arc<Frame>,
    other: GameInfo,
)
    requires
        g.phase == (Phase::Discovery { game, stage: DiscoveryStage::Monitoring(conn) }),
    ensures
        frame.opcode != 2 ==> g.after(Event::DiscordFrame(frame)) == (g, Seq::<Effect>::empty()),
        frame.opcode == 2 ==> g.after(Event::DiscordFrame(frame)) == g.after(Event::DiscordLost),
        g.after(Event::DiscordLost).0.asks() == Request::OpenDiscord(&game.app_id),
        g.after(Event::DiscordLost).0.phase is Discovery,
        g.after(Event::DiscordLost).1 == seq![Effect::ClearAndClose],
        g.after(laws::detection(other)) == (g, Seq::<Effect>::empty()),
        g.after(Event::PipeConnected).0.asks() is ReadHandshake,
        g.after(Event::PipeConnected).0.phase == (Phase::Session {
            origin: Origin::Monitor(game),
            stage: SessionStage::Handshake(Some(conn)),
        }),
        g.after(Event::PipeConnected).1.len() == 0,
        g.after(Event::PipeConnectFailed).0.phase is Creating,
        g.after(Event::DiscoveryClosed).0.phase is Creating,
        g.after(Event::PipeConnectFailed).1 == seq![Effect::ClearAndClose, Effect::DropPipe],
        g.after(Event::DiscoveryClosed).1 == seq![Effect::ClearAndClose, Effect::DropPipe],
{
}

/// Discovery is about one game until it ends.
pub proof fn discovery_keeps_its_game(g: Gateway, event: Event)
    requires
        g.phase is Discovery,
    ensures
        match g.after(event).0.phase {
            Phase::Discovery { game, .. } => g.phase matches Phase::Discovery { game: before, .. }
                && game == before,
            Phase::Session { stage, .. } => stage is Handshake && (
            g.phase matches Phase::Discovery { game, .. } && laws::known_game(
                g.after(event).0.phase,
            ) == Some(game)),
            phase => phase is Creating,
        },
{
}

/// A pipe that is created anew for Discovery has it go on with its game, after a connection
/// that is left over was closed; without a pipe the gateway starts over.
pub proof fn discovery_goes_on_with_a_new_pipe(g: Gateway, game: GameInfo, stale: bool)
    requires
        g.phase == (Phase::Discovery { game, stage: DiscoveryStage::Recreating { stale } }),
    ensures
        g.asks() is CreatePipe,
        g.after(Event::PipeCreated).0.asks() == Request::OpenDiscord(&game.app_id),
        g.after(Event::PipeCreateFailed).0.phase is Creating,
        g.after(Event::PipeCreated).1 == g.after(Event::PipeCreateFailed).1,
        g.after(Event::PipeCreated).1.len() == (if stale {
            1int
        } else {
            0
        }),
        stale ==> g.after(Event::PipeCreated).1[0] == Effect::ClearAndClose,
{
}

/// The client on whose behalf a session talks to Discord, once the game has announced it.
pub open spec fn client_of(phase: Phase) -> Option<Seq<char>> {
    match phase {
        Phase::Session { stage, .. } => match stage {
            SessionStage::Handshake(_) => None,
            SessionStage::Connecting(attempt) => Some(attempt.client_id@),
            SessionStage::Facade { attempt, .. } => Some(attempt.client_id@),
            SessionStage::Retrying(attempt) => Some(attempt.client_id@),
            SessionStage::SendingReady { conn, .. } => Some(conn.client_id@),
            SessionStage::Replaying { conn, .. } => Some(conn.client_id@),
            SessionStage::StartingReader(conn) => Some(conn.client_id@),
            SessionStage::Proxy { link, .. } => Some(link.conn.client_id@),
        },
        _ => None,
    }
}

/// A session talks to Discord on behalf of the client that its game has announced, from the
/// announcement to its end, over every connection that it opens.
pub proof fn a_session_has_one_client(g: Gateway, event: Event)
    requires
        g.phase is Session,
        g.after(event).0.phase is Session,
    ensures
        laws::past_handshake(g.phase) ==> client_of(g.after(event).0.phase) == client_of(g.phase),
        !laws::past_handshake(g.phase) ==> (event matches Event::Hello(client_id) ==> client_of(
            g.after(event).0.phase,
        ) == Some(client_id@)),
        g.asks() matches Request::OpenDiscord(client_id) ==> client_of(g.phase) == Some(
            client_id@,
        ),
{
}

/// A game that announces its client has a connection opened for it, where none was lent; a
/// game that announces none, or is gone, is let go, and Discovery's connection with it.
pub proof fn a_game_is_asked_for_its_client(g: Gateway, client_id: String)
    requires
        g.wf(),
        g.phase matches Phase::Session { stage: SessionStage::Handshake(_), .. },
    ensures
        g.asks() is ReadHandshake,
        g.phase matches Phase::Session { stage: SessionStage::Handshake(None), .. } ==> g.after(
            Event::Hello(client_id),
        ).0.asks() == Request::OpenDiscord(&client_id) && g.after(Event::Hello(client_id)).1.len()
            == 0,
        g.after(Event::NoHello).0.phase is Creating,
        g.after(Event::NoHello) == g.after(Event::PipeReadFailed),
        g.after(Event::NoHello).1 == if laws::holds_connection(g.phase) {
            seq![Effect::DropPipe, Effect::ClearAndClose]
        } else {
            seq![Effect::DropPipe]
        },
{
}

/// A game's first frame names a client exactly if it is a handshake and its payload is a JSON
/// object whose member `client_id` is that text.
pub proof fn handshakes_name_the_client(first: Frame, id: Seq<char>)
    ensures
        machine::hello(first) == Some(id) <==> first.opcode == 0 && discord::announced_client(
            first.payload@,
        ) == Some(id),
{
}

/// A game that has no READY yet is sent the READY of its connection, whatever it holds,
/// before anything else is done with the connection; then Discord is sent the message that
/// the game has left meanwhile, if there is one; then the reader is started, and frames
/// pass.
pub proof fn the_game_gets_its_ready_first(
    g: Gateway,
    ready: Arc<Frame>,
)
    requires
        g.phase matches Phase::Session { stage: SessionStage::Connecting(attempt), .. }
            && !attempt.ready_sent,
    ensures
        g.phase matches Phase::Session { origin, stage: SessionStage::Connecting(attempt) } && {
            let (greeting, nothing) = g.after(Event::Opened(Some(ready)));
            let (ready_sent, nothing_either) = greeting.after(Event::Done);
            &&& g.asks() == Request::OpenDiscord(&attempt.client_id)
            &&& greeting.asks() == Request::WritePipe(&ready)
            &&& nothing.len() == 0 && nothing_either.len() == 0
            &&& attempt.last_frame matches Some(message) ==> {
                &&& ready_sent.asks() == Request::WriteDiscord(&message)
                &&& ready_sent.after(Event::Done).0.asks() is StartReader
                &&& ready_sent.after(Event::Done).1.len() == 0
            }
            &&& attempt.last_frame is None ==> ready_sent.asks() is StartReader
        },
{
}

/// A game that has a READY already, or a connection that comes without one: the message that
/// the game has left meanwhile is sent at once, or the reader started.
pub proof fn a_game_with_a_ready_goes_on_at_once(g: Gateway, ready: Option<Arc<Frame>>)
    requires
        g.phase matches Phase::Session { stage: SessionStage::Connecting(attempt), .. } && (
        attempt.ready_sent || ready is None),
    ensures
        g.phase matches Phase::Session { stage: SessionStage::Connecting(attempt), .. } && {
            let (next, nothing) = g.after(Event::Opened(ready));
            &&& nothing.len() == 0
            &&& attempt.last_frame matches Some(message) ==> {
                &&& next.asks() == Request::WriteDiscord(&message)
                &&& next.after(Event::Done).0.asks() is StartReader
            }
            &&& attempt.last_frame is None ==> next.asks() is StartReader
        },
{
}

/// A reader that has been started has frames pass: the session is in full swing, for the same
/// client and game, and no message is kept from before.
pub proof fn a_started_reader_has_frames_pass(g: Gateway)
    requires
        g.phase matches Phase::Session { stage: SessionStage::StartingReader(_), .. },
    ensures
        g.asks() is StartReader,
        g.after(Event::Done).0.phase matches Phase::Session {
            stage: SessionStage::Proxy { link, step: ProxyStep::Waiting },
            ..
        } && link.last_frame is None && !link.game_exited,
        g.after(Event::Done).1.len() == 0,
        laws::known_game(g.after(Event::Done).0.phase) == laws::known_game(g.phase),
        client_of(g.after(Event::Done).0.phase) == client_of(g.phase),
{
}

/// Whether the game has taken a frame over a run of events.
pub open spec fn game_has_taken_a_frame(g: Gateway, events: Seq<Event>) -> bool {
    laws::taken_by_game(g, events).len() > 0
}

spec fn greeted_if_due(g: Gateway, events: Seq<Event>) -> bool {
    match laws::after_all(g, events).phase {
        Phase::Session { stage, .. } => match stage {
            SessionStage::Handshake(lent) => lent matches Some(conn) ==> conn.cached_ready is Some,
            SessionStage::Connecting(attempt) => attempt.ready_sent ==> game_has_taken_a_frame(
                g,
                events,
            ),
            SessionStage::Retrying(attempt) => attempt.ready_sent ==> game_has_taken_a_frame(
                g,
                events,
            ),
            SessionStage::Facade { .. } | SessionStage::SendingReady { .. } => true,
            _ => game_has_taken_a_frame(g, events),
        },
        _ => true,
    }
}

/// No session comes into full swing before the game has taken a READY: that of its
/// connection, or of an earlier one, as long as Discord's connections come with one.
pub proof fn no_frames_pass_before_ready(g: Gateway, events: Seq<Event>)
    requires
        g.phase matches Phase::Session { stage: SessionStage::Handshake(lent), .. } && (lent
            matches Some(conn) ==> conn.cached_ready is Some),
        forall|n: int|
            0 <= n <= events.len() ==> (#[trigger] laws::after_all(
                g,
                events.take(n),
            )).phase is Session,
        forall|i: int|
            0 <= i < events.len() ==> (#[trigger] events[i] matches Event::Opened(ready) ==> ready
                is Some),
    ensures
        laws::in_full_swing(laws::after_all(g, events)) ==> game_has_taken_a_frame(g, events),
{
    lemma_greeted_if_due(g, events);
}

#[verifier::spinoff_prover]
#[verifier::rlimit(40)]
proof fn lemma_greeted_if_due(g: Gateway, events: Seq<Event>)
    requires
        g.phase matches Phase::Session { stage: SessionStage::Handshake(lent), .. } && (lent
            matches Some(conn) ==> conn.cached_ready is Some),
        forall|n: int|
            0 <= n <= events.len() ==> (#[trigger] laws::after_all(
                g,
                events.take(n),
            )).phase is Session,
        forall|i: int|
            0 <= i < events.len() ==> (#[trigger] events[i] matches Event::Opened(ready) ==> ready
                is Some),
    ensures
        greeted_if_due(g, events),
    decreases events.len(),
{
    if events.len() > 0 {
        let earlier = events.drop_last();
        assert forall|n: int| 0 <= n <= earlier.len() implies (#[trigger] laws::after_all(
            g,
            earlier.take(n),
        )).phase is Session by {
            assert(earlier.take(n) =~= events.take(n));
        }
        assert forall|i: int| 0 <= i < earlier.len() implies (
        #[trigger] earlier[i] matches Event::Opened(ready) ==> ready is Some) by {
            assert(earlier[i] == events[i]);
        }
        lemma_greeted_if_due(g, earlier);
        assert(events.take(events.len() - 1) =~= earlier);
        assert(laws::after_all(g, events.take(events.len() - 1)).phase is Session);
        let last = events[events.len() - 1];
        assert(last matches Event::Opened(ready) ==> ready is Some);
    }
}

/// Where Discord cannot be reached, a game without a READY is sent the remembered one, if
/// there is one; otherwise the game just waits.
pub proof fn a_failed_attempt_waits(g: Gateway)
    requires
        g.phase matches Phase::Session { stage: SessionStage::Connecting(_), .. },
    ensures
        g.phase matches Phase::Session { stage: SessionStage::Connecting(attempt), .. } && {
            let (next, nothing) = g.after(Event::OpenFailed);
            &&& nothing.len() == 0
            &&& (attempt.ready_sent || g.cached_ready is None) ==> next.asks() is Wait
            &&& (!attempt.ready_sent ==> (g.cached_ready matches Some(ready) ==> next.asks()
                == Request::WritePipe(&ready) && next.after(Event::Done).0.asks() is Wait
                && next.after(Event::Done).1.len() == 0))
        },
{
}

/// A game that waits for Discord has the connection tried again after a time, after a frame of
/// its own, and after the scanner has found a game.
pub proof fn a_waiting_game_has_discord_tried_again(g: Gateway, frame: Arc<Frame>, game: GameInfo)
    requires
        g.phase matches Phase::Session { stage: SessionStage::Retrying(_), .. },
    ensures
        g.phase matches Phase::Session { stage: SessionStage::Retrying(attempt), .. } && {
            let open = Request::OpenDiscord(&attempt.client_id);
            &&& g.after(Event::Elapsed).0.asks() == open
            &&& g.after(Event::PipeFrame(frame)).0.asks() == open
            &&& g.after(laws::detection(game)).0.asks() == open
            &&& g.after(Event::Elapsed).1.len() == 0
            &&& g.after(Event::PipeFrame(frame)).1.len() == 0
            &&& g.after(laws::detection(game)).1.len() == 0
        },
{
}

/// Whether a session waits for Discord, and the game with it.
pub open spec fn waits_for_discord(g: Gateway) -> bool {
    g.phase matches Phase::Session { stage, .. } && (stage is Connecting || stage is Facade
        || stage is Retrying)
}

/// The message that a waiting session keeps for Discord.
pub open spec fn left_by_game(g: Gateway) -> Option<Arc<Frame>> {
    match g.phase {
        Phase::Session { stage, .. } => match stage {
            SessionStage::Connecting(attempt) => attempt.last_frame,
            SessionStage::Facade { attempt, .. } => attempt.last_frame,
            SessionStage::Retrying(attempt) => attempt.last_frame,
            _ => None,
        },
        _ => None,
    }
}

/// While a session waits for Discord, the message that it keeps is the last one that the game
/// has sent.
pub proof fn waiting_keeps_the_last_message(g: Gateway, events: Seq<Event>)
    requires
        left_by_game(g) is None,
        forall|n: int|
            0 <= n <= events.len() ==> waits_for_discord(
                #[trigger] laws::after_all(g, events.take(n)),
            ),
    ensures
        left_by_game(laws::after_all(g, events)) == laws::last_message(laws::heard(g, events)),
    decreases events.len(),
{
    if events.len() > 0 {
        let earlier = events.drop_last();
        assert forall|n: int| 0 <= n <= earlier.len() implies waits_for_discord(
            #[trigger] laws::after_all(g, earlier.take(n)),
        ) by {
            assert(earlier.take(n) =~= events.take(n));
        }
        waiting_keeps_the_last_message(g, earlier);
        assert(events.take(events.len() as int) =~= events);
        assert(events.take(events.len() - 1) =~= earlier);
        assert(waits_for_discord(laws::after_all(g, events.take(events.len() - 1))));
        assert(waits_for_discord(laws::after_all(g, events.take(events.len() as int))));
        let frames = laws::heard(g, events);
        if frames.len() > laws::heard(g, earlier).len() {
            assert(frames.drop_last() =~= laws::heard(g, earlier));
        }
    }
}

/// The last message is the last frame with the opcode of messages, and there is none exactly
/// if no frame has it.
pub proof fn the_last_message_is_the_last(frames: Seq<Arc<Frame>>)
    ensures
        laws::last_message(frames) matches Some(message) ==> exists|i: int|
            0 <= i < frames.len() && #[trigger] frames[i] == message && message.opcode == 1
                && forall|k: int| i < k < frames.len() ==> (#[trigger] frames[k]).opcode != 1,
        laws::last_message(frames) is None ==> forall|k: int|
            0 <= k < frames.len() ==> (#[trigger] frames[k]).opcode != 1,
    decreases frames.len(),
{
    if frames.len() > 0 {
        let shorter = frames.drop_last();
        the_last_message_is_the_last(shorter);
        if frames.last().opcode == 1 {
            assert(frames[frames.len() - 1] == frames.last());
        } else {
            assert forall|k: int| 0 <= k < shorter.len() implies #[trigger] shorter[k] == frames[k] by {}
            if let Some(message) = laws::last_message(frames) {
                let i = choose|i: int|
                    0 <= i < shorter.len() && #[trigger] shorter[i] == message && message.opcode
                        == 1 && forall|k: int|
                        i < k < shorter.len() ==> (#[trigger] shorter[k]).opcode != 1;
                assert(frames[i] == message);
                assert forall|k: int| i < k < frames.len() implies (
                #[trigger] frames[k]).opcode != 1 by {
                    if k < shorter.len() {
                        assert(shorter[k] == frames[k]);
                    }
                }
            } else {
                assert forall|k: int| 0 <= k < frames.len() implies (
                #[trigger] frames[k]).opcode != 1 by {
                    if k < shorter.len() {
                        assert(shorter[k] == frames[k]);
                    }
                }
            }
        }
    }
}

/// Whether an event ends a session that has the game's handshake: the game is gone or takes
/// no frame; the scanner is gone; its game's end is reported while Discord is away; Discord
/// takes leave; or a new connection fails before frames have passed.
pub open spec fn ends_session(g: Gateway, event: Event) -> bool {
    laws::answers(g.asks(), event) && match event {
        Event::PipeReadFailed | Event::DiscoveryClosed => true,
        Event::Discovery(DiscoveryEvent::GameExited { .. }) => !laws::holds_connection(g.phase),
        Event::DiscordFrame(frame) => frame.opcode == 2,
        Event::Failed => g.asks() is WritePipe || !laws::in_full_swing(g),
        _ => false,
    }
}

/// A session goes on until the game, Discord or the scanner ends it, and ends then.
#[verifier::spinoff_prover]
#[verifier::rlimit(40)]
pub proof fn sessions_end_when_a_side_ends_them(g: Gateway, event: Event)
    requires
        laws::past_handshake(g.phase),
    ensures
        g.after(event).0.phase is Session <==> !ends_session(g, event),
{
}

/// A session without a known game gives way to a fresh start, and so does one whose game's end
/// is reported as it ends.
pub proof fn unknown_games_end_in_a_fresh_start(g: Gateway, event: Event)
    requires
        g.phase is Session,
        !(g.after(event).0.phase is Session),
        laws::known_game(g.phase) is None || laws::reports_exit(event),
    ensures
        g.after(event).0.phase is Creating,
{
}

/// The reported end of a game is remembered by a session that goes on, and changes nothing
/// else.
pub proof fn a_reported_end_is_remembered(g: Gateway, app_id: String)
    requires
        g.phase matches Phase::Session {
            stage: SessionStage::Proxy { step: ProxyStep::Waiting, .. },
            ..
        },
    ensures
        ({
            let (next, effects) = g.after(
                Event::Discovery(DiscoveryEvent::GameExited { app_id }),
            );
            &&& laws::in_full_swing(next)
            &&& next.asks() == g.asks()
            &&& laws::known_game(next.phase) is None
            &&& laws::kept(next) == laws::kept(g)
            &&& client_of(next.phase) == client_of(g.phase)
            &&& effects.len() == 0
        }),
{
}

/// A found game changes nothing for a session whose known game runs.
pub proof fn a_known_game_stays_known(g: Gateway, game: GameInfo)
    requires
        laws::known_game(g.phase) is Some,
        g.phase is Session,
    ensures
        g.after(laws::detection(game)).0.phase is Session,
        laws::known_game(g.after(laws::detection(game)).0.phase) == laws::known_game(g.phase),
        laws::in_full_swing(g) ==> laws::kept(g.after(laws::detection(game)).0) == laws::kept(g),
        g.after(laws::detection(game)).1.len() == 0,
{
}

/// A session in full swing that loses Discord, or cannot send to it, closes the connection and
/// opens another for its client; while none is to be had, it tries again after a time, after
/// a frame of the game, and after the scanner has found a game.
#[verifier::spinoff_prover]
#[verifier::rlimit(40)]
pub proof fn a_lost_connection_is_replaced(g: Gateway, frame: Arc<Frame>, game: GameInfo)
    requires
        laws::in_full_swing(g),
    ensures
        g.phase matches Phase::Session { stage: SessionStage::Proxy { link, step }, .. } && {
            let open = Request::OpenDiscord(&link.conn.client_id);
            &&& step is Waiting ==> {
                let (lost, effects) = g.after(Event::DiscordLost);
                &&& lost.asks() == open
                &&& effects == seq![Effect::ClearAndClose]
                &&& laws::kept(lost) == laws::kept(g)
            }
            &&& step is ToDiscord ==> {
                let (lost, effects) = g.after(Event::Failed);
                &&& lost.asks() == open
                &&& effects == seq![Effect::ClearAndClose]
                &&& laws::kept(lost) == laws::kept(g)
            }
            &&& step is Reopening ==> {
                &&& g.asks() == open
                &&& g.after(Event::OpenFailed).0.asks() is Wait
                &&& g.after(Event::OpenFailed).1.len() == 0
            }
            &&& step is Retrying ==> {
                &&& g.after(Event::Elapsed).0.asks() == open
                &&& g.after(Event::PipeFrame(frame)).0.asks() == open
                &&& g.after(laws::detection(game)).0.asks() == open
                &&& g.after(Event::Elapsed).1.len() == 0
                &&& g.after(Event::PipeFrame(frame)).1.len() == 0
            }
            &&& step is Replaying || step is RestartingReader ==> {
                &&& g.after(Event::Failed).0.asks() is Wait
                &&& g.after(Event::Failed).1 == seq![Effect::ClearAndClose]
                &&& g.after(Event::Done).1.len() == 0
            }
            &&& step is RestartingReader ==> g.asks() is StartReader && laws::passing(
                g.after(Event::Done).0,
            )
        },
{
}

/// A game that takes no frame ends its session, and so does a new connection that fails before
/// frames have passed: the connection is let go, unless Discovery lent it, and the pipe with
/// it.
pub proof fn a_failed_session_lets_go(g: Gateway, event: Event)
    requires
        laws::past_handshake(g.phase),
        !(g.after(event).0.phase is Session),
    ensures
        g.after(event).0.asks() is CreatePipe,
        g.after(event).1.contains(Effect::DropPipe),
        laws::holds_connection(g.phase) ==> g.after(event).1.contains(Effect::ClearAndClose)
            || laws::holds_connection(g.after(event).0.phase),
{
    let effects = g.after(event).1;
    if effects.len() > 0 {
        assert(effects.contains(effects[0]));
    }
    if effects.len() > 1 {
        assert(effects.contains(effects[1]));
    }
    if effects.len() > 2 {
        assert(effects.contains(effects[2]));
    }
}

/// Whether the pipe is up.
pub open spec fn has_pipe(phase: Phase) -> bool {
    match phase {
        Phase::Creating | Phase::Backoff => false,
        Phase::Discovery { stage, .. } => !(stage is Recreating),
        _ => true,
    }
}

/// The gateway carries out nothing without need: the pipe is closed exactly where it is
/// given up; a connection is closed only where none is held afterwards; the activity is
/// cleared by itself only where a game takes over Discovery's connection; and the game is
/// sent nothing on the side but Discord's leave.
#[verifier::spinoff_prover]
#[verifier::rlimit(40)]
pub proof fn effects_have_their_occasion(g: Gateway, event: Event, i: int)
    requires
        0 <= i < g.after(event).1.len(),
    ensures
        match g.after(event).1[i] {
            Effect::DropPipe => has_pipe(g.phase) && !has_pipe(g.after(event).0.phase),
            Effect::ClearAndClose => !laws::holds_connection(g.after(event).0.phase),
            Effect::SendNullActivity => (event matches Event::Hello(client_id) && (
            g.phase matches Phase::Session { stage: SessionStage::Handshake(Some(conn)), .. }
                && conn.client_id@ == client_id@)),
            Effect::WritePipe(frame) => event == Event::DiscordFrame(frame) && frame.opcode == 2
                && i == 0,
        },
        forall|k: int|
            0 <= k < g.after(event).1.len() && k != i ==> #[trigger] g.after(event).1[k] != g.after(
                event,
            ).1[i],
{
}

/// The pipe is closed wherever it is given up, and asked for wherever it is not up.
pub proof fn the_pipe_is_closed_when_given_up(g: Gateway, event: Event)
    ensures
        has_pipe(g.phase) && !has_pipe(g.after(event).0.phase) ==> g.after(event).1.contains(
            Effect::DropPipe,
        ),
        !has_pipe(g.phase) ==> g.asks() is CreatePipe || g.asks() is Sleep,
        has_pipe(g.phase) ==> !(g.asks() is CreatePipe) && !(g.asks() is Sleep),
        !has_pipe(g.phase) && has_pipe(g.after(event).0.phase) ==> event is PipeCreated,
{
    let effects = g.after(event).1;
    if effects.len() > 0 {
        assert(effects.contains(effects[0]));
    }
    if effects.len() > 1 {
        assert(effects.contains(effects[1]));
    }
    if effects.len() > 2 {
        assert(effects.contains(effects[2]));
    }
}

} // verus!
