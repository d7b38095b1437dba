//! What holds of the gateway whatever happens to it.
use crate::gateway::discord::Connection;
use crate::gateway::frame::{Frame, CLOSE, FRAME};
use crate::gateway::machine::{
    DiscoveryStage, Effect, Event, GameInfo, Gateway, Link, Origin, Phase, ProxyStep, Request,
    SessionStage,
};
use crate::shared::DiscoveryEvent;
use std::sync::Arc;
use vstd::prelude::*;

verus! {

/// The gateway after a run of events.
pub open spec fn after_all(g: Gateway, events: Seq<Event>) -> Gateway
    decreases events.len(),
{
    if events.len() == 0 {
        g
    } else {
        after_all(g, events.drop_last()).after(events.last()).0
    }
}

proof fn lemma_earlier(events: Seq<Event>)
    requires
        events.len() > 0,
    ensures
        events.take(events.len() as int) == events,
        events.take(events.len() - 1) == events.drop_last(),
        forall|n: int|
            0 <= n < events.len() ==> #[trigger] events.drop_last().take(n) == events.take(n),
        forall|i: int|
            0 <= i < events.len() - 1 ==> #[trigger] events.drop_last()[i] == events[i],
{
    assert(events.take(events.len() as int) =~= events);
    assert(events.take(events.len() - 1) =~= events.drop_last());
    assert forall|n: int| 0 <= n < events.len() implies #[trigger] events.drop_last().take(n)
        == events.take(n) by {
        assert(events.drop_last().take(n) =~= events.take(n));
    }
}

/// Whether a connection to Discord is open, or may still be.
pub open spec fn holds_connection(phase: Phase) -> bool {
    match phase {
        Phase::Creating | Phase::Backoff | Phase::Idle => false,
        Phase::Discovery { stage, .. } => match stage {
            DiscoveryStage::Recreating { stale } => stale,
            DiscoveryStage::Opening | DiscoveryStage::Retrying => false,
            _ => true,
        },
        Phase::Session { stage, .. } => match stage {
            SessionStage::Handshake(lent) => lent is Some,
            SessionStage::Connecting(_)
            | SessionStage::Facade { .. }
            | SessionStage::Retrying(_) => false,
            SessionStage::Proxy { step, .. } => !(step is Reopening || step is Retrying),
            _ => true,
        },
    }
}

/// There is a single connection to Discord: the gateway opens one only while it holds
/// none.
pub proof fn opens_only_without_a_connection(g: Gateway)
    ensures
        g.asks() is OpenDiscord ==> !holds_connection(g.phase),
{
}

/// No connection is left behind: where the gateway lets go of one, it clears the activity
/// and closes the connection.
pub proof fn lets_go_only_after_closing(g: Gateway, event: Event)
    requires
        g.wf(),
    ensures
        holds_connection(g.phase) && !holds_connection(g.after(event).0.phase) ==> g.after(
            event,
        ).1.contains(Effect::ClearAndClose),
{
    let effects = g.after(event).1;
    if effects.len() > 0 {
        assert(effects.contains(effects[0]));
    }
    if effects.len() > 1 {
        assert(effects.contains(effects[1]));
    }
    if effects.len() > 2 {
        assert(effects.contains(effects[2]));
    }
}

/// Whether a reader of the connection runs, or may still run.
pub open spec fn has_reader(phase: Phase) -> bool {
    match phase {
        Phase::Creating | Phase::Backoff | Phase::Idle => false,
        Phase::Discovery { stage, .. } => match stage {
            DiscoveryStage::Recreating { stale } => stale,
            DiscoveryStage::Monitoring(_) => true,
            _ => false,
        },
        Phase::Session { stage, .. } => match stage {
            SessionStage::Handshake(lent) => lent is Some,
            SessionStage::SendingReady { reading, .. } => reading,
            SessionStage::Proxy { step, .. } => step is Waiting || step is ToDiscord
                || step is ToGame,
            _ => false,
        },
    }
}

/// A connection has one reader at a time: the gateway starts one only while it has a
/// connection that nothing reads.
pub proof fn one_reader_per_connection(g: Gateway)
    ensures
        g.asks() is StartReader ==> !has_reader(g.phase) && holds_connection(g.phase),
{
}

/// A reader that runs goes on until its connection is closed, whatever else happens, and so
/// the next reader is that of another connection.
pub proof fn reader_runs_until_the_connection_closes(g: Gateway, event: Event)
    requires
        g.wf(),
        has_reader(g.phase),
    ensures
        has_reader(g.after(event).0.phase) || g.after(event).1.contains(Effect::ClearAndClose),
{
    let effects = g.after(event).1;
    if effects.len() > 0 {
        assert(effects.contains(effects[0]));
    }
    if effects.len() > 1 {
        assert(effects.contains(effects[1]));
    }
    if effects.len() > 2 {
        assert(effects.contains(effects[2]));
    }
}

/// Discord's frames are awaited only where a reader hands them out.
pub proof fn discord_is_awaited_only_with_a_reader(g: Gateway)
    ensures
        g.asks() matches Request::Wait(sources) ==> sources.discord ==> has_reader(g.phase),
{
}

/// The READY of the last accepted connection is never forgotten, only replaced.
pub proof fn ready_is_never_forgotten(g: Gateway, events: Seq<Event>)
    requires
        g.cached_ready is Some,
    ensures
        after_all(g, events).cached_ready is Some,
    decreases events.len(),
{
    if events.len() > 0 {
        ready_is_never_forgotten(g, events.drop_last());
    }
}

/// The remembered READY changes only when Discord accepts a connection, and is then the
/// READY of that connection.
pub proof fn ready_comes_from_discord(g: Gateway, event: Event)
    ensures
        g.after(event).0.cached_ready != g.cached_ready ==> (event matches Event::Opened(ready)
            && ready is Some && g.after(event).0.cached_ready == ready),
        g.asks() is OpenDiscord ==> (event matches Event::Opened(ready) ==> ready is Some
            ==> g.after(event).0.cached_ready == ready),
{
}

/// Whether an event can answer what the gateway asks.
pub open spec fn answers(asked: Request<'_>, event: Event) -> bool {
    match asked {
        Request::CreatePipe => event is PipeCreated || event is PipeCreateFailed,
        Request::Sleep => event is Elapsed,
        Request::Wait(sources) => match event {
            Event::PipeConnected | Event::PipeConnectFailed => sources.pipe_connect,
            Event::PipeFrame(_) | Event::PipeReadFailed => sources.pipe_read,
            Event::DiscordFrame(_) | Event::DiscordLost => sources.discord,
            Event::Discovery(_) | Event::DiscoveryClosed => sources.discovery,
            Event::Elapsed => sources.timer,
            _ => false,
        },
        Request::ReadHandshake => event is Hello || event is NoHello || event is PipeReadFailed,
        Request::OpenDiscord(_) => event is Opened || event is OpenFailed,
        Request::SendActivity(..)
        | Request::StartReader
        | Request::WritePipe(_)
        | Request::WriteDiscord(_) => event is Done || event is Failed,
    }
}

/// An event that answers no request changes nothing.
pub proof fn other_events_change_nothing(g: Gateway, event: Event)
    requires
        !answers(g.asks(), event),
    ensures
        g.after(event).0 == g,
        g.after(event).1.len() == 0,
{
}

/// Frames pass unchanged: what the game sends is what Discord is sent next, and what
/// Discord sends is what the game is sent next, in the order of their coming.
pub proof fn frames_pass_unchanged(g: Gateway, frame: Arc<Frame>)
    requires
        g.phase matches Phase::Session {
            stage: SessionStage::Proxy { step: ProxyStep::Waiting, .. },
            ..
        },
    ensures
        g.after(Event::PipeFrame(frame)).0.asks() == Request::WriteDiscord(&frame),
        g.after(Event::PipeFrame(frame)).1.len() == 0,
        frame.opcode != CLOSE ==> g.after(Event::DiscordFrame(frame)).0.asks()
            == Request::WritePipe(&frame),
        frame.opcode != CLOSE ==> g.after(Event::DiscordFrame(frame)).1.len() == 0,
        g.after(Event::PipeFrame(frame)).0.after(Event::Done).0.asks() == g.asks(),
        frame.opcode != CLOSE ==> g.after(Event::DiscordFrame(frame)).0.after(Event::Done).0.asks()
            == g.asks(),
{
}

/// The frames that Discord has taken over a run of events.
pub open spec fn taken_by_discord(g: Gateway, events: Seq<Event>) -> Seq<Arc<Frame>>
    decreases events.len(),
{
    if events.len() == 0 {
        seq![]
    } else {
        let so_far = taken_by_discord(g, events.drop_last());
        match after_all(g, events.drop_last()).asks() {
            Request::WriteDiscord(frame) => if events.last() is Done {
                so_far.push(*frame)
            } else {
                so_far
            },
            _ => so_far,
        }
    }
}

/// The frames that the game has taken over a run of events.
pub open spec fn taken_by_game(g: Gateway, events: Seq<Event>) -> Seq<Arc<Frame>>
    decreases events.len(),
{
    if events.len() == 0 {
        seq![]
    } else {
        let so_far = taken_by_game(g, events.drop_last());
        match after_all(g, events.drop_last()).asks() {
            Request::WritePipe(frame) => if events.last() is Done {
                so_far.push(*frame)
            } else {
                so_far
            },
            _ => so_far,
        }
    }
}

/// The frames that the gateway took from Discord over a run of events.
pub open spec fn heard_from_discord(g: Gateway, events: Seq<Event>) -> Seq<Arc<Frame>>
    decreases events.len(),
{
    if events.len() == 0 {
        seq![]
    } else {
        let before = after_all(g, events.drop_last());
        let so_far = heard_from_discord(g, events.drop_last());
        match events.last() {
            Event::DiscordFrame(sent) => if answers(before.asks(), events.last()) {
                so_far.push(sent)
            } else {
                so_far
            },
            _ => so_far,
        }
    }
}

/// The frame that is on its way to Discord, if one is.
pub open spec fn in_hand_for_discord(g: Gateway) -> Seq<Arc<Frame>> {
    match g.asks() {
        Request::WriteDiscord(frame) => seq![*frame],
        _ => seq![],
    }
}

/// The frame that is on its way to the game, if one is.
pub open spec fn in_hand_for_game(g: Gateway) -> Seq<Arc<Frame>> {
    match g.asks() {
        Request::WritePipe(frame) => seq![*frame],
        _ => seq![],
    }
}

/// Whether a session in full swing passes frames, and is not about to replace a lost
/// connection.
pub open spec fn passing(g: Gateway) -> bool {
    g.phase matches Phase::Session { stage: SessionStage::Proxy { step, .. }, .. } && (
    step is Waiting || step is ToDiscord || step is ToGame)
}

/// Over a session in which nothing fails, Discord is sent exactly the frames that the game
/// sends, and the game exactly those that Discord sends: none is lost, repeated or changed,
/// and each side gets them in the order of their coming.
pub proof fn every_frame_is_passed_on(g: Gateway, events: Seq<Event>)
    requires
        g.phase matches Phase::Session {
            stage: SessionStage::Proxy { step: ProxyStep::Waiting, .. },
            ..
        },
        forall|n: int|
            0 <= n <= events.len() ==> in_full_swing(#[trigger] after_all(g, events.take(n))),
        forall|i: int|
            0 <= i < events.len() ==> !(#[trigger] events[i] is Failed) && !(
            events[i] is DiscordLost),
    ensures
        passing(after_all(g, events)),
        taken_by_discord(g, events) + in_hand_for_discord(after_all(g, events)) == heard(g, events),
        taken_by_game(g, events) + in_hand_for_game(after_all(g, events)) == heard_from_discord(
            g,
            events,
        ),
    decreases events.len(),
{
    if events.len() > 0 {
        let earlier = events.drop_last();
        lemma_earlier(events);
        every_frame_is_passed_on(g, earlier);
        assert(in_full_swing(after_all(g, events.take(events.len() as int))));
        let last = events[events.len() - 1];
        assert(!(last is Failed) && !(last is DiscordLost));
        let now = after_all(g, events);
        assert(passing(now));
        assert(taken_by_discord(g, events) + in_hand_for_discord(now) =~= heard(g, events));
        assert(taken_by_game(g, events) + in_hand_for_game(now) =~= heard_from_discord(g, events));
    }
}

/// A CLOSE of Discord reaches the game before anything else, and ends the session.
pub proof fn close_ends_the_session(g: Gateway, frame: Arc<Frame>)
    requires
        g.phase matches Phase::Session {
            stage: SessionStage::Proxy { step: ProxyStep::Waiting, .. },
            ..
        },
        frame.opcode == CLOSE,
    ensures
        g.after(Event::DiscordFrame(frame)).1.len() > 0,
        g.after(Event::DiscordFrame(frame)).1[0] == Effect::WritePipe(frame),
        !(g.after(Event::DiscordFrame(frame)).0.phase is Session),
{
}

/// Whether a session is in full swing.
pub open spec fn in_full_swing(g: Gateway) -> bool {
    g.phase matches Phase::Session { stage: SessionStage::Proxy { .. }, .. }
}

/// The last message of the game that a session in full swing keeps.
pub open spec fn kept(g: Gateway) -> Option<Arc<Frame>> {
    match g.phase {
        Phase::Session { stage: SessionStage::Proxy { link, .. }, .. } => link.last_frame,
        _ => None,
    }
}

/// The frames that the gateway took from the game over a run of events.
pub open spec fn heard(g: Gateway, events: Seq<Event>) -> Seq<Arc<Frame>>
    decreases events.len(),
{
    if events.len() == 0 {
        seq![]
    } else {
        let before = after_all(g, events.drop_last());
        let so_far = heard(g, events.drop_last());
        match events.last() {
            Event::PipeFrame(sent) => if answers(before.asks(), events.last()) {
                so_far.push(sent)
            } else {
                so_far
            },
            _ => so_far,
        }
    }
}

/// The last message among frames.
pub open spec fn last_message(frames: Seq<Arc<Frame>>) -> Option<Arc<Frame>>
    decreases frames.len(),
{
    if frames.len() == 0 {
        None
    } else if frames.last().opcode == FRAME {
        Some(frames.last())
    } else {
        last_message(frames.drop_last())
    }
}

/// Throughout a session, whether Discord is there or not, the message that the gateway
/// keeps for a new connection is the last one that the game has sent.
pub proof fn keeps_the_last_message(g: Gateway, events: Seq<Event>)
    requires
        kept(g) is None,
        forall|n: int|
            0 <= n <= events.len() ==> in_full_swing(#[trigger] after_all(g, events.take(n))),
    ensures
        kept(after_all(g, events)) == last_message(heard(g, events)),
    decreases events.len(),
{
    if events.len() > 0 {
        let earlier = events.drop_last();
        lemma_earlier(events);
        keeps_the_last_message(g, earlier);
        assert(in_full_swing(after_all(g, events.take(events.len() - 1))));
        assert(in_full_swing(after_all(g, events.take(events.len() as int))));
        let frames = heard(g, events);
        if frames.len() > heard(g, earlier).len() {
            assert(frames.drop_last() =~= heard(g, earlier));
        }
    }
}

/// A connection that replaces a lost one is sent the kept message first, and only then
/// read from; without a message it is read from at once.
pub proof fn reconnecting_replays_the_kept_message(
    g: Gateway,
    origin: Origin,
    link: Link,
    ready: Option<Arc<Frame>>,
)
    requires
        g.phase == (Phase::Session {
            origin,
            stage: SessionStage::Proxy { link, step: ProxyStep::Reopening },
        }),
    ensures
        g.asks() == Request::OpenDiscord(&link.conn.client_id),
        link.last_frame matches Some(last) ==> g.after(Event::Opened(ready)).0.asks()
            == Request::WriteDiscord(&last),
        link.last_frame is Some ==> g.after(Event::Opened(ready)).0.after(Event::Done).0.asks()
            is StartReader,
        link.last_frame is None ==> g.after(Event::Opened(ready)).0.asks() is StartReader,
{
}

/// Whether a session has already sent the game a READY.
pub open spec fn greeted(phase: Phase) -> bool {
    match phase {
        Phase::Session { stage, .. } => match stage {
            SessionStage::Connecting(attempt) => attempt.ready_sent,
            SessionStage::Retrying(attempt) => attempt.ready_sent,
            SessionStage::Replaying { .. }
            | SessionStage::StartingReader(_)
            | SessionStage::Proxy { .. } => true,
            _ => false,
        },
        _ => false,
    }
}

/// A game that has its READY is not sent another in the same session: from then on it is
/// sent only what Discord sends.
pub proof fn ready_is_sent_once(g: Gateway, events: Seq<Event>)
    requires
        greeted(g.phase),
        forall|n: int|
            0 <= n <= events.len() ==> (#[trigger] after_all(g, events.take(n))).phase is Session,
    ensures
        greeted(after_all(g, events).phase),
        after_all(g, events).asks() is WritePipe ==> (after_all(g, events).phase
            matches Phase::Session { stage: SessionStage::Proxy { step: ProxyStep::ToGame(_), .. }, .. }),
    decreases events.len(),
{
    if events.len() > 0 {
        let earlier = events.drop_last();
        lemma_earlier(events);
        ready_is_sent_once(g, earlier);
        assert(after_all(g, events.take(events.len() as int)).phase is Session);
    }
}

/// While Discord cannot be reached, a game that waits is sent the READY of an earlier
/// connection, once; the last message that it leaves meanwhile goes to Discord as soon as
/// a connection is there.
pub proof fn facade_answers_for_discord(
    g: Gateway,
    ready: Arc<Frame>,
    message: Arc<Frame>,
    accepted: Option<Arc<Frame>>,
)
    requires
        g.phase matches Phase::Session { stage: SessionStage::Connecting(attempt), .. }
            && !attempt.ready_sent,
        g.cached_ready == Some(ready),
        message.opcode == FRAME,
    ensures
        ({
            let facade = g.after(Event::OpenFailed).0;
            let waiting = facade.after(Event::Done).0;
            let retried = waiting.after(Event::PipeFrame(message)).0;
            let failed_again = retried.after(Event::OpenFailed).0;
            let connected = retried.after(Event::Opened(accepted)).0;
            &&& facade.asks() == Request::WritePipe(&ready)
            &&& waiting.asks() is Wait
            &&& greeted(waiting.phase)
            &&& retried.asks() == g.asks()
            &&& failed_again.asks() is Wait
            &&& connected.asks() == Request::WriteDiscord(&message)
        }),
{
}

/// The game that Discovery goes on with when a session ends: the one that it knows, unless
/// its end was reported.
pub open spec fn known_game(phase: Phase) -> Option<GameInfo> {
    match phase {
        Phase::Session { origin, stage } => if stage matches SessionStage::Proxy { link, .. }
            && link.game_exited {
            None
        } else {
            match origin {
                Origin::Direct => None,
                Origin::Retry(game) => Some(game),
                Origin::Monitor(game) => Some(game),
            }
        },
        _ => None,
    }
}

/// Whether a session has the game's handshake.
pub open spec fn past_handshake(phase: Phase) -> bool {
    phase matches Phase::Session { stage, .. } && !(stage is Handshake)
}

/// Whether an event is the scanner's: a report, or its end.
pub open spec fn from_scanner(event: Event) -> bool {
    event is Discovery || event is DiscoveryClosed
}

/// Whether an event takes the known game away: its end is reported, or the scanner is gone.
pub open spec fn reports_exit(event: Event) -> bool {
    event is DiscoveryClosed || (event matches Event::Discovery(
        DiscoveryEvent::GameExited { .. },
    ))
}

/// When a session that has the game's handshake ends while the game that Discovery knows
/// still runs, at whatever stage and however it ends, Discovery takes over with that game;
/// only what the scanner reports can have it otherwise.
pub proof fn discovery_takes_over(g: Gateway, event: Event)
    requires
        past_handshake(g.phase),
        known_game(g.phase) is Some,
        !from_scanner(event),
    ensures
        ({
            let next = g.after(event).0.phase;
            ||| past_handshake(next) && known_game(next) == known_game(g.phase)
            ||| (next matches Phase::Discovery { game, stage: DiscoveryStage::Recreating { .. } }
                && Some(game) == known_game(g.phase))
        }),
{
}

/// A game that the scanner finds during a session is taken up, if Discovery knows of none
/// that runs.
pub proof fn detected_game_is_taken_up(g: Gateway, game: GameInfo)
    requires
        g.phase is Session,
        known_game(g.phase) is None,
        answers(g.asks(), detection(game)),
    ensures
        past_handshake(g.after(detection(game)).0.phase),
        known_game(g.after(detection(game)).0.phase) == Some(game),
        g.after(detection(game)).1.len() == 0,
{
}

/// The event that reports a game.
pub open spec fn detection(game: GameInfo) -> Event {
    Event::Discovery(
        DiscoveryEvent::GameDetected {
            app_id: game.app_id,
            app_name: game.app_name,
            pid: game.pid,
        },
    )
}

proof fn lemma_known_game_stays(g: Gateway, events: Seq<Event>)
    requires
        past_handshake(g.phase),
        known_game(g.phase) is Some,
        forall|n: int|
            0 <= n <= events.len() ==> (#[trigger] after_all(g, events.take(n))).phase is Session,
        forall|i: int| 0 <= i < events.len() ==> !reports_exit(#[trigger] events[i]),
    ensures
        past_handshake(after_all(g, events).phase),
        known_game(after_all(g, events).phase) == known_game(g.phase),
    decreases events.len(),
{
    if events.len() > 0 {
        let earlier = events.drop_last();
        lemma_earlier(events);
        lemma_known_game_stays(g, earlier);
        assert(after_all(g, events.take(events.len() as int)).phase is Session);
        assert(!reports_exit(events[events.len() - 1]));
    }
}

/// A game that opened the pipe first, or came after one that has ended, and is found during
/// its session: however long the session goes on from there, and however it ends, Discovery
/// shows that game next, unless the scanner has reported its end.
pub proof fn game_found_in_a_session_is_shown_after_it(
    g: Gateway,
    game: GameInfo,
    events: Seq<Event>,
    end: Event,
    ready: Option<Arc<Frame>>,
)
    requires
        g.phase is Session,
        known_game(g.phase) is None,
        answers(g.asks(), detection(game)),
        ({
            let found = g.after(detection(game)).0;
            forall|n: int|
                0 <= n <= events.len() ==> (#[trigger] after_all(
                    found,
                    events.take(n),
                )).phase is Session
        }),
        forall|i: int| 0 <= i < events.len() ==> !reports_exit(#[trigger] events[i]),
        !from_scanner(end),
        !(after_all(g.after(detection(game)).0, events).after(end).0.phase is Session),
    ensures
        ({
            let ended = after_all(g.after(detection(game)).0, events).after(end).0;
            let opening = ended.after(Event::PipeCreated).0;
            let opened = opening.after(Event::Opened(ready)).0;
            &&& ended.phase matches Phase::Discovery { game: shown, .. } && shown == game
            &&& ended.asks() is CreatePipe
            &&& opening.asks() == Request::OpenDiscord(&game.app_id)
            &&& opened.asks() == Request::SendActivity(&game.app_name, game.pid)
        }),
{
    detected_game_is_taken_up(g, game);
    let found = g.after(detection(game)).0;
    lemma_known_game_stays(found, events);
    discovery_takes_over(after_all(found, events), end);
}

/// Discovery resumes without delay: whenever a session gives way to Discovery, the pipe is
/// created anew and a connection is opened for the same game, with no pause between.
pub proof fn discovery_resumes_at_once(g: Gateway, event: Event)
    requires
        g.phase is Session,
        g.after(event).0.phase is Discovery,
    ensures
        ({
            let closed = g.after(event).0;
            let resumed = closed.after(Event::PipeCreated).0;
            &&& closed.asks() is CreatePipe
            &&& (g.phase->Session_origin matches Origin::Retry(game) ==> resumed.phase == (
            Phase::Discovery { game, stage: DiscoveryStage::Opening }) && resumed.asks()
                == Request::OpenDiscord(&game.app_id))
            &&& (g.phase->Session_origin matches Origin::Monitor(game) ==> resumed.phase == (
            Phase::Discovery { game, stage: DiscoveryStage::Opening }) && resumed.asks()
                == Request::OpenDiscord(&game.app_id))
            &&& !(g.phase->Session_origin is Direct)
        }),
{
}

/// A game that the scanner has reported as ended is not shown again: its session may go on,
/// and when it ends with no other game found since, the gateway starts over.
pub proof fn ended_game_is_not_resumed(g: Gateway, event: Event)
    requires
        g.phase matches Phase::Session { stage: SessionStage::Proxy { link, .. }, .. }
            && link.game_exited,
        !(event matches Event::Discovery(DiscoveryEvent::GameDetected { .. })),
    ensures
        match g.after(event).0.phase {
            Phase::Session { stage: SessionStage::Proxy { link, .. }, .. } => link.game_exited,
            Phase::Creating => true,
            _ => false,
        },
{
}

/// A detected game is shown: a connection is opened for its application, and the activity
/// is set to its name and process.
pub proof fn detected_game_is_shown(
    g: Gateway,
    app_id: String,
    app_name: String,
    pid: u32,
    ready: Option<Arc<Frame>>,
)
    requires
        g.phase is Idle,
    ensures
        ({
            let detected = Event::Discovery(
                DiscoveryEvent::GameDetected { app_id, app_name, pid },
            );
            let opening = g.after(detected).0;
            let opened = opening.after(Event::Opened(ready)).0;
            &&& opening.asks() == Request::OpenDiscord(&app_id)
            &&& opened.asks() == Request::SendActivity(&app_name, pid)
            &&& opened.after(Event::Done).0.asks() is StartReader
        }),
{
}

/// When the scanner reports that the game has ended, Discovery clears the activity, closes
/// the pipe, and starts over.
pub proof fn exit_ends_discovery(g: Gateway, app_id: String)
    requires
        g.phase matches Phase::Discovery { stage, .. } && (stage is Monitoring
            || stage is Retrying),
    ensures
        ({
            let (next, effects) = g.after(Event::Discovery(DiscoveryEvent::GameExited { app_id }));
            &&& next.phase is Creating
            &&& effects.contains(Effect::DropPipe)
            &&& holds_connection(g.phase) ==> effects.contains(Effect::ClearAndClose)
        }),
{
    let effects = g.after(Event::Discovery(DiscoveryEvent::GameExited { app_id })).1;
    assert(effects.contains(effects[0]));
    if effects.len() > 1 {
        assert(effects.contains(effects[1]));
    }
}

/// A session on the connection that Discovery lends goes on with that connection exactly
/// when the game announces the same client id; otherwise the connection is closed and one
/// is opened for the game's own.
pub proof fn same_client_reuses_the_connection(g: Gateway, origin: Origin, client_id: String)
    requires
        g.phase matches Phase::Session { origin: o, stage: SessionStage::Handshake(Some(conn)) }
            && o == origin,
    ensures
        g.phase matches Phase::Session { stage: SessionStage::Handshake(Some(conn)), .. } && {
            let (next, effects) = g.after(Event::Hello(client_id));
            &&& client_id@ == conn.client_id@ ==> holds_connection(next.phase) && effects
                == seq![Effect::SendNullActivity]
            &&& client_id@ != conn.client_id@ ==> next.asks() == Request::OpenDiscord(&client_id)
                && effects == seq![Effect::ClearAndClose]
        },
{
}

/// A session on the connection that Discovery lends passes frames as soon as the game has
/// its READY: nothing is replayed, and no reader is started.
pub proof fn lent_connection_is_read_on(g: Gateway, conn: Connection, client_id: String)
    requires
        g.phase matches Phase::Session { stage: SessionStage::Handshake(Some(lent)), .. } && lent
            == conn,
        client_id@ == conn.client_id@,
    ensures
        ({
            let greeting = g.after(Event::Hello(client_id)).0;
            let passing = match conn.cached_ready {
                Some(_) => greeting.after(Event::Done).0,
                None => greeting,
            };
            &&& conn.cached_ready matches Some(ready) ==> greeting.asks() == Request::WritePipe(
                &ready,
            )
            &&& passing.phase matches Phase::Session {
                stage: SessionStage::Proxy { link, step: ProxyStep::Waiting },
                ..
            } && link.conn == conn
        }),
{
}

/// The three modes of the gateway.
pub enum Mode {
    Idle,
    Discovery,
    GameConnected,
}

/// The mode of a phase.
pub open spec fn mode(phase: Phase) -> Mode {
    match phase {
        Phase::Creating | Phase::Backoff | Phase::Idle => Mode::Idle,
        Phase::Discovery { .. } => Mode::Discovery,
        Phase::Session { .. } => Mode::GameConnected,
    }
}

/// The gateway cycles through Idle, Discovery and GameConnected: it enters Discovery from
/// Idle only when a game is detected, and enters GameConnected only when a game opens the
/// pipe.
pub proof fn modes_change_on_their_events(g: Gateway, event: Event)
    ensures
        mode(g.phase) is Idle && mode(g.after(event).0.phase) is Discovery ==> (event
            matches Event::Discovery(DiscoveryEvent::GameDetected { .. })),
        !(mode(g.phase) is GameConnected) && mode(g.after(event).0.phase) is GameConnected
            ==> event is PipeConnected,
        mode(g.phase) is GameConnected && mode(g.after(event).0.phase) is Discovery ==> (
        g.phase matches Phase::Session { origin, .. } && origin.game_known()),
{
}

} // verus!
