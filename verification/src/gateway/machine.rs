//! The gateway as a state machine. The machine says what it asks of the outside world;
//! the answer comes back as an event, which moves the machine on and yields the effects
//! to carry out, in order, before the next request.
//!
//! Idle, the named pipe is up and nothing else. A detected game leads to Discovery, which
//! opens a connection to Discord and shows the game as the activity. A game that opens the
//! pipe leads to a session, which passes frames both ways between the game and Discord.
use crate::gateway::discord;
use crate::gateway::discord::Connection;
use crate::gateway::frame::{Frame, CLOSE, FRAME, HANDSHAKE};
use crate::shared::DiscoveryEvent;
use crate::text::same_text;
use std::sync::Arc;
use vstd::prelude::*;
use vstd::string::*;

verus! {

/// `Arc::clone`: another handle on the same frame.
#[verifier::external_body]
fn share(frame: &Arc<Frame>) -> (r: Arc<Frame>)
    ensures
        r == *frame,
{
    Arc::clone(frame)
}

/// The game that the process scanner found.
pub struct GameInfo {
    pub app_id: String,
    pub app_name: String,
    pub pid: u32,
}

/// Where the gateway stands.
#[allow(inconsistent_fields)]
pub enum Phase {
    /// The pipe is being created.
    Creating,
    /// The pipe could not be created; a pause before the next attempt.
    Backoff,
    /// The pipe is up; nothing else is going on.
    Idle,
    /// A game runs and shows as the activity, or is about to.
    Discovery { game: GameInfo, stage: DiscoveryStage },
    /// A game has opened the pipe.
    Session { origin: Origin, stage: SessionStage },
}

/// The stages of Discovery.
pub enum DiscoveryStage {
    /// The game has closed its session; the pipe is being created anew. A stale
    /// connection is still to be closed.
    Recreating { stale: bool },
    /// A connection is being opened for the game's application.
    Opening,
    /// Opening failed; a pause before the next attempt.
    Retrying,
    /// The activity is being set.
    SettingActivity(Connection),
    /// The reader of Discord's frames is being started.
    StartingReader(Connection),
    /// The activity shows.
    Monitoring(Connection),
}

/// What was going on when the game opened the pipe, and which game Discovery knows.
pub enum Origin {
    /// Nothing: the gateway was idle, and no game has been found since.
    Direct,
    /// Discovery was waiting to open a connection for this game, or the scanner has found
    /// it since.
    Retry(GameInfo),
    /// Discovery was showing this game, or the one before it, and its connection goes to
    /// the session.
    Monitor(GameInfo),
}

/// An attempt to open a connection while the game waits.
pub struct Attempt {
    pub client_id: String,
    /// Whether the game has been sent the READY of an earlier connection.
    pub ready_sent: bool,
    /// The last message that the game has sent meanwhile.
    pub last_frame: Option<Arc<Frame>>,
}

/// A session in full swing.
pub struct Link {
    pub conn: Connection,
    /// The last message that the game has sent.
    pub last_frame: Option<Arc<Frame>>,
    /// Whether the scanner has reported the end of the game.
    pub game_exited: bool,
}

/// The stages of a session.
pub enum SessionStage {
    /// The game's handshake is awaited; the connection is Discovery's, if it had one.
    Handshake(Option<Connection>),
    /// A connection is being opened for the game's client id.
    Connecting(Attempt),
    /// Opening failed; the game is being sent the READY of an earlier connection.
    Facade { attempt: Attempt, ready: Arc<Frame> },
    /// Opening failed; a pause before the next attempt, with the pipe kept alive.
    Retrying(Attempt),
    /// The game is being sent the connection's READY. The reader of a connection that
    /// Discovery lent runs already.
    SendingReady {
        conn: Connection,
        ready: Arc<Frame>,
        replay: Option<Arc<Frame>>,
        reading: bool,
    },
    /// Discord is being sent the game's last message.
    Replaying { conn: Connection, message: Arc<Frame> },
    /// The reader of Discord's frames is being started.
    StartingReader(Connection),
    /// Frames pass both ways.
    Proxy { link: Link, step: ProxyStep },
}

/// What a session in full swing is doing.
pub enum ProxyStep {
    /// It waits for the next frame from either side.
    Waiting,
    /// It passes a frame of the game on to Discord.
    ToDiscord(Arc<Frame>),
    /// It passes a frame of Discord on to the game.
    ToGame(Arc<Frame>),
    /// It has lost Discord and opens a new connection.
    Reopening,
    /// It sends the game's last message over the new connection.
    Replaying(Arc<Frame>),
    /// It starts the reader of the new connection.
    RestartingReader,
    /// The new connection could not be had; a pause before the next attempt.
    Retrying,
}

/// Where the next event may come from.
pub struct Sources {
    pub pipe_connect: bool,
    pub pipe_read: bool,
    pub discord: bool,
    pub discovery: bool,
    pub timer: bool,
}

/// What the machine asks of the outside world.
pub enum Request<'a> {
    /// Create the named pipe.
    CreatePipe,
    /// Pause for the scan interval.
    Sleep,
    /// Wait for the first event of these sources; the timer runs for the scan interval.
    Wait(Sources),
    /// Read the game's handshake from the pipe.
    ReadHandshake,
    /// Open a connection to Discord on behalf of this client id.
    OpenDiscord(&'a String),
    /// Show this game as the activity.
    SendActivity(&'a String, u32),
    /// Start the reader of Discord's frames.
    StartReader,
    /// Send this frame to the game.
    WritePipe(&'a Arc<Frame>),
    /// Send this frame to Discord.
    WriteDiscord(&'a Arc<Frame>),
}

/// What the outside world answers.
pub enum Event {
    PipeCreated,
    PipeCreateFailed,
    /// The pause is over.
    Elapsed,
    Discovery(DiscoveryEvent),
    /// The scanner has gone.
    DiscoveryClosed,
    /// A game has opened the pipe.
    PipeConnected,
    PipeConnectFailed,
    /// The game's handshake names this client id.
    Hello(String),
    /// The game's first frame is no handshake that names a client id.
    NoHello,
    PipeFrame(Arc<Frame>),
    PipeReadFailed,
    DiscordFrame(Arc<Frame>),
    /// Discord's side of the connection is gone.
    DiscordLost,
    /// Discord has accepted the session, with this READY.
    Opened(Option<Arc<Frame>>),
    OpenFailed,
    /// The activity was set, the reader started, or the frame sent.
    Done,
    /// The activity was not set, the reader not started, or the frame not sent.
    Failed,
}

/// What to carry out; no outcome is awaited.
pub enum Effect {
    /// Close the pipe.
    DropPipe,
    /// Clear the activity, then close the connection to Discord.
    ClearAndClose,
    /// Clear the activity.
    SendNullActivity,
    /// Send this frame to the game.
    WritePipe(Arc<Frame>),
}

/// The state of the gateway.
pub struct Gateway {
    /// The READY of the last connection that Discord accepted.
    pub cached_ready: Option<Arc<Frame>>,
    pub phase: Phase,
}

/// The client id that a game's first frame announces, if it is a handshake that names one.
pub open spec fn hello(first: Frame) -> Option<Seq<char>> {
    if first.opcode == HANDSHAKE {
        discord::announced_client(first.payload@)
    } else {
        None
    }
}

/// The event that a game's first frame amounts to.
pub fn hello_event(first: &Frame) -> (r: Event)
    ensures
        match hello(*first) {
            Some(id) => r matches Event::Hello(client_id) && client_id@ == id,
            None => r is NoHello,
        },
        first.opcode == HANDSHAKE ==> discord::gives_back_the_client(
            first.payload@,
            match r {
                Event::Hello(client_id) => Some(client_id@),
                _ => None,
            },
        ),
{
    if first.opcode != HANDSHAKE {
        return Event::NoHello;
    }
    match discord::extract_client_id(first.payload.as_slice()) {
        Some(client_id) => Event::Hello(client_id),
        None => Event::NoHello,
    }
}

impl Origin {
    /// Whether Discovery knows the game's process.
    pub open spec fn game_known(self) -> bool {
        !(self is Direct)
    }

    /// Whether the session closes its connection itself when it ends. Where Discovery
    /// lent the connection, closing it is Discovery's business.
    pub open spec fn owns_connection(self) -> bool {
        !(self is Monitor)
    }

    /// The origin once Discovery knows this game: what becomes of the connection stays as
    /// it was.
    pub open spec fn with_game(self, game: GameInfo) -> Origin {
        match self {
            Origin::Direct | Origin::Retry(_) => Origin::Retry(game),
            Origin::Monitor(_) => Origin::Monitor(game),
        }
    }

    /// The origin after the scanner has found a game, in a session that has yet to reach
    /// Discord: the game is taken up where none was known.
    pub open spec fn detecting(self, game: GameInfo) -> Origin {
        if self is Direct {
            self.with_game(game)
        } else {
            self
        }
    }
}

/// The origin and the link of a session in full swing after the scanner has found a game:
/// the game is taken up where none was known, or where the known one has ended.
pub open spec fn detected(origin: Origin, link: Link, game: GameInfo) -> (Origin, Link) {
    if origin is Direct || link.game_exited {
        (origin.with_game(game), Link { game_exited: false, ..link })
    } else {
        (origin, link)
    }
}

/// The READY to remember after a connection was accepted.
pub open spec fn remembered(
    before: Option<Arc<Frame>>,
    ready: Option<Arc<Frame>>,
) -> Option<Arc<Frame>> {
    if ready is Some {
        ready
    } else {
        before
    }
}

/// Where the gateway goes when a session ends, and what it carries out: the pipe is
/// closed; while the game still runs, Discovery goes on with it, and otherwise a
/// connection of Discovery's is closed and the gateway starts over.
pub open spec fn ended(origin: Origin, running: bool) -> (Phase, Seq<Effect>) {
    match origin {
        Origin::Direct => (Phase::Creating, seq![Effect::DropPipe]),
        Origin::Retry(game) => if running {
            (
                Phase::Discovery { game, stage: DiscoveryStage::Recreating { stale: false } },
                seq![Effect::DropPipe],
            )
        } else {
            (Phase::Creating, seq![Effect::DropPipe])
        },
        Origin::Monitor(game) => if running {
            (
                Phase::Discovery { game, stage: DiscoveryStage::Recreating { stale: true } },
                seq![Effect::DropPipe],
            )
        } else {
            (Phase::Creating, seq![Effect::DropPipe, Effect::ClearAndClose])
        },
    }
}

/// The same, for a session that has a connection: it closes the connection first, if it
/// is its own.
pub open spec fn ended_connected(origin: Origin, running: bool) -> (Phase, Seq<Effect>) {
    let (phase, effects) = ended(origin, running);
    if origin.owns_connection() {
        (phase, seq![Effect::ClearAndClose] + effects)
    } else {
        (phase, effects)
    }
}

/// What a session does with a connection once the game has its READY: it sends the
/// message that the game has left meanwhile, or else starts the reader.
pub open spec fn replay_or_start(conn: Connection, replay: Option<Arc<Frame>>) -> SessionStage {
    match replay {
        Some(message) => SessionStage::Replaying { conn, message },
        None => SessionStage::StartingReader(conn),
    }
}

/// A session that has just come into full swing.
pub open spec fn full_swing(conn: Connection) -> SessionStage {
    SessionStage::Proxy {
        link: Link { conn, last_frame: None, game_exited: false },
        step: ProxyStep::Waiting,
    }
}

/// What a session does with the connection that Discovery lends: the game gets its READY,
/// and frames pass from then on, since the reader runs already.
pub open spec fn take_over(conn: Connection) -> SessionStage {
    match conn.cached_ready {
        Some(ready) => SessionStage::SendingReady { conn, ready, replay: None, reading: true },
        None => full_swing(conn),
    }
}

/// What a session does with a new connection: the game gets its READY, unless it already
/// has one.
pub open spec fn greet(
    conn: Connection,
    ready_sent: bool,
    replay: Option<Arc<Frame>>,
) -> SessionStage {
    match conn.cached_ready {
        Some(ready) => if ready_sent {
            replay_or_start(conn, replay)
        } else {
            SessionStage::SendingReady { conn, ready, replay, reading: false }
        },
        None => replay_or_start(conn, replay),
    }
}

/// The message to replay after the game has sent a frame.
pub open spec fn latest(before: Option<Arc<Frame>>, sent: Arc<Frame>) -> Option<Arc<Frame>> {
    if sent.opcode == FRAME {
        Some(sent)
    } else {
        before
    }
}

impl Gateway {
    /// A session starts on a lent connection exactly where Discovery had one to lend, and
    /// only such a connection is read before the game has its READY.
    pub open spec fn wf(self) -> bool {
        match self.phase {
            Phase::Session { origin, stage: SessionStage::Handshake(lent) } => (lent is Some) == (
            origin is Monitor),
            Phase::Session { origin, stage: SessionStage::SendingReady { reading, .. } } => reading
                ==> origin is Monitor,
            _ => true,
        }
    }

    /// The same gateway in another phase.
    pub open spec fn at(self, phase: Phase) -> Gateway {
        Gateway { cached_ready: self.cached_ready, phase }
    }

    /// The same gateway, after a connection was accepted with this READY.
    pub open spec fn with_ready(self, ready: Option<Arc<Frame>>) -> Gateway {
        Gateway { cached_ready: remembered(self.cached_ready, ready), phase: self.phase }
    }

    /// The gateway and the effects after an event.
    pub open spec fn after(self, event: Event) -> (Gateway, Seq<Effect>) {
        match self.phase {
            Phase::Creating => match event {
                Event::PipeCreated => (self.at(Phase::Idle), seq![]),
                Event::PipeCreateFailed => (self.at(Phase::Backoff), seq![]),
                _ => (self, seq![]),
            },
            Phase::Backoff => match event {
                Event::Elapsed => (self.at(Phase::Creating), seq![]),
                _ => (self, seq![]),
            },
            Phase::Idle => match event {
                Event::Discovery(DiscoveryEvent::GameDetected { app_id, app_name, pid }) => (
                    self.at(
                        Phase::Discovery {
                            game: GameInfo { app_id, app_name, pid },
                            stage: DiscoveryStage::Opening,
                        },
                    ),
                    seq![],
                ),
                Event::DiscoveryClosed | Event::PipeConnectFailed => (
                    self.at(Phase::Creating),
                    seq![Effect::DropPipe],
                ),
                Event::PipeConnected => (
                    self.at(
                        Phase::Session {
                            origin: Origin::Direct,
                            stage: SessionStage::Handshake(None),
                        },
                    ),
                    seq![],
                ),
                _ => (self, seq![]),
            },
            Phase::Discovery { game, stage } => self.after_discovery(game, stage, event),
            Phase::Session { origin, stage } => self.after_session(origin, stage, event),
        }
    }

    /// The gateway and the effects after an event in Discovery.
    pub open spec fn after_discovery(
        self,
        game: GameInfo,
        stage: DiscoveryStage,
        event: Event,
    ) -> (Gateway, Seq<Effect>) {
        let opening = self.at(Phase::Discovery { game, stage: DiscoveryStage::Opening });
        match stage {
            DiscoveryStage::Recreating { stale } => {
                let close = if stale {
                    seq![Effect::ClearAndClose]
                } else {
                    seq![]
                };
                match event {
                    Event::PipeCreated => (opening, close),
                    Event::PipeCreateFailed => (self.at(Phase::Creating), close),
                    _ => (self, seq![]),
                }
            },
            DiscoveryStage::Opening => match event {
                Event::Opened(ready) => (
                    self.with_ready(ready).at(
                        Phase::Discovery {
                            game,
                            stage: DiscoveryStage::SettingActivity(
                                Connection { client_id: game.app_id, cached_ready: ready },
                            ),
                        },
                    ),
                    seq![],
                ),
                Event::OpenFailed => (
                    self.at(Phase::Discovery { game, stage: DiscoveryStage::Retrying }),
                    seq![],
                ),
                _ => (self, seq![]),
            },
            DiscoveryStage::Retrying => match event {
                Event::Elapsed | Event::Discovery(DiscoveryEvent::GameDetected { .. }) => (
                    opening,
                    seq![],
                ),
                Event::Discovery(DiscoveryEvent::GameExited { .. })
                | Event::DiscoveryClosed
                | Event::PipeConnectFailed => (self.at(Phase::Creating), seq![Effect::DropPipe]),
                Event::PipeConnected => (
                    self.at(
                        Phase::Session {
                            origin: Origin::Retry(game),
                            stage: SessionStage::Handshake(None),
                        },
                    ),
                    seq![],
                ),
                _ => (self, seq![]),
            },
            DiscoveryStage::SettingActivity(conn) => match event {
                Event::Done => (
                    self.at(
                        Phase::Discovery { game, stage: DiscoveryStage::StartingReader(conn) },
                    ),
                    seq![],
                ),
                Event::Failed => (opening, seq![Effect::ClearAndClose]),
                _ => (self, seq![]),
            },
            DiscoveryStage::StartingReader(conn) => match event {
                Event::Done => (
                    self.at(Phase::Discovery { game, stage: DiscoveryStage::Monitoring(conn) }),
                    seq![],
                ),
                Event::Failed => (opening, seq![Effect::ClearAndClose]),
                _ => (self, seq![]),
            },
            DiscoveryStage::Monitoring(conn) => match event {
                Event::Discovery(DiscoveryEvent::GameExited { .. })
                | Event::DiscoveryClosed
                | Event::PipeConnectFailed => (
                    self.at(Phase::Creating),
                    seq![Effect::ClearAndClose, Effect::DropPipe],
                ),
                Event::PipeConnected => (
                    self.at(
                        Phase::Session {
                            origin: Origin::Monitor(game),
                            stage: SessionStage::Handshake(Some(conn)),
                        },
                    ),
                    seq![],
                ),
                Event::DiscordFrame(sent) => if sent.opcode == CLOSE {
                    (opening, seq![Effect::ClearAndClose])
                } else {
                    (self, seq![])
                },
                Event::DiscordLost => (opening, seq![Effect::ClearAndClose]),
                _ => (self, seq![]),
            },
        }
    }

    /// The gateway and the effects when a session ends.
    pub open spec fn after_end(self, end: (Phase, Seq<Effect>)) -> (Gateway, Seq<Effect>) {
        (self.at(end.0), end.1)
    }

    /// The gateway and the effects after an event in a session.
    pub open spec fn after_session(
        self,
        origin: Origin,
        stage: SessionStage,
        event: Event,
    ) -> (Gateway, Seq<Effect>) {
        match stage {
            SessionStage::Handshake(lent) => match event {
                Event::Hello(client_id) => match lent {
                    Some(conn) => if client_id@ == conn.client_id@ {
                        (
                            self.at(
                                Phase::Session { origin, stage: take_over(conn) },
                            ),
                            seq![Effect::SendNullActivity],
                        )
                    } else {
                        (
                            self.at(
                                Phase::Session {
                                    origin,
                                    stage: SessionStage::Connecting(
                                        Attempt { client_id, ready_sent: false, last_frame: None },
                                    ),
                                },
                            ),
                            seq![Effect::ClearAndClose],
                        )
                    },
                    None => (
                        self.at(
                            Phase::Session {
                                origin,
                                stage: SessionStage::Connecting(
                                    Attempt { client_id, ready_sent: false, last_frame: None },
                                ),
                            },
                        ),
                        seq![],
                    ),
                },
                Event::NoHello | Event::PipeReadFailed => self.after_end(ended(origin, false)),
                _ => (self, seq![]),
            },
            SessionStage::Connecting(attempt) => match event {
                Event::Opened(ready) => (
                    self.with_ready(ready).at(
                        Phase::Session {
                            origin,
                            stage: greet(
                                Connection { client_id: attempt.client_id, cached_ready: ready },
                                attempt.ready_sent,
                                attempt.last_frame,
                            ),
                        },
                    ),
                    seq![],
                ),
                Event::OpenFailed => (
                    self.at(
                        Phase::Session {
                            origin,
                            stage: match self.cached_ready {
                                Some(ready) => if attempt.ready_sent {
                                    SessionStage::Retrying(attempt)
                                } else {
                                    SessionStage::Facade { attempt, ready }
                                },
                                None => SessionStage::Retrying(attempt),
                            },
                        },
                    ),
                    seq![],
                ),
                _ => (self, seq![]),
            },
            SessionStage::Facade { attempt, ready } => match event {
                Event::Done => (
                    self.at(
                        Phase::Session {
                            origin,
                            stage: SessionStage::Retrying(Attempt { ready_sent: true, ..attempt }),
                        },
                    ),
                    seq![],
                ),
                Event::Failed => self.after_end(ended(origin, origin.game_known())),
                _ => (self, seq![]),
            },
            SessionStage::Retrying(attempt) => match event {
                Event::PipeFrame(sent) => (
                    self.at(
                        Phase::Session {
                            origin,
                            stage: SessionStage::Connecting(
                                Attempt { last_frame: latest(attempt.last_frame, sent), ..attempt },
                            ),
                        },
                    ),
                    seq![],
                ),
                Event::PipeReadFailed => self.after_end(ended(origin, origin.game_known())),
                Event::Discovery(DiscoveryEvent::GameExited { .. })
                | Event::DiscoveryClosed => self.after_end(ended(origin, false)),
                Event::Discovery(DiscoveryEvent::GameDetected { app_id, app_name, pid }) => (
                    self.at(
                        Phase::Session {
                            origin: origin.detecting(GameInfo { app_id, app_name, pid }),
                            stage: SessionStage::Connecting(attempt),
                        },
                    ),
                    seq![],
                ),
                Event::Elapsed => (
                    self.at(
                        Phase::Session { origin, stage: SessionStage::Connecting(attempt) },
                    ),
                    seq![],
                ),
                _ => (self, seq![]),
            },
            SessionStage::SendingReady { conn, ready, replay, reading } => match event {
                Event::Done => (
                    self.at(
                        Phase::Session {
                            origin,
                            stage: if reading {
                                full_swing(conn)
                            } else {
                                replay_or_start(conn, replay)
                            },
                        },
                    ),
                    seq![],
                ),
                Event::Failed => self.after_end(ended_connected(origin, origin.game_known())),
                _ => (self, seq![]),
            },
            SessionStage::Replaying { conn, message } => match event {
                Event::Done => (
                    self.at(Phase::Session { origin, stage: SessionStage::StartingReader(conn) }),
                    seq![],
                ),
                Event::Failed => self.after_end(ended_connected(origin, origin.game_known())),
                _ => (self, seq![]),
            },
            SessionStage::StartingReader(conn) => match event {
                Event::Done => (
                    self.at(Phase::Session { origin, stage: full_swing(conn) }),
                    seq![],
                ),
                Event::Failed => self.after_end(ended_connected(origin, origin.game_known())),
                _ => (self, seq![]),
            },
            SessionStage::Proxy { link, step } => self.after_proxy(origin, link, step, event),
        }
    }

    /// The gateway in a session in full swing.
    pub open spec fn proxying(self, origin: Origin, link: Link, step: ProxyStep) -> Gateway {
        self.at(Phase::Session { origin, stage: SessionStage::Proxy { link, step } })
    }

    /// The gateway and the effects after an event in a session in full swing.
    pub open spec fn after_proxy(
        self,
        origin: Origin,
        link: Link,
        step: ProxyStep,
        event: Event,
    ) -> (Gateway, Seq<Effect>) {
        let reopening = (
            self.proxying(origin, link, ProxyStep::Reopening),
            seq![Effect::ClearAndClose],
        );
        let end = self.after_end(ended_connected(origin, !link.game_exited));
        match step {
            ProxyStep::Waiting => match event {
                Event::PipeFrame(sent) => (
                    self.proxying(
                        origin,
                        Link { last_frame: latest(link.last_frame, sent), ..link },
                        ProxyStep::ToDiscord(sent),
                    ),
                    seq![],
                ),
                Event::PipeReadFailed => end,
                Event::DiscordFrame(sent) => if sent.opcode == CLOSE {
                    (end.0, seq![Effect::WritePipe(sent)] + end.1)
                } else {
                    (self.proxying(origin, link, ProxyStep::ToGame(sent)), seq![])
                },
                Event::DiscordLost => reopening,
                Event::Discovery(DiscoveryEvent::GameExited { .. }) => (
                    self.proxying(
                        origin,
                        Link { game_exited: true, ..link },
                        ProxyStep::Waiting,
                    ),
                    seq![],
                ),
                Event::Discovery(DiscoveryEvent::GameDetected { app_id, app_name, pid }) => {
                    let (origin, link) = detected(
                        origin,
                        link,
                        GameInfo { app_id, app_name, pid },
                    );
                    (self.proxying(origin, link, ProxyStep::Waiting), seq![])
                },
                Event::DiscoveryClosed => self.after_end(ended_connected(origin, false)),
                _ => (self, seq![]),
            },
            ProxyStep::ToDiscord(sent) => match event {
                Event::Done => (self.proxying(origin, link, ProxyStep::Waiting), seq![]),
                Event::Failed => reopening,
                _ => (self, seq![]),
            },
            ProxyStep::ToGame(sent) => match event {
                Event::Done => (self.proxying(origin, link, ProxyStep::Waiting), seq![]),
                Event::Failed => end,
                _ => (self, seq![]),
            },
            ProxyStep::Reopening => match event {
                Event::Opened(ready) => (
                    self.with_ready(ready).proxying(
                        origin,
                        Link {
                            conn: Connection { client_id: link.conn.client_id, cached_ready: ready },
                            ..link
                        },
                        match link.last_frame {
                            Some(last) => ProxyStep::Replaying(last),
                            None => ProxyStep::RestartingReader,
                        },
                    ),
                    seq![],
                ),
                Event::OpenFailed => (self.proxying(origin, link, ProxyStep::Retrying), seq![]),
                _ => (self, seq![]),
            },
            ProxyStep::Replaying(last) => match event {
                Event::Done => (
                    self.proxying(origin, link, ProxyStep::RestartingReader),
                    seq![],
                ),
                Event::Failed => (
                    self.proxying(origin, link, ProxyStep::Retrying),
                    seq![Effect::ClearAndClose],
                ),
                _ => (self, seq![]),
            },
            ProxyStep::RestartingReader => match event {
                Event::Done => (self.proxying(origin, link, ProxyStep::Waiting), seq![]),
                Event::Failed => (
                    self.proxying(origin, link, ProxyStep::Retrying),
                    seq![Effect::ClearAndClose],
                ),
                _ => (self, seq![]),
            },
            ProxyStep::Retrying => match event {
                Event::PipeFrame(sent) => (
                    self.proxying(
                        origin,
                        Link { last_frame: latest(link.last_frame, sent), ..link },
                        ProxyStep::Reopening,
                    ),
                    seq![],
                ),
                Event::PipeReadFailed => end,
                Event::Discovery(DiscoveryEvent::GameExited { .. })
                | Event::DiscoveryClosed => self.after_end(ended_connected(origin, false)),
                Event::Discovery(DiscoveryEvent::GameDetected { app_id, app_name, pid }) => {
                    let (origin, link) = detected(
                        origin,
                        link,
                        GameInfo { app_id, app_name, pid },
                    );
                    (self.proxying(origin, link, ProxyStep::Reopening), seq![])
                },
                Event::Elapsed => (self.proxying(origin, link, ProxyStep::Reopening), seq![]),
                _ => (self, seq![]),
            },
        }
    }

    /// What the gateway asks of the outside world.
    pub open spec fn asks(&self) -> Request<'_> {
        match self.phase {
            Phase::Creating => Request::CreatePipe,
            Phase::Backoff => Request::Sleep,
            Phase::Idle => Request::Wait(
                Sources {
                    pipe_connect: true,
                    pipe_read: false,
                    discord: false,
                    discovery: true,
                    timer: false,
                },
            ),
            Phase::Discovery { game, stage } => match stage {
                DiscoveryStage::Recreating { .. } => Request::CreatePipe,
                DiscoveryStage::Opening => Request::OpenDiscord(&game.app_id),
                DiscoveryStage::Retrying => Request::Wait(
                    Sources {
                        pipe_connect: true,
                        pipe_read: false,
                        discord: false,
                        discovery: true,
                        timer: true,
                    },
                ),
                DiscoveryStage::SettingActivity(_) => Request::SendActivity(
                    &game.app_name,
                    game.pid,
                ),
                DiscoveryStage::StartingReader(_) => Request::StartReader,
                DiscoveryStage::Monitoring(_) => Request::Wait(
                    Sources {
                        pipe_connect: true,
                        pipe_read: false,
                        discord: true,
                        discovery: true,
                        timer: false,
                    },
                ),
            },
            Phase::Session { stage, .. } => match stage {
                SessionStage::Handshake(_) => Request::ReadHandshake,
                SessionStage::Connecting(attempt) => Request::OpenDiscord(&attempt.client_id),
                SessionStage::Facade { ready, .. } => Request::WritePipe(&ready),
                SessionStage::SendingReady { ready, .. } => Request::WritePipe(&ready),
                SessionStage::Replaying { message, .. } => Request::WriteDiscord(&message),
                SessionStage::StartingReader(_) => Request::StartReader,
                SessionStage::Retrying(_) => Request::Wait(
                    Sources {
                        pipe_connect: false,
                        pipe_read: true,
                        discord: false,
                        discovery: true,
                        timer: true,
                    },
                ),
                SessionStage::Proxy { link, step } => match step {
                    ProxyStep::Waiting => Request::Wait(
                        Sources {
                            pipe_connect: false,
                            pipe_read: true,
                            discord: true,
                            discovery: true,
                            timer: false,
                        },
                    ),
                    ProxyStep::ToDiscord(sent) => Request::WriteDiscord(&sent),
                    ProxyStep::ToGame(sent) => Request::WritePipe(&sent),
                    ProxyStep::Reopening => Request::OpenDiscord(&link.conn.client_id),
                    ProxyStep::Replaying(last) => Request::WriteDiscord(&last),
                    ProxyStep::RestartingReader => Request::StartReader,
                    ProxyStep::Retrying => Request::Wait(
                        Sources {
                            pipe_connect: false,
                            pipe_read: true,
                            discord: false,
                            discovery: true,
                            timer: true,
                        },
                    ),
                },
            },
        }
    }

    /// A gateway that has done nothing yet.
    pub fn new() -> (r: Gateway)
        ensures
            r.cached_ready is None,
            r.phase is Creating,
            r.wf(),
    {
        Gateway { cached_ready: None, phase: Phase::Creating }
    }

    /// What the gateway asks of the outside world.
    pub fn request(&self) -> (r: Request<'_>)
        ensures
            r == self.asks(),
    {
        match &self.phase {
            Phase::Creating => Request::CreatePipe,
            Phase::Backoff => Request::Sleep,
            Phase::Idle => Request::Wait(
                Sources {
                    pipe_connect: true,
                    pipe_read: false,
                    discord: false,
                    discovery: true,
                    timer: false,
                },
            ),
            Phase::Discovery { game, stage } => match stage {
                DiscoveryStage::Recreating { .. } => Request::CreatePipe,
                DiscoveryStage::Opening => Request::OpenDiscord(&game.app_id),
                DiscoveryStage::Retrying => Request::Wait(
                    Sources {
                        pipe_connect: true,
                        pipe_read: false,
                        discord: false,
                        discovery: true,
                        timer: true,
                    },
                ),
                DiscoveryStage::SettingActivity(_) => Request::SendActivity(
                    &game.app_name,
                    game.pid,
                ),
                DiscoveryStage::StartingReader(_) => Request::StartReader,
                DiscoveryStage::Monitoring(_) => Request::Wait(
                    Sources {
                        pipe_connect: true,
                        pipe_read: false,
                        discord: true,
                        discovery: true,
                        timer: false,
                    },
                ),
            },
            Phase::Session { stage, .. } => match stage {
                SessionStage::Handshake(_) => Request::ReadHandshake,
                SessionStage::Connecting(attempt) => Request::OpenDiscord(&attempt.client_id),
                SessionStage::Facade { ready, .. } => Request::WritePipe(ready),
                SessionStage::SendingReady { ready, .. } => Request::WritePipe(ready),
                SessionStage::Replaying { message, .. } => Request::WriteDiscord(message),
                SessionStage::StartingReader(_) => Request::StartReader,
                SessionStage::Retrying(_) => Request::Wait(waiting_for_discord()),
                SessionStage::Proxy { link, step } => match step {
                    ProxyStep::Waiting => Request::Wait(
                        Sources {
                            pipe_connect: false,
                            pipe_read: true,
                            discord: true,
                            discovery: true,
                            timer: false,
                        },
                    ),
                    ProxyStep::ToDiscord(sent) => Request::WriteDiscord(sent),
                    ProxyStep::ToGame(sent) => Request::WritePipe(sent),
                    ProxyStep::Reopening => Request::OpenDiscord(&link.conn.client_id),
                    ProxyStep::Replaying(last) => Request::WriteDiscord(last),
                    ProxyStep::RestartingReader => Request::StartReader,
                    ProxyStep::Retrying => Request::Wait(waiting_for_discord()),
                },
            },
        }
    }

    /// Moves the gateway on by an event, and says what to carry out before the next
    /// request. An event that answers no request of the gateway changes nothing.
    pub fn step(self, event: Event) -> (r: (Gateway, Vec<Effect>))
        ensures
            r.0 == self.after(event).0,
            r.1@ == self.after(event).1,
            self.wf() ==> r.0.wf(),
    {
        let Gateway { cached_ready, phase } = self;
        match phase {
            Phase::Creating => {
                let phase = match event {
                    Event::PipeCreated => Phase::Idle,
                    Event::PipeCreateFailed => Phase::Backoff,
                    _ => Phase::Creating,
                };
                (Gateway { cached_ready, phase }, vec![])
            },
            Phase::Backoff => {
                let phase = match event {
                    Event::Elapsed => Phase::Creating,
                    _ => Phase::Backoff,
                };
                (Gateway { cached_ready, phase }, vec![])
            },
            Phase::Idle => match event {
                Event::Discovery(DiscoveryEvent::GameDetected { app_id, app_name, pid }) => {
                    let game = GameInfo { app_id, app_name, pid };
                    let phase = Phase::Discovery { game, stage: DiscoveryStage::Opening };
                    (Gateway { cached_ready, phase }, vec![])
                },
                Event::DiscoveryClosed | Event::PipeConnectFailed => (
                    Gateway { cached_ready, phase: Phase::Creating },
                    vec![Effect::DropPipe],
                ),
                Event::PipeConnected => {
                    let phase = Phase::Session {
                        origin: Origin::Direct,
                        stage: SessionStage::Handshake(None),
                    };
                    (Gateway { cached_ready, phase }, vec![])
                },
                _ => (Gateway { cached_ready, phase: Phase::Idle }, vec![]),
            },
            Phase::Discovery { game, stage } => step_discovery(cached_ready, game, stage, event),
            Phase::Session { origin, stage } => step_session(cached_ready, origin, stage, event),
        }
    }
}

fn waiting_for_discord() -> (r: Sources)
    ensures
        r == (Sources {
            pipe_connect: false,
            pipe_read: true,
            discord: false,
            discovery: true,
            timer: true,
        }),
{
    Sources { pipe_connect: false, pipe_read: true, discord: false, discovery: true, timer: true }
}

fn share_ready(ready: &Option<Arc<Frame>>) -> (r: Option<Arc<Frame>>)
    ensures
        r == *ready,
{
    match ready {
        Some(ready) => Some(share(ready)),
        None => None,
    }
}

fn remember(before: Option<Arc<Frame>>, ready: &Option<Arc<Frame>>) -> (r: Option<Arc<Frame>>)
    ensures
        r == remembered(before, *ready),
{
    match ready {
        Some(ready) => Some(share(ready)),
        None => before,
    }
}

fn keep_latest(before: Option<Arc<Frame>>, sent: &Arc<Frame>) -> (r: Option<Arc<Frame>>)
    ensures
        r == latest(before, *sent),
{
    if sent.opcode == FRAME {
        Some(share(sent))
    } else {
        before
    }
}

fn step_discovery(
    cached_ready: Option<Arc<Frame>>,
    game: GameInfo,
    stage: DiscoveryStage,
    event: Event,
) -> (r: (Gateway, Vec<Effect>))
    ensures
        ({
            let before = Gateway { cached_ready, phase: Phase::Discovery { game, stage } };
            r.0 == before.after(event).0 && r.1@ == before.after(event).1
        }),
{
    match stage {
        DiscoveryStage::Recreating { stale } => match event {
            Event::PipeCreated => {
                let phase = Phase::Discovery { game, stage: DiscoveryStage::Opening };
                (
                    Gateway { cached_ready, phase },
                    if stale {
                        vec![Effect::ClearAndClose]
                    } else {
                        vec![]
                    },
                )
            },
            Event::PipeCreateFailed => (
                Gateway { cached_ready, phase: Phase::Creating },
                if stale {
                    vec![Effect::ClearAndClose]
                } else {
                    vec![]
                },
            ),
            _ => (Gateway { cached_ready, phase: Phase::Discovery { game, stage } }, vec![]),
        },
        DiscoveryStage::Opening => match event {
            Event::Opened(ready) => {
                let cached_ready = remember(cached_ready, &ready);
                let conn = Connection { client_id: game.app_id.clone(), cached_ready: ready };
                let phase = Phase::Discovery {
                    game,
                    stage: DiscoveryStage::SettingActivity(conn),
                };
                (Gateway { cached_ready, phase }, vec![])
            },
            Event::OpenFailed => {
                let phase = Phase::Discovery { game, stage: DiscoveryStage::Retrying };
                (Gateway { cached_ready, phase }, vec![])
            },
            _ => (Gateway { cached_ready, phase: Phase::Discovery { game, stage } }, vec![]),
        },
        DiscoveryStage::Retrying => match event {
            Event::Elapsed | Event::Discovery(DiscoveryEvent::GameDetected { .. }) => {
                let phase = Phase::Discovery { game, stage: DiscoveryStage::Opening };
                (Gateway { cached_ready, phase }, vec![])
            },
            Event::Discovery(DiscoveryEvent::GameExited { .. })
            | Event::DiscoveryClosed
            | Event::PipeConnectFailed => (
                Gateway { cached_ready, phase: Phase::Creating },
                vec![Effect::DropPipe],
            ),
            Event::PipeConnected => {
                let phase = Phase::Session {
                    origin: Origin::Retry(game),
                    stage: SessionStage::Handshake(None),
                };
                (Gateway { cached_ready, phase }, vec![])
            },
            _ => (Gateway { cached_ready, phase: Phase::Discovery { game, stage } }, vec![]),
        },
        DiscoveryStage::SettingActivity(conn) => match event {
            Event::Done => {
                let phase = Phase::Discovery {
                    game,
                    stage: DiscoveryStage::StartingReader(conn),
                };
                (Gateway { cached_ready, phase }, vec![])
            },
            Event::Failed => {
                let phase = Phase::Discovery { game, stage: DiscoveryStage::Opening };
                (Gateway { cached_ready, phase }, vec![Effect::ClearAndClose])
            },
            _ => {
                let stage = DiscoveryStage::SettingActivity(conn);
                (Gateway { cached_ready, phase: Phase::Discovery { game, stage } }, vec![])
            },
        },
        DiscoveryStage::StartingReader(conn) => match event {
            Event::Done => {
                let phase = Phase::Discovery { game, stage: DiscoveryStage::Monitoring(conn) };
                (Gateway { cached_ready, phase }, vec![])
            },
            Event::Failed => {
                let phase = Phase::Discovery { game, stage: DiscoveryStage::Opening };
                (Gateway { cached_ready, phase }, vec![Effect::ClearAndClose])
            },
            _ => {
                let stage = DiscoveryStage::StartingReader(conn);
                (Gateway { cached_ready, phase: Phase::Discovery { game, stage } }, vec![])
            },
        },
        DiscoveryStage::Monitoring(conn) => {
            let lost = match &event {
                Event::DiscordFrame(sent) => sent.opcode == CLOSE,
                Event::DiscordLost => true,
                _ => false,
            };
            if lost {
                let phase = Phase::Discovery { game, stage: DiscoveryStage::Opening };
                return (Gateway { cached_ready, phase }, vec![Effect::ClearAndClose]);
            }
            match event {
                Event::Discovery(DiscoveryEvent::GameExited { .. })
                | Event::DiscoveryClosed
                | Event::PipeConnectFailed => (
                    Gateway { cached_ready, phase: Phase::Creating },
                    vec![Effect::ClearAndClose, Effect::DropPipe],
                ),
                Event::PipeConnected => {
                    let phase = Phase::Session {
                        origin: Origin::Monitor(game),
                        stage: SessionStage::Handshake(Some(conn)),
                    };
                    (Gateway { cached_ready, phase }, vec![])
                },
                _ => {
                    let stage = DiscoveryStage::Monitoring(conn);
                    (Gateway { cached_ready, phase: Phase::Discovery { game, stage } }, vec![])
                },
            }
        },
    }
}

fn end_session(cached_ready: Option<Arc<Frame>>, origin: Origin, running: bool) -> (r: (
    Gateway,
    Vec<Effect>,
))
    ensures
        r.0 == (Gateway { cached_ready, phase: ended(origin, running).0 }),
        r.1@ == ended(origin, running).1,
{
    match origin {
        Origin::Direct => (Gateway { cached_ready, phase: Phase::Creating }, vec![Effect::DropPipe]),
        Origin::Retry(game) => if running {
            let stage = DiscoveryStage::Recreating { stale: false };
            (
                Gateway { cached_ready, phase: Phase::Discovery { game, stage } },
                vec![Effect::DropPipe],
            )
        } else {
            (Gateway { cached_ready, phase: Phase::Creating }, vec![Effect::DropPipe])
        },
        Origin::Monitor(game) => if running {
            let stage = DiscoveryStage::Recreating { stale: true };
            (
                Gateway { cached_ready, phase: Phase::Discovery { game, stage } },
                vec![Effect::DropPipe],
            )
        } else {
            (
                Gateway { cached_ready, phase: Phase::Creating },
                vec![Effect::DropPipe, Effect::ClearAndClose],
            )
        },
    }
}

fn end_connected(cached_ready: Option<Arc<Frame>>, origin: Origin, running: bool) -> (r: (
    Gateway,
    Vec<Effect>,
))
    ensures
        r.0 == (Gateway { cached_ready, phase: ended_connected(origin, running).0 }),
        r.1@ == ended_connected(origin, running).1,
{
    let own = match &origin {
        Origin::Monitor(_) => false,
        _ => true,
    };
    let (gateway, mut rest) = end_session(cached_ready, origin, running);
    let mut effects: Vec<Effect> = Vec::new();
    if own {
        effects.push(Effect::ClearAndClose);
    }
    effects.append(&mut rest);
    assert(effects@ =~= ended_connected(origin, running).1);
    (gateway, effects)
}

fn known(origin: &Origin) -> (r: bool)
    ensures
        r == origin.game_known(),
{
    match origin {
        Origin::Direct => false,
        _ => true,
    }
}

fn replay_then_start(conn: Connection, replay: Option<Arc<Frame>>) -> (r: SessionStage)
    ensures
        r == replay_or_start(conn, replay),
{
    match replay {
        Some(message) => SessionStage::Replaying { conn, message },
        None => SessionStage::StartingReader(conn),
    }
}

fn greet_game(conn: Connection, ready_sent: bool, replay: Option<Arc<Frame>>) -> (r: SessionStage)
    ensures
        r == greet(conn, ready_sent, replay),
{
    let ready = if ready_sent {
        None
    } else {
        share_ready(&conn.cached_ready)
    };
    match ready {
        Some(ready) => SessionStage::SendingReady { conn, ready, replay, reading: false },
        None => replay_then_start(conn, replay),
    }
}

fn start_passing(conn: Connection) -> (r: SessionStage)
    ensures
        r == full_swing(conn),
{
    SessionStage::Proxy {
        link: Link { conn, last_frame: None, game_exited: false },
        step: ProxyStep::Waiting,
    }
}

fn take_over_connection(conn: Connection) -> (r: SessionStage)
    ensures
        r == take_over(conn),
{
    match share_ready(&conn.cached_ready) {
        Some(ready) => SessionStage::SendingReady { conn, ready, replay: None, reading: true },
        None => start_passing(conn),
    }
}

fn step_session(
    cached_ready: Option<Arc<Frame>>,
    origin: Origin,
    stage: SessionStage,
    event: Event,
) -> (r: (Gateway, Vec<Effect>))
    ensures
        ({
            let before = Gateway { cached_ready, phase: Phase::Session { origin, stage } };
            r.0 == before.after(event).0 && r.1@ == before.after(event).1
        }),
{
    match stage {
        SessionStage::Handshake(lent) => match event {
            Event::Hello(client_id) => {
                let reuse = match &lent {
                    Some(conn) => same_text(client_id.as_str(), conn.client_id.as_str()),
                    None => false,
                };
                let mut effects: Vec<Effect> = Vec::new();
                let stage = match lent {
                    Some(conn) => if reuse {
                        effects.push(Effect::SendNullActivity);
                        take_over_connection(conn)
                    } else {
                        effects.push(Effect::ClearAndClose);
                        SessionStage::Connecting(
                            Attempt { client_id, ready_sent: false, last_frame: None },
                        )
                    },
                    None => SessionStage::Connecting(
                        Attempt { client_id, ready_sent: false, last_frame: None },
                    ),
                };
                (Gateway { cached_ready, phase: Phase::Session { origin, stage } }, effects)
            },
            Event::NoHello | Event::PipeReadFailed => end_session(cached_ready, origin, false),
            _ => {
                let stage = SessionStage::Handshake(lent);
                (Gateway { cached_ready, phase: Phase::Session { origin, stage } }, vec![])
            },
        },
        SessionStage::Connecting(attempt) => match event {
            Event::Opened(ready) => {
                let cached_ready = remember(cached_ready, &ready);
                let conn = Connection { client_id: attempt.client_id, cached_ready: ready };
                let stage = greet_game(conn, attempt.ready_sent, attempt.last_frame);
                (Gateway { cached_ready, phase: Phase::Session { origin, stage } }, vec![])
            },
            Event::OpenFailed => {
                let ready = if attempt.ready_sent {
                    None
                } else {
                    share_ready(&cached_ready)
                };
                let stage = match ready {
                    Some(ready) => SessionStage::Facade { attempt, ready },
                    None => SessionStage::Retrying(attempt),
                };
                (Gateway { cached_ready, phase: Phase::Session { origin, stage } }, vec![])
            },
            _ => {
                let stage = SessionStage::Connecting(attempt);
                (Gateway { cached_ready, phase: Phase::Session { origin, stage } }, vec![])
            },
        },
        SessionStage::Facade { attempt, ready } => match event {
            Event::Done => {
                let Attempt { client_id, ready_sent: _, last_frame } = attempt;
                let stage = SessionStage::Retrying(
                    Attempt { client_id, ready_sent: true, last_frame },
                );
                (Gateway { cached_ready, phase: Phase::Session { origin, stage } }, vec![])
            },
            Event::Failed => {
                let running = known(&origin);
                end_session(cached_ready, origin, running)
            },
            _ => {
                let stage = SessionStage::Facade { attempt, ready };
                (Gateway { cached_ready, phase: Phase::Session { origin, stage } }, vec![])
            },
        },
        SessionStage::Retrying(attempt) => match event {
            Event::PipeFrame(sent) => {
                let Attempt { client_id, ready_sent, last_frame } = attempt;
                let last_frame = keep_latest(last_frame, &sent);
                let stage = SessionStage::Connecting(
                    Attempt { client_id, ready_sent, last_frame },
                );
                (Gateway { cached_ready, phase: Phase::Session { origin, stage } }, vec![])
            },
            Event::PipeReadFailed => {
                let running = known(&origin);
                end_session(cached_ready, origin, running)
            },
            Event::Discovery(DiscoveryEvent::GameExited { .. }) | Event::DiscoveryClosed => {
                end_session(cached_ready, origin, false)
            },
            Event::Discovery(DiscoveryEvent::GameDetected { app_id, app_name, pid }) => {
                let origin = match origin {
                    Origin::Direct => Origin::Retry(GameInfo { app_id, app_name, pid }),
                    known => known,
                };
                let stage = SessionStage::Connecting(attempt);
                (Gateway { cached_ready, phase: Phase::Session { origin, stage } }, vec![])
            },
            Event::Elapsed => {
                let stage = SessionStage::Connecting(attempt);
                (Gateway { cached_ready, phase: Phase::Session { origin, stage } }, vec![])
            },
            _ => {
                let stage = SessionStage::Retrying(attempt);
                (Gateway { cached_ready, phase: Phase::Session { origin, stage } }, vec![])
            },
        },
        SessionStage::SendingReady { conn, ready, replay, reading } => match event {
            Event::Done => {
                let stage = if reading {
                    start_passing(conn)
                } else {
                    replay_then_start(conn, replay)
                };
                (Gateway { cached_ready, phase: Phase::Session { origin, stage } }, vec![])
            },
            Event::Failed => {
                let running = known(&origin);
                end_connected(cached_ready, origin, running)
            },
            _ => {
                let stage = SessionStage::SendingReady { conn, ready, replay, reading };
                (Gateway { cached_ready, phase: Phase::Session { origin, stage } }, vec![])
            },
        },
        SessionStage::Replaying { conn, message } => match event {
            Event::Done => {
                let stage = SessionStage::StartingReader(conn);
                (Gateway { cached_ready, phase: Phase::Session { origin, stage } }, vec![])
            },
            Event::Failed => {
                let running = known(&origin);
                end_connected(cached_ready, origin, running)
            },
            _ => {
                let stage = SessionStage::Replaying { conn, message };
                (Gateway { cached_ready, phase: Phase::Session { origin, stage } }, vec![])
            },
        },
        SessionStage::StartingReader(conn) => match event {
            Event::Done => {
                let stage = start_passing(conn);
                (Gateway { cached_ready, phase: Phase::Session { origin, stage } }, vec![])
            },
            Event::Failed => {
                let running = known(&origin);
                end_connected(cached_ready, origin, running)
            },
            _ => {
                let stage = SessionStage::StartingReader(conn);
                (Gateway { cached_ready, phase: Phase::Session { origin, stage } }, vec![])
            },
        },
        SessionStage::Proxy { link, step } => step_proxy(cached_ready, origin, link, step, event),
    }
}

fn proxying(
    cached_ready: Option<Arc<Frame>>,
    origin: Origin,
    link: Link,
    step: ProxyStep,
    effects: Vec<Effect>,
) -> (r: (Gateway, Vec<Effect>))
    ensures
        r.0.cached_ready == cached_ready,
        r.0.phase == (Phase::Session { origin, stage: SessionStage::Proxy { link, step } }),
        r.1 == effects,
{
    let stage = SessionStage::Proxy { link, step };
    (Gateway { cached_ready, phase: Phase::Session { origin, stage } }, effects)
}

fn take_up(origin: Origin, link: Link, game: GameInfo) -> (r: (Origin, Link))
    ensures
        r == detected(origin, link, game),
{
    if known(&origin) && !link.game_exited {
        return (origin, link);
    }
    let origin = match origin {
        Origin::Direct | Origin::Retry(_) => Origin::Retry(game),
        Origin::Monitor(_) => Origin::Monitor(game),
    };
    let Link { conn, last_frame, game_exited: _ } = link;
    (origin, Link { conn, last_frame, game_exited: false })
}

fn step_proxy(
    cached_ready: Option<Arc<Frame>>,
    origin: Origin,
    link: Link,
    step: ProxyStep,
    event: Event,
) -> (r: (Gateway, Vec<Effect>))
    ensures
        ({
            let stage = SessionStage::Proxy { link, step };
            let before = Gateway { cached_ready, phase: Phase::Session { origin, stage } };
            r.0 == before.after(event).0 && r.1@ == before.after(event).1
        }),
{
    let running = !link.game_exited;
    match step {
        ProxyStep::Waiting => match event {
            Event::PipeFrame(sent) => {
                let Link { conn, last_frame, game_exited } = link;
                let last_frame = keep_latest(last_frame, &sent);
                let link = Link { conn, last_frame, game_exited };
                proxying(cached_ready, origin, link, ProxyStep::ToDiscord(sent), vec![])
            },
            Event::PipeReadFailed => end_connected(cached_ready, origin, running),
            Event::DiscordFrame(sent) => if sent.opcode == CLOSE {
                let (gateway, mut rest) = end_connected(cached_ready, origin, running);
                let mut effects: Vec<Effect> = vec![Effect::WritePipe(sent)];
                effects.append(&mut rest);
                assert(effects@ =~= seq![Effect::WritePipe(sent)] + ended_connected(
                    origin,
                    running,
                ).1);
                (gateway, effects)
            } else {
                proxying(cached_ready, origin, link, ProxyStep::ToGame(sent), vec![])
            },
            Event::DiscordLost => proxying(
                cached_ready,
                origin,
                link,
                ProxyStep::Reopening,
                vec![Effect::ClearAndClose],
            ),
            Event::Discovery(DiscoveryEvent::GameExited { .. }) => {
                let Link { conn, last_frame, game_exited: _ } = link;
                let link = Link { conn, last_frame, game_exited: true };
                proxying(cached_ready, origin, link, ProxyStep::Waiting, vec![])
            },
            Event::Discovery(DiscoveryEvent::GameDetected { app_id, app_name, pid }) => {
                let game = GameInfo { app_id, app_name, pid };
                let (origin, link) = take_up(origin, link, game);
                proxying(cached_ready, origin, link, ProxyStep::Waiting, vec![])
            },
            Event::DiscoveryClosed => end_connected(cached_ready, origin, false),
            _ => proxying(cached_ready, origin, link, ProxyStep::Waiting, vec![]),
        },
        ProxyStep::ToDiscord(sent) => match event {
            Event::Done => proxying(cached_ready, origin, link, ProxyStep::Waiting, vec![]),
            Event::Failed => proxying(
                cached_ready,
                origin,
                link,
                ProxyStep::Reopening,
                vec![Effect::ClearAndClose],
            ),
            _ => proxying(cached_ready, origin, link, ProxyStep::ToDiscord(sent), vec![]),
        },
        ProxyStep::ToGame(sent) => match event {
            Event::Done => proxying(cached_ready, origin, link, ProxyStep::Waiting, vec![]),
            Event::Failed => end_connected(cached_ready, origin, running),
            _ => proxying(cached_ready, origin, link, ProxyStep::ToGame(sent), vec![]),
        },
        ProxyStep::Reopening => match event {
            Event::Opened(ready) => {
                let cached_ready = remember(cached_ready, &ready);
                let Link { conn, last_frame, game_exited } = link;
                let conn = Connection { client_id: conn.client_id, cached_ready: ready };
                let step = match &last_frame {
                    Some(last) => ProxyStep::Replaying(share(last)),
                    None => ProxyStep::RestartingReader,
                };
                let link = Link { conn, last_frame, game_exited };
                proxying(cached_ready, origin, link, step, vec![])
            },
            Event::OpenFailed => proxying(
                cached_ready,
                origin,
                link,
                ProxyStep::Retrying,
                vec![],
            ),
            _ => proxying(cached_ready, origin, link, ProxyStep::Reopening, vec![]),
        },
        ProxyStep::Replaying(last) => match event {
            Event::Done => proxying(
                cached_ready,
                origin,
                link,
                ProxyStep::RestartingReader,
                vec![],
            ),
            Event::Failed => proxying(
                cached_ready,
                origin,
                link,
                ProxyStep::Retrying,
                vec![Effect::ClearAndClose],
            ),
            _ => proxying(cached_ready, origin, link, ProxyStep::Replaying(last), vec![]),
        },
        ProxyStep::RestartingReader => match event {
            Event::Done => proxying(cached_ready, origin, link, ProxyStep::Waiting, vec![]),
            Event::Failed => proxying(
                cached_ready,
                origin,
                link,
                ProxyStep::Retrying,
                vec![Effect::ClearAndClose],
            ),
            _ => proxying(cached_ready, origin, link, ProxyStep::RestartingReader, vec![]),
        },
        ProxyStep::Retrying => match event {
            Event::PipeFrame(sent) => {
                let Link { conn, last_frame, game_exited } = link;
                let last_frame = keep_latest(last_frame, &sent);
                let link = Link { conn, last_frame, game_exited };
                proxying(cached_ready, origin, link, ProxyStep::Reopening, vec![])
            },
            Event::PipeReadFailed => end_connected(cached_ready, origin, running),
            Event::Discovery(DiscoveryEvent::GameExited { .. }) | Event::DiscoveryClosed => {
                end_connected(cached_ready, origin, false)
            },
            Event::Discovery(DiscoveryEvent::GameDetected { app_id, app_name, pid }) => {
                let game = GameInfo { app_id, app_name, pid };
                let (origin, link) = take_up(origin, link, game);
                proxying(cached_ready, origin, link, ProxyStep::Reopening, vec![])
            },
            Event::Elapsed => proxying(cached_ready, origin, link, ProxyStep::Reopening, vec![]),
            _ => proxying(cached_ready, origin, link, ProxyStep::Retrying, vec![]),
        },
    }
}

} // verus!
