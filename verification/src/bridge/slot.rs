//! One slot of the bridge as a state machine: it creates the slot's pipe, accepts a game,
//! takes the slot over from the process scanner, and copies between pipe and socket until
//! either side is done.
use crate::config::SocketPath;
use crate::gateway::frame::{Frame, HANDSHAKE};
use vstd::prelude::*;

verus! {

/// How long to pause before the pipe is created again, in seconds.
pub const BACKOFF: u64 = 5;

/// How long to wait for the process scanner's consent, in seconds.
pub const HANDOFF_TIMEOUT: u64 = 1;

/// How long to wait for what remains to be sent, in seconds.
pub const DRAIN_TIMEOUT: u64 = 2;

/// Where a slot stands.
pub enum SlotPhase {
    /// The pipe is being created.
    Creating,
    /// The pipe could not be created; a pause before the next attempt.
    Backoff,
    /// The pipe waits for a game.
    Accepting,
    /// The game's handshake is awaited.
    ReadingHandshake,
    /// The process scanner is asked to release the slot.
    HandingOff(Frame),
    /// The path of the socket is being looked up.
    Resolving(Frame),
    /// The socket is being connected.
    Connecting { handshake: Frame, path: SocketPath },
    /// The handshake is being sent to Discord.
    Forwarding(Frame),
    /// The copying in both directions is being started.
    StartingCopy,
    /// Bytes are copied in both directions.
    Copying,
    /// One side is done; what remains is being sent.
    Draining,
}

/// The parts of the copying.
pub enum Pump {
    /// Takes bytes from the game.
    GameReader,
    /// Gives the game's bytes to Discord, and takes leave when the game is done.
    DiscordWriter,
    /// Takes bytes from Discord.
    DiscordReader,
    /// Gives Discord's bytes to the game.
    GameWriter,
}

/// What a slot asks of the outside world.
pub enum SlotRequest<'a> {
    CreatePipe,
    /// Pause before the pipe is created again.
    Sleep,
    Accept,
    ReadHandshake,
    /// Ask the process scanner to release the slot; wait one second for its consent.
    Handoff,
    /// Look up the socket of the slot.
    ResolvePath,
    Connect(&'a SocketPath),
    /// Send this frame to Discord.
    Forward(&'a Frame),
    StartCopy,
    /// Wait until some part of the copying ends.
    AwaitEnd,
    /// Wait for what remains to be sent, for two seconds.
    AwaitDrain,
}

/// What the outside world answers.
pub enum SlotEvent {
    /// What was asked for was done.
    Done,
    /// What was asked for could not be done.
    Failed,
    /// The pause is over, or the time for an answer.
    Elapsed,
    /// The game's first frame.
    FirstFrame(Frame),
    /// The socket of the slot, if its directory is known.
    Path(Option<SocketPath>),
    /// A part of the copying has ended.
    Ended(Pump),
}

/// What to carry out; no outcome is awaited.
pub enum SlotEffect {
    /// Record that a game has the slot.
    Mark(u8),
    /// Record that no game has the slot.
    Unmark(u8),
    /// Stop taking bytes from the game.
    AbortGameReader,
    /// Close the socket in both directions.
    ShutdownSocket,
    /// Let go of the pipe and the socket.
    Release,
    /// Tell the process scanner that the slot is free again.
    Reclaim(u8),
}

/// A slot of the bridge.
pub struct SlotBridge {
    pub slot: u8,
    pub phase: SlotPhase,
}

impl SlotBridge {
    /// The same slot in another phase, with effects to carry out.
    pub open spec fn to(self, phase: SlotPhase, effects: Seq<SlotEffect>) -> (
        SlotBridge,
        Seq<SlotEffect>,
    ) {
        (SlotBridge { slot: self.slot, phase }, effects)
    }

    /// The slot and the effects when a session has ended: the scanner may have the slot
    /// back, and the next game is awaited.
    pub open spec fn finished(self) -> (SlotBridge, Seq<SlotEffect>) {
        self.to(
            SlotPhase::Creating,
            seq![SlotEffect::Release, SlotEffect::Reclaim(self.slot)],
        )
    }

    /// The slot and the effects after an event.
    pub open spec fn after(self, event: SlotEvent) -> (SlotBridge, Seq<SlotEffect>) {
        let same = (self, seq![]);
        match self.phase {
            SlotPhase::Creating => match event {
                SlotEvent::Done => self.to(SlotPhase::Accepting, seq![]),
                SlotEvent::Failed => self.to(SlotPhase::Backoff, seq![]),
                _ => same,
            },
            SlotPhase::Backoff => match event {
                SlotEvent::Elapsed => self.to(SlotPhase::Creating, seq![]),
                _ => same,
            },
            SlotPhase::Accepting => match event {
                SlotEvent::Done => self.to(SlotPhase::ReadingHandshake, seq![]),
                SlotEvent::Failed => self.to(SlotPhase::Creating, seq![SlotEffect::Release]),
                _ => same,
            },
            SlotPhase::ReadingHandshake => match event {
                SlotEvent::FirstFrame(first) => if first.opcode == HANDSHAKE {
                    self.to(SlotPhase::HandingOff(first), seq![])
                } else {
                    self.finished()
                },
                SlotEvent::Failed => self.finished(),
                _ => same,
            },
            SlotPhase::HandingOff(handshake) => match event {
                SlotEvent::Done | SlotEvent::Failed | SlotEvent::Elapsed => self.to(
                    SlotPhase::Resolving(handshake),
                    seq![SlotEffect::Mark(self.slot)],
                ),
                _ => same,
            },
            SlotPhase::Resolving(handshake) => match event {
                SlotEvent::Path(Some(path)) => self.to(
                    SlotPhase::Connecting { handshake, path },
                    seq![],
                ),
                SlotEvent::Path(None) => self.finished(),
                _ => same,
            },
            SlotPhase::Connecting { handshake, path } => match event {
                SlotEvent::Done => self.to(SlotPhase::Forwarding(handshake), seq![]),
                SlotEvent::Failed => self.finished(),
                _ => same,
            },
            SlotPhase::Forwarding(handshake) => match event {
                SlotEvent::Done => self.to(SlotPhase::StartingCopy, seq![]),
                SlotEvent::Failed => self.finished(),
                _ => same,
            },
            SlotPhase::StartingCopy => match event {
                SlotEvent::Done => self.to(SlotPhase::Copying, seq![]),
                SlotEvent::Failed => self.finished(),
                _ => same,
            },
            SlotPhase::Copying => match event {
                SlotEvent::Ended(Pump::GameReader) => self.to(SlotPhase::Draining, seq![]),
                SlotEvent::Ended(_) => self.to(
                    SlotPhase::Draining,
                    seq![SlotEffect::AbortGameReader],
                ),
                _ => same,
            },
            SlotPhase::Draining => match event {
                SlotEvent::Done | SlotEvent::Elapsed => self.to(
                    SlotPhase::Creating,
                    seq![
                        SlotEffect::ShutdownSocket,
                        SlotEffect::Unmark(self.slot),
                        SlotEffect::Release,
                        SlotEffect::Reclaim(self.slot),
                    ],
                ),
                _ => same,
            },
        }
    }

    /// What the slot asks of the outside world.
    pub open spec fn asks(&self) -> SlotRequest<'_> {
        match self.phase {
            SlotPhase::Creating => SlotRequest::CreatePipe,
            SlotPhase::Backoff => SlotRequest::Sleep,
            SlotPhase::Accepting => SlotRequest::Accept,
            SlotPhase::ReadingHandshake => SlotRequest::ReadHandshake,
            SlotPhase::HandingOff(_) => SlotRequest::Handoff,
            SlotPhase::Resolving(_) => SlotRequest::ResolvePath,
            SlotPhase::Connecting { path, .. } => SlotRequest::Connect(&path),
            SlotPhase::Forwarding(handshake) => SlotRequest::Forward(&handshake),
            SlotPhase::StartingCopy => SlotRequest::StartCopy,
            SlotPhase::Copying => SlotRequest::AwaitEnd,
            SlotPhase::Draining => SlotRequest::AwaitDrain,
        }
    }

    /// A slot that has done nothing yet.
    pub fn new(slot: u8) -> (r: SlotBridge)
        ensures
            r.slot == slot,
            r.phase is Creating,
    {
        SlotBridge { slot, phase: SlotPhase::Creating }
    }

    /// What the slot asks of the outside world.
    pub fn request(&self) -> (r: SlotRequest<'_>)
        ensures
            r == self.asks(),
    {
        match &self.phase {
            SlotPhase::Creating => SlotRequest::CreatePipe,
            SlotPhase::Backoff => SlotRequest::Sleep,
            SlotPhase::Accepting => SlotRequest::Accept,
            SlotPhase::ReadingHandshake => SlotRequest::ReadHandshake,
            SlotPhase::HandingOff(_) => SlotRequest::Handoff,
            SlotPhase::Resolving(_) => SlotRequest::ResolvePath,
            SlotPhase::Connecting { path, .. } => SlotRequest::Connect(path),
            SlotPhase::Forwarding(handshake) => SlotRequest::Forward(handshake),
            SlotPhase::StartingCopy => SlotRequest::StartCopy,
            SlotPhase::Copying => SlotRequest::AwaitEnd,
            SlotPhase::Draining => SlotRequest::AwaitDrain,
        }
    }

    /// Moves the slot on by an event, and says what to carry out before the next request.
    /// An event that answers no request of the slot changes nothing.
    pub fn step(self, event: SlotEvent) -> (r: (SlotBridge, Vec<SlotEffect>))
        ensures
            r.0 == self.after(event).0,
            r.1@ == self.after(event).1,
    {
        let slot: u8 = self.slot;
        match self.phase {
            SlotPhase::Creating => match event {
                SlotEvent::Done => go(slot, SlotPhase::Accepting),
                SlotEvent::Failed => go(slot, SlotPhase::Backoff),
                _ => go(slot, SlotPhase::Creating),
            },
            SlotPhase::Backoff => match event {
                SlotEvent::Elapsed => go(slot, SlotPhase::Creating),
                _ => go(slot, SlotPhase::Backoff),
            },
            SlotPhase::Accepting => match event {
                SlotEvent::Done => go(slot, SlotPhase::ReadingHandshake),
                SlotEvent::Failed => (
                    SlotBridge { slot, phase: SlotPhase::Creating },
                    vec![SlotEffect::Release],
                ),
                _ => go(slot, SlotPhase::Accepting),
            },
            SlotPhase::ReadingHandshake => match event {
                SlotEvent::FirstFrame(first) => if first.opcode == HANDSHAKE {
                    go(slot, SlotPhase::HandingOff(first))
                } else {
                    finish(slot)
                },
                SlotEvent::Failed => finish(slot),
                _ => go(slot, SlotPhase::ReadingHandshake),
            },
            SlotPhase::HandingOff(handshake) => match event {
                SlotEvent::Done | SlotEvent::Failed | SlotEvent::Elapsed => (
                    SlotBridge { slot, phase: SlotPhase::Resolving(handshake) },
                    vec![SlotEffect::Mark(slot)],
                ),
                _ => go(slot, SlotPhase::HandingOff(handshake)),
            },
            SlotPhase::Resolving(handshake) => match event {
                SlotEvent::Path(Some(path)) => go(slot, SlotPhase::Connecting { handshake, path }),
                SlotEvent::Path(None) => finish(slot),
                _ => go(slot, SlotPhase::Resolving(handshake)),
            },
            SlotPhase::Connecting { handshake, path } => match event {
                SlotEvent::Done => go(slot, SlotPhase::Forwarding(handshake)),
                SlotEvent::Failed => finish(slot),
                _ => go(slot, SlotPhase::Connecting { handshake, path }),
            },
            SlotPhase::Forwarding(handshake) => match event {
                SlotEvent::Done => go(slot, SlotPhase::StartingCopy),
                SlotEvent::Failed => finish(slot),
                _ => go(slot, SlotPhase::Forwarding(handshake)),
            },
            SlotPhase::StartingCopy => match event {
                SlotEvent::Done => go(slot, SlotPhase::Copying),
                SlotEvent::Failed => finish(slot),
                _ => go(slot, SlotPhase::StartingCopy),
            },
            SlotPhase::Copying => match event {
                SlotEvent::Ended(Pump::GameReader) => go(slot, SlotPhase::Draining),
                SlotEvent::Ended(_) => (
                    SlotBridge { slot, phase: SlotPhase::Draining },
                    vec![SlotEffect::AbortGameReader],
                ),
                _ => go(slot, SlotPhase::Copying),
            },
            SlotPhase::Draining => match event {
                SlotEvent::Done | SlotEvent::Elapsed => (
                    SlotBridge { slot, phase: SlotPhase::Creating },
                    vec![
                        SlotEffect::ShutdownSocket,
                        SlotEffect::Unmark(slot),
                        SlotEffect::Release,
                        SlotEffect::Reclaim(slot),
                    ],
                ),
                _ => go(slot, SlotPhase::Draining),
            },
        }
    }
}

fn go(slot: u8, phase: SlotPhase) -> (r: (SlotBridge, Vec<SlotEffect>))
    ensures
        r.0 == (SlotBridge { slot, phase }),
        r.1@.len() == 0,
{
    (SlotBridge { slot, phase }, vec![])
}

fn finish(slot: u8) -> (r: (SlotBridge, Vec<SlotEffect>))
    ensures
        r.0 == (SlotBridge { slot, phase: SlotPhase::Creating }),
        r.1@ == seq![SlotEffect::Release, SlotEffect::Reclaim(slot)],
{
    (
        SlotBridge { slot, phase: SlotPhase::Creating },
        vec![SlotEffect::Release, SlotEffect::Reclaim(slot)],
    )
}

/// A slot creates its pipe until that works, with a pause after each failure, and then waits
/// for a game, and for the game's first frame; a game that cannot be accepted has the pipe
/// created anew.
pub proof fn a_slot_waits_for_a_game(bridge: SlotBridge)
    requires
        bridge.phase is Creating,
    ensures
        ({
            let (created, nothing) = bridge.after(SlotEvent::Done);
            let (paused, nothing_either) = bridge.after(SlotEvent::Failed);
            let (accepted, no_more) = created.after(SlotEvent::Done);
            let (refused, released) = created.after(SlotEvent::Failed);
            &&& bridge.asks() is CreatePipe
            &&& created.asks() is Accept && nothing.len() == 0
            &&& paused.asks() is Sleep && nothing_either.len() == 0
            &&& paused.after(SlotEvent::Elapsed).0.asks() is CreatePipe
            &&& paused.after(SlotEvent::Elapsed).1.len() == 0
            &&& accepted.asks() is ReadHandshake && no_more.len() == 0
            &&& refused.asks() is CreatePipe && released == seq![SlotEffect::Release]
        }),
{
}

/// A session that fails before the copying has begun, at whatever step, lets go of the pipe
/// and the socket and gives the slot back; one whose every step works comes to copy.
pub proof fn a_session_goes_on_while_its_steps_work(bridge: SlotBridge, path: SocketPath)
    ensures
        bridge.phase is ReadingHandshake || bridge.phase is Connecting || bridge.phase is Forwarding
            || bridge.phase is StartingCopy ==> bridge.after(SlotEvent::Failed).1 == seq![
            SlotEffect::Release,
            SlotEffect::Reclaim(bridge.slot),
        ] && bridge.after(SlotEvent::Failed).0.asks() is CreatePipe,
        bridge.phase is Resolving ==> bridge.asks() is ResolvePath && bridge.after(
            SlotEvent::Path(None),
        ).1 == seq![SlotEffect::Release, SlotEffect::Reclaim(bridge.slot)] && bridge.after(
            SlotEvent::Path(None),
        ).0.asks() is CreatePipe && bridge.after(SlotEvent::Path(Some(path))).0.asks()
            == SlotRequest::Connect(&path) && bridge.after(SlotEvent::Path(Some(path))).1.len() == 0,
        bridge.phase is Connecting ==> bridge.after(SlotEvent::Done).0.asks() is Forward
            && bridge.after(SlotEvent::Done).1.len() == 0,
        bridge.phase is Forwarding ==> bridge.after(SlotEvent::Done).0.asks() is StartCopy
            && bridge.after(SlotEvent::Done).1.len() == 0,
        bridge.phase is StartingCopy ==> bridge.after(SlotEvent::Done).0.asks() is AwaitEnd
            && bridge.after(SlotEvent::Done).1.len() == 0,
{
}

/// The handshake that a session holds.
pub open spec fn held_handshake(phase: SlotPhase) -> Option<Frame> {
    match phase {
        SlotPhase::HandingOff(handshake) => Some(handshake),
        SlotPhase::Resolving(handshake) => Some(handshake),
        SlotPhase::Connecting { handshake, .. } => Some(handshake),
        SlotPhase::Forwarding(handshake) => Some(handshake),
        _ => None,
    }
}

/// A session holds the game's handshake as it came until it is forwarded, and a slot keeps its
/// number.
pub proof fn a_session_holds_the_handshake(bridge: SlotBridge, event: SlotEvent)
    ensures
        bridge.after(event).0.slot == bridge.slot,
        held_handshake(bridge.phase) is Some && held_handshake(bridge.after(event).0.phase) is Some
            ==> held_handshake(bridge.after(event).0.phase) == held_handshake(bridge.phase),
        held_handshake(bridge.phase) is None && held_handshake(bridge.after(event).0.phase) is Some
            ==> (event matches SlotEvent::FirstFrame(first) && first.opcode == 0 && held_handshake(
            bridge.after(event).0.phase,
        ) == Some(first) && bridge.after(event).1.len() == 0),
        bridge.asks() matches SlotRequest::Forward(frame) ==> held_handshake(bridge.phase) == Some(
            *frame,
        ),
{
}

/// Whether an event can answer what a slot asks.
pub open spec fn slot_answers(asked: SlotRequest<'_>, event: SlotEvent) -> bool {
    match asked {
        SlotRequest::Sleep => event is Elapsed,
        SlotRequest::ReadHandshake => event is FirstFrame || event is Failed,
        SlotRequest::Handoff => event is Done || event is Failed || event is Elapsed,
        SlotRequest::ResolvePath => event is Path,
        SlotRequest::AwaitEnd => event is Ended,
        SlotRequest::AwaitDrain => event is Done || event is Elapsed,
        _ => event is Done || event is Failed,
    }
}

/// An event that answers no request of a slot changes nothing, and one that does moves the
/// slot on.
pub proof fn slots_move_on_answers_only(bridge: SlotBridge, event: SlotEvent)
    ensures
        !slot_answers(bridge.asks(), event) ==> bridge.after(event) == (
            bridge,
            Seq::<SlotEffect>::empty(),
        ),
        slot_answers(bridge.asks(), event) ==> bridge.after(event).0.phase != bridge.phase,
{
}

/// Whether a game has opened the pipe of the slot.
pub open spec fn in_session(phase: SlotPhase) -> bool {
    !(phase is Creating || phase is Backoff || phase is Accepting)
}

/// However a session ends, the last thing is that the process scanner may have the slot
/// back; and it may have it back at no other time.
pub proof fn session_ends_with_reclaim(bridge: SlotBridge, event: SlotEvent)
    ensures
        ({
            let (next, effects) = bridge.after(event);
            &&& in_session(bridge.phase) && !in_session(next.phase) ==> effects.len() > 0
                && effects.last() == SlotEffect::Reclaim(bridge.slot)
            &&& effects.contains(SlotEffect::Reclaim(bridge.slot)) ==> in_session(bridge.phase)
                && !in_session(next.phase)
        }),
{
}

/// A first frame that is no handshake ends the session with nothing done.
pub proof fn other_first_frame_is_turned_away(bridge: SlotBridge, first: Frame)
    requires
        bridge.phase is ReadingHandshake,
        first.opcode != HANDSHAKE,
    ensures
        bridge.after(SlotEvent::FirstFrame(first)).0.phase is Creating,
        bridge.after(SlotEvent::FirstFrame(first)).1 == seq![
            SlotEffect::Release,
            SlotEffect::Reclaim(bridge.slot),
        ],
{
}

/// The game's handshake is the frame that Discord is sent once the socket is there, and
/// the slot is recorded as taken before, whether the scanner consented or not.
pub proof fn handshake_reaches_discord(
    bridge: SlotBridge,
    handshake: Frame,
    consent: SlotEvent,
    path: SocketPath,
)
    requires
        bridge.phase is ReadingHandshake,
        handshake.opcode == HANDSHAKE,
        consent is Done || consent is Failed || consent is Elapsed,
    ensures
        ({
            let asking = bridge.after(SlotEvent::FirstFrame(handshake)).0;
            let (resolving, marked) = asking.after(consent);
            let connecting = resolving.after(SlotEvent::Path(Some(path))).0;
            let forwarding = connecting.after(SlotEvent::Done).0;
            &&& asking.asks() is Handoff
            &&& marked == seq![SlotEffect::Mark(bridge.slot)]
            &&& connecting.asks() == SlotRequest::Connect(&path)
            &&& forwarding.asks() == SlotRequest::Forward(&handshake)
        }),
{
}

/// A session that has copied ends with the socket closed and the slot recorded as free,
/// however the copying ended; where Discord's side ended it, no more is taken from the
/// game.
pub proof fn copying_ends_with_a_free_slot(bridge: SlotBridge, ended: Pump, drained: SlotEvent)
    requires
        bridge.phase is Copying,
        drained is Done || drained is Elapsed,
    ensures
        ({
            let (draining, first) = bridge.after(SlotEvent::Ended(ended));
            let (free, then_) = draining.after(drained);
            &&& first.contains(SlotEffect::AbortGameReader) == !(ended is GameReader)
            &&& first.len() == (if ended is GameReader {
                0int
            } else {
                1
            })
            &&& draining.asks() is AwaitDrain
            &&& free.phase is Creating
            &&& then_ == seq![
                SlotEffect::ShutdownSocket,
                SlotEffect::Unmark(bridge.slot),
                SlotEffect::Release,
                SlotEffect::Reclaim(bridge.slot),
            ]
        }),
{
    let first = bridge.after(SlotEvent::Ended(ended)).1;
    if first.len() > 0 {
        assert(first.contains(first[0]));
    }
}

} // verus!
