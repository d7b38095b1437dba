//! The writer to Discord as a state machine: it passes the game's bytes on, and takes leave
//! when the game is done.
use crate::bridge;
use crate::bridge::slot::{SlotBridge, SlotEvent, SlotPhase};
use crate::bridge::{clear_frame, close_frame};
use crate::config::SocketPath;
use crate::gateway::frame;
use crate::gateway::frame::{Frame, FRAME, HANDSHAKE};
use crate::json;
use vstd::prelude::*;
use vstd::string::*;

verus! {

/// What the writer is doing.
pub enum DiscordWriter {
    /// It waits for bytes of the game.
    Receiving,
    /// It sends bytes of the game.
    Sending(Vec<u8>),
    /// The game is done, or Discord takes no more: the activity is cleared first, since
    /// Discord does not clear it reliably on its own.
    Clearing,
    /// It takes leave.
    Closing,
    Finished,
}

/// What the writer asks of the outside world.
pub enum WriterRequest<'a> {
    /// Wait for bytes of the game.
    Receive,
    /// Send these bytes to Discord.
    Send(&'a Vec<u8>),
    /// Send this frame, which clears the activity.
    Clear(Frame),
    /// Send these bytes, which take leave.
    Close(Vec<u8>),
    /// Nothing more.
    Nothing,
}

/// What the outside world answers.
pub enum WriterEvent {
    /// The game has sent these bytes.
    Data(Vec<u8>),
    /// The game is done.
    GameDone,
    /// What was to be sent was sent.
    Sent,
    /// What was to be sent could not be sent.
    Failed,
}

/// The bytes that clear the activity.
pub open spec fn clear_bytes() -> Seq<u8> {
    frame::encoded(FRAME, json::written(bridge::clear_document()))
}

impl DiscordWriter {
    /// The writer after an event. How clearing and leaving come out makes no difference.
    pub open spec fn after(self, event: WriterEvent) -> DiscordWriter {
        match self {
            DiscordWriter::Receiving => match event {
                WriterEvent::Data(data) => DiscordWriter::Sending(data),
                WriterEvent::GameDone => DiscordWriter::Clearing,
                _ => self,
            },
            DiscordWriter::Sending(_) => match event {
                WriterEvent::Sent => DiscordWriter::Receiving,
                WriterEvent::Failed => DiscordWriter::Clearing,
                _ => self,
            },
            DiscordWriter::Clearing => if event is Sent || event is Failed {
                DiscordWriter::Closing
            } else {
                self
            },
            DiscordWriter::Closing => if event is Sent || event is Failed {
                DiscordWriter::Finished
            } else {
                self
            },
            DiscordWriter::Finished => self,
        }
    }

    /// The bytes that the writer has Discord sent, if it has any sent.
    pub open spec fn offered(self) -> Option<Seq<u8>> {
        match self {
            DiscordWriter::Sending(data) => Some(data@),
            DiscordWriter::Clearing => Some(clear_bytes()),
            DiscordWriter::Closing => Some(bridge::close_bytes()),
            _ => None,
        }
    }

    /// A writer that has written nothing yet.
    pub fn new() -> (r: DiscordWriter)
        ensures
            r == DiscordWriter::Receiving,
    {
        DiscordWriter::Receiving
    }

    /// What the writer asks of the outside world.
    pub fn request(&self) -> (r: WriterRequest<'_>)
        ensures
            match r {
                WriterRequest::Receive => *self is Receiving,
                WriterRequest::Send(data) => *self is Sending && self.offered() == Some(data@),
                WriterRequest::Clear(clear) => *self is Clearing && clear.opcode == FRAME
                    && clear.payload@ == json::written(bridge::clear_document())
                    && self.offered() == Some(frame::encoded(clear.opcode, clear.payload@)),
                WriterRequest::Close(bytes) => *self is Closing && self.offered() == Some(bytes@),
                WriterRequest::Nothing => *self is Finished,
            },
    {
        match self {
            DiscordWriter::Receiving => WriterRequest::Receive,
            DiscordWriter::Sending(data) => WriterRequest::Send(data),
            DiscordWriter::Clearing => WriterRequest::Clear(clear_frame()),
            DiscordWriter::Closing => WriterRequest::Close(close_frame()),
            DiscordWriter::Finished => WriterRequest::Nothing,
        }
    }

    /// Moves the writer on by an event. An event that answers no request of the writer
    /// changes nothing.
    pub fn step(self, event: WriterEvent) -> (r: DiscordWriter)
        ensures
            r == self.after(event),
    {
        match self {
            DiscordWriter::Receiving => match event {
                WriterEvent::Data(data) => DiscordWriter::Sending(data),
                WriterEvent::GameDone => DiscordWriter::Clearing,
                _ => DiscordWriter::Receiving,
            },
            DiscordWriter::Sending(data) => match event {
                WriterEvent::Sent => DiscordWriter::Receiving,
                WriterEvent::Failed => DiscordWriter::Clearing,
                _ => DiscordWriter::Sending(data),
            },
            DiscordWriter::Clearing => match event {
                WriterEvent::Sent | WriterEvent::Failed => DiscordWriter::Closing,
                _ => DiscordWriter::Clearing,
            },
            DiscordWriter::Closing => match event {
                WriterEvent::Sent | WriterEvent::Failed => DiscordWriter::Finished,
                _ => DiscordWriter::Closing,
            },
            DiscordWriter::Finished => DiscordWriter::Finished,
        }
    }
}

/// A new writer after a run of events.
pub open spec fn written_on(events: Seq<WriterEvent>) -> DiscordWriter
    decreases events.len(),
{
    if events.len() == 0 {
        DiscordWriter::Receiving
    } else {
        written_on(events.drop_last()).after(events.last())
    }
}

/// The pieces that a new writer has taken from the game over a run of events.
pub open spec fn pieces_of_game(events: Seq<WriterEvent>) -> Seq<Seq<u8>>
    decreases events.len(),
{
    if events.len() == 0 {
        seq![]
    } else {
        let so_far = pieces_of_game(events.drop_last());
        match events.last() {
            WriterEvent::Data(data) => if written_on(events.drop_last()) is Receiving {
                so_far.push(data@)
            } else {
                so_far
            },
            _ => so_far,
        }
    }
}

/// What a new writer has had sent to Discord over a run of events, whether that worked or
/// not, one after the other.
pub open spec fn attempts(events: Seq<WriterEvent>) -> Seq<Seq<u8>>
    decreases events.len(),
{
    if events.len() == 0 {
        seq![]
    } else {
        let so_far = attempts(events.drop_last());
        match written_on(events.drop_last()).offered() {
            Some(bytes) => if events.last() is Sent || events.last() is Failed {
                so_far.push(bytes)
            } else {
                so_far
            },
            None => so_far,
        }
    }
}

/// What Discord was given over a run of events: that of what it was sent which worked.
pub open spec fn given(events: Seq<WriterEvent>) -> Seq<u8>
    decreases events.len(),
{
    if events.len() == 0 {
        seq![]
    } else {
        let so_far = given(events.drop_last());
        match written_on(events.drop_last()).offered() {
            Some(bytes) => if events.last() is Sent {
                so_far + bytes
            } else {
                so_far
            },
            None => so_far,
        }
    }
}

proof fn lemma_joined_push(pieces: Seq<Seq<u8>>, last: Seq<u8>)
    ensures
        frame::joined(pieces.push(last)) == frame::joined(pieces) + last,
    decreases pieces.len(),
{
    let more = pieces.push(last);
    if pieces.len() == 0 {
        assert(more.skip(1) =~= seq![]);
        assert(frame::joined(more.skip(1)) =~= seq![]);
        assert(frame::joined(more) =~= frame::joined(pieces) + last);
    } else {
        assert(more.skip(1) =~= pieces.skip(1).push(last));
        lemma_joined_push(pieces.skip(1), last);
        assert(frame::joined(more) =~= frame::joined(pieces) + last);
    }
}

proof fn lemma_attempts(events: Seq<WriterEvent>)
    ensures
        ({
            let writer = written_on(events);
            let game = pieces_of_game(events);
            match writer {
                DiscordWriter::Receiving => attempts(events) == game,
                DiscordWriter::Sending(data) => game.len() > 0 && attempts(events)
                    == game.drop_last() && game.last() == data@,
                DiscordWriter::Clearing => attempts(events) == game,
                DiscordWriter::Closing => attempts(events) == game.push(clear_bytes()),
                DiscordWriter::Finished => attempts(events) == game.push(clear_bytes()).push(
                    bridge::close_bytes(),
                ),
            }
        }),
    decreases events.len(),
{
    if events.len() > 0 {
        lemma_attempts(events.drop_last());
        let before = pieces_of_game(events.drop_last());
        match written_on(events.drop_last()) {
            DiscordWriter::Receiving => {
                if pieces_of_game(events).len() > before.len() {
                    assert(pieces_of_game(events).drop_last() =~= before);
                }
            },
            DiscordWriter::Sending(data) => {
                assert(before.drop_last().push(data@) =~= before);
            },
            _ => {},
        }
    }
}

proof fn lemma_given(events: Seq<WriterEvent>)
    requires
        forall|i: int| 0 <= i < events.len() ==> !(#[trigger] events[i] is Failed),
    ensures
        given(events) == frame::joined(attempts(events)),
    decreases events.len(),
{
    if events.len() > 0 {
        let earlier = events.drop_last();
        assert forall|i: int| 0 <= i < earlier.len() implies !(#[trigger] earlier[i] is Failed) by {
            assert(earlier[i] == events[i]);
        }
        lemma_given(earlier);
        assert(!(events[events.len() - 1] is Failed));
        if let Some(bytes) = written_on(earlier).offered() {
            lemma_joined_push(attempts(earlier), bytes);
        }
    }
}

/// The leave follows everything that the game has sent, and comes once: a writer that has
/// finished has had each piece of the game sent, in order and once, then the clearing of the
/// activity, then the leave, and nothing else, whatever of it has worked.
pub proof fn leave_follows_the_bytes_of_the_game(events: Seq<WriterEvent>)
    requires
        written_on(events) is Finished,
    ensures
        attempts(events) == pieces_of_game(events).push(clear_bytes()).push(bridge::close_bytes()),
{
    lemma_attempts(events);
}

/// A game that is done, or a Discord that takes no more, is followed by the leave and by no
/// more bytes of the game.
pub proof fn leave_is_final(writer: DiscordWriter, event: WriterEvent)
    requires
        writer is Clearing || writer is Closing || writer is Finished,
    ensures
        writer.after(event) is Clearing || writer.after(event) is Closing || writer.after(
            event,
        ) is Finished,
        event is Sent || event is Failed ==> (writer is Clearing ==> writer.after(event) is Closing)
            && (writer is Closing ==> writer.after(event) is Finished),
{
}

/// The writer takes leave only when the game is done or Discord takes no more; until then it
/// has each piece of the game sent as it is, and then waits for the next.
pub proof fn the_writer_goes_on_until_the_game_is_done(
    writer: DiscordWriter,
    data: Vec<u8>,
    event: WriterEvent,
)
    ensures
        writer is Receiving ==> writer.offered() is None && writer.after(
            WriterEvent::Data(data),
        ).offered() == Some(data@) && writer.after(WriterEvent::Data(data)) is Sending
            && writer.after(WriterEvent::GameDone) is Clearing,
        writer is Sending ==> writer.after(WriterEvent::Sent) is Receiving && writer.after(
            WriterEvent::Failed,
        ) is Clearing,
        writer is Receiving && (event is Sent || event is Failed) ==> writer.after(event) == writer,
        writer is Sending && (event is Data || event is GameDone) ==> writer.after(event) == writer,
{
}

/// A slot after a run of events.
pub open spec fn slot_after(slot: SlotBridge, events: Seq<SlotEvent>) -> SlotBridge
    decreases events.len(),
{
    if events.len() == 0 {
        slot
    } else {
        slot_after(slot, events.drop_last()).after(events.last()).0
    }
}

/// What a slot itself has given to Discord over a run of events: each frame that it had
/// forwarded.
pub open spec fn forwarded(slot: SlotBridge, events: Seq<SlotEvent>) -> Seq<u8>
    decreases events.len(),
{
    if events.len() == 0 {
        seq![]
    } else {
        let so_far = forwarded(slot, events.drop_last());
        match slot_after(slot, events.drop_last()).phase {
            SlotPhase::Forwarding(first) => if events.last() is Done {
                so_far + frame::encoded(first.opcode, first.payload@)
            } else {
                so_far
            },
            _ => so_far,
        }
    }
}

/// The events of a slot from a game's first frame to the start of the copying.
pub open spec fn opening(handshake: Frame, consent: SlotEvent, path: SocketPath) -> Seq<
    SlotEvent,
> {
    seq![
        SlotEvent::FirstFrame(handshake),
        consent,
        SlotEvent::Path(Some(path)),
        SlotEvent::Done,
        SlotEvent::Done,
        SlotEvent::Done,
    ]
}

/// Where nothing fails, Discord is given the handshake, then the bytes of the game, then the
/// clearing of the activity, then the leave: nothing is lost, reordered or altered, and
/// nothing else is sent.
pub proof fn discord_is_given_the_session(
    slot: SlotBridge,
    handshake: Frame,
    consent: SlotEvent,
    path: SocketPath,
    events: Seq<WriterEvent>,
)
    requires
        slot.phase is ReadingHandshake,
        handshake.opcode == HANDSHAKE,
        consent is Done || consent is Failed || consent is Elapsed,
        forall|i: int| 0 <= i < events.len() ==> !(#[trigger] events[i] is Failed),
        written_on(events) is Finished,
    ensures
        slot_after(slot, opening(handshake, consent, path)).phase is Copying,
        forwarded(slot, opening(handshake, consent, path)) + given(events) == frame::encoded(
            HANDSHAKE,
            handshake.payload@,
        ) + frame::joined(pieces_of_game(events)) + clear_bytes() + bridge::close_bytes(),
{
    lemma_opening(slot, handshake, consent, path);
    lemma_attempts(events);
    lemma_given(events);
    let game = pieces_of_game(events);
    let cleared = game.push(clear_bytes());
    lemma_joined_push(game, clear_bytes());
    lemma_joined_push(cleared, bridge::close_bytes());
    assert(given(events) =~= frame::joined(game) + clear_bytes() + bridge::close_bytes());
    let first = frame::encoded(HANDSHAKE, handshake.payload@);
    assert(first + (frame::joined(game) + clear_bytes() + bridge::close_bytes()) =~= first + frame::joined(
        game,
    ) + clear_bytes() + bridge::close_bytes());
}

proof fn lemma_opening(
    slot: SlotBridge,
    handshake: Frame,
    consent: SlotEvent,
    path: SocketPath,
)
    requires
        slot.phase is ReadingHandshake,
        handshake.opcode == HANDSHAKE,
        consent is Done || consent is Failed || consent is Elapsed,
    ensures
        slot_after(slot, opening(handshake, consent, path)).phase is Copying,
        forwarded(slot, opening(handshake, consent, path)) == frame::encoded(
            HANDSHAKE,
            handshake.payload@,
        ),
{
    let e6 = opening(handshake, consent, path);
    let e5 = e6.drop_last();
    let e4 = e5.drop_last();
    let e3 = e4.drop_last();
    let e2 = e3.drop_last();
    let e1 = e2.drop_last();
    let e0 = e1.drop_last();
    assert(e0.len() == 0);
    assert(slot_after(slot, e0) == slot);
    assert(slot_after(slot, e1).phase == SlotPhase::HandingOff(handshake));
    assert(slot_after(slot, e2).phase == SlotPhase::Resolving(handshake));
    assert(slot_after(slot, e3).phase == (SlotPhase::Connecting { handshake, path }));
    assert(slot_after(slot, e4).phase == SlotPhase::Forwarding(handshake));
    assert(slot_after(slot, e5).phase is StartingCopy);
    assert(forwarded(slot, e0) == Seq::<u8>::empty());
    assert(forwarded(slot, e1) == Seq::<u8>::empty());
    assert(forwarded(slot, e2) == Seq::<u8>::empty());
    assert(forwarded(slot, e3) == Seq::<u8>::empty());
    assert(forwarded(slot, e4) == Seq::<u8>::empty());
    assert(forwarded(slot, e5) =~= frame::encoded(HANDSHAKE, handshake.payload@));
}

} // verus!
