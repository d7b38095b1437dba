use xbridge::bridge::slot::{
    Pump, SlotBridge, SlotEffect, SlotEvent, SlotPhase, SlotRequest, BACKOFF, DRAIN_TIMEOUT,
    HANDOFF_TIMEOUT,
};
use xbridge::bridge::writer::{DiscordWriter, WriterEvent, WriterRequest};
use xbridge::bridge::{clear_frame, close_frame, make_frame, pipe_name, SLOT_COUNT};
use xbridge::config::SocketPath;
use xbridge::gateway::frame::{encode, Frame, FrameReader, ReadStep, CLOSE, FRAME, HANDSHAKE};

const CLEAR: &str =
    "{\"args\":{\"activity\":null,\"pid\":0},\"cmd\":\"SET_ACTIVITY\",\"nonce\":\"xbridge-clear\"}";

fn handshake() -> Frame {
    Frame { opcode: HANDSHAKE, payload: b"{\"v\":1}".to_vec() }
}

fn path() -> SocketPath {
    SocketPath { directory: "/tmp".to_owned(), file_name: "discord-ipc-4".to_owned() }
}

fn names(effects: &[SlotEffect]) -> Vec<String> {
    effects
        .iter()
        .map(|effect| match effect {
            SlotEffect::Mark(slot) => format!("mark {slot}"),
            SlotEffect::Unmark(slot) => format!("unmark {slot}"),
            SlotEffect::AbortGameReader => "abort".to_owned(),
            SlotEffect::ShutdownSocket => "shutdown".to_owned(),
            SlotEffect::Release => "release".to_owned(),
            SlotEffect::Reclaim(slot) => format!("reclaim {slot}"),
        })
        .collect()
}

fn after(bridge: SlotBridge, event: SlotEvent, expected: &[&str]) -> SlotBridge {
    let (next, effects) = bridge.step(event);
    assert_eq!(names(&effects), expected);
    next
}

fn accepted() -> SlotBridge {
    let bridge = after(SlotBridge::new(4), SlotEvent::Done, &[]);
    after(bridge, SlotEvent::Done, &[])
}

fn copying() -> SlotBridge {
    let bridge = after(accepted(), SlotEvent::FirstFrame(handshake()), &[]);
    let bridge = after(bridge, SlotEvent::Done, &["mark 4"]);
    let bridge = after(bridge, SlotEvent::Path(Some(path())), &[]);
    let bridge = after(bridge, SlotEvent::Done, &[]);
    let bridge = after(bridge, SlotEvent::Done, &[]);
    after(bridge, SlotEvent::Done, &[])
}

#[test]
fn there_are_ten_slots() {
    assert_eq!(SLOT_COUNT, 10);
    assert_eq!((BACKOFF, HANDOFF_TIMEOUT, DRAIN_TIMEOUT), (5, 1, 2));
}

#[test]
fn a_made_frame_has_a_header() {
    assert_eq!(make_frame(1, b"ab"), vec![1, 0, 0, 0, 2, 0, 0, 0, b'a', b'b']);
}

#[test]
fn a_pipe_is_named_after_its_slot() {
    assert_eq!(pipe_name(0), r"\\.\pipe\discord-ipc-0");
    assert_eq!(pipe_name(9), r"\\.\pipe\discord-ipc-9");
}

#[test]
fn clearing_is_a_message_with_a_null_activity() {
    let frame = clear_frame();
    assert_eq!(frame.opcode, FRAME);
    assert_eq!(String::from_utf8(frame.payload).unwrap(), CLEAR);
}

#[test]
fn the_leave_is_a_close_frame() {
    let text = b"{\"code\":1000,\"message\":\"Normal Closure\"}";
    assert_eq!(text.len(), 0x28);
    assert_eq!(close_frame(), encode(CLOSE, text));
    assert_eq!(&close_frame()[..8], b"\x02\x00\x00\x00\x28\x00\x00\x00");
}

/// What a writer has Discord sent, where the sends from `broken` on fail.
fn sent_by_writer(pieces: &[&[u8]], broken: usize) -> Vec<Vec<u8>> {
    let mut pieces = pieces.iter();
    let mut sent: Vec<Vec<u8>> = Vec::new();
    let mut writer = DiscordWriter::new();
    loop {
        let bytes = match writer.request() {
            WriterRequest::Receive => {
                let event = match pieces.next() {
                    Some(piece) => WriterEvent::Data(piece.to_vec()),
                    None => WriterEvent::GameDone,
                };
                writer = writer.step(event);
                continue;
            }
            WriterRequest::Send(data) => data.clone(),
            WriterRequest::Clear(frame) => make_frame(frame.opcode, &frame.payload),
            WriterRequest::Close(data) => data,
            WriterRequest::Nothing => return sent,
        };
        let failed = sent.len() >= broken;
        sent.push(bytes);
        writer = writer.step(if failed { WriterEvent::Failed } else { WriterEvent::Sent });
    }
}

#[test]
fn the_leave_follows_the_bytes_of_the_game() {
    let clear = make_frame(FRAME, CLEAR.as_bytes());
    let expected = vec![b"one".to_vec(), b"two".to_vec(), clear, close_frame()];
    assert_eq!(sent_by_writer(&[b"one", b"two"], usize::MAX), expected);
    assert_eq!(sent_by_writer(&[], usize::MAX), expected[2..]);
    assert_eq!(sent_by_writer(&[b"one", b"two"], 2), expected);
}

#[test]
fn a_failed_send_is_followed_by_the_leave() {
    let clear = make_frame(FRAME, CLEAR.as_bytes());
    let expected = vec![b"one".to_vec(), clear, close_frame()];
    assert_eq!(sent_by_writer(&[b"one", b"two"], 0), expected);
}

#[test]
fn a_writer_ignores_what_answers_nothing() {
    let writer = DiscordWriter::new().step(WriterEvent::Sent).step(WriterEvent::Failed);
    assert!(matches!(writer, DiscordWriter::Receiving));
    let writer = writer.step(WriterEvent::Data(b"a".to_vec()));
    let writer = writer.step(WriterEvent::Data(b"b".to_vec())).step(WriterEvent::GameDone);
    assert!(matches!(&writer, DiscordWriter::Sending(data) if data == b"a"));
    let writer = writer.step(WriterEvent::Sent).step(WriterEvent::GameDone);
    let writer = writer.step(WriterEvent::Data(b"c".to_vec()));
    assert!(matches!(writer, DiscordWriter::Clearing));
    let writer = writer.step(WriterEvent::Sent).step(WriterEvent::GameDone);
    assert!(matches!(writer, DiscordWriter::Closing));
    let writer = writer.step(WriterEvent::Sent).step(WriterEvent::Sent);
    assert!(matches!(writer, DiscordWriter::Finished));
}

#[test]
fn a_handshake_is_forwarded_as_it_was_read() {
    let bytes = b"\x00\x00\x00\x00\x05\x00\x00\x00hello";
    let mut reader = FrameReader::unlimited();
    reader = match reader.feed(&bytes[..8]) {
        ReadStep::More(next) => next,
        _ => panic!("the payload is missing"),
    };
    match reader.feed(&bytes[8..]) {
        ReadStep::Done(frame) => {
            assert_eq!(make_frame(frame.opcode, &frame.payload), bytes.to_vec())
        }
        _ => panic!("the frame is complete"),
    }
}

#[test]
fn a_slot_starts_with_its_pipe() {
    let bridge = SlotBridge::new(4);
    assert!(matches!(bridge.request(), SlotRequest::CreatePipe));
    let bridge = after(bridge, SlotEvent::Failed, &[]);
    assert!(matches!(bridge.request(), SlotRequest::Sleep));
    let bridge = after(bridge, SlotEvent::Elapsed, &[]);
    assert!(matches!(bridge.request(), SlotRequest::CreatePipe));
    let bridge = after(bridge, SlotEvent::Done, &[]);
    assert!(matches!(bridge.request(), SlotRequest::Accept));
    let bridge = after(bridge, SlotEvent::Failed, &["release"]);
    assert!(matches!(bridge.request(), SlotRequest::CreatePipe));
}

#[test]
fn a_first_frame_that_is_no_handshake_is_turned_away() {
    let bridge = accepted();
    assert!(matches!(bridge.request(), SlotRequest::ReadHandshake));
    let first = Frame { opcode: FRAME, payload: vec![] };
    let bridge = after(bridge, SlotEvent::FirstFrame(first), &["release", "reclaim 4"]);
    assert!(matches!(bridge.phase, SlotPhase::Creating));
    let bridge = after(accepted(), SlotEvent::Failed, &["release", "reclaim 4"]);
    assert!(matches!(bridge.phase, SlotPhase::Creating));
}

#[test]
fn the_handshake_reaches_discord_whether_the_scanner_consents_or_not() {
    for consent in [SlotEvent::Done, SlotEvent::Failed, SlotEvent::Elapsed] {
        let bridge = after(accepted(), SlotEvent::FirstFrame(handshake()), &[]);
        assert!(matches!(bridge.request(), SlotRequest::Handoff));
        let bridge = after(bridge, consent, &["mark 4"]);
        assert!(matches!(bridge.request(), SlotRequest::ResolvePath));
        let bridge = after(bridge, SlotEvent::Path(Some(path())), &[]);
        match bridge.request() {
            SlotRequest::Connect(path) => assert_eq!(path.file_name, "discord-ipc-4"),
            _ => panic!("the socket is to be connected"),
        }
        let bridge = after(bridge, SlotEvent::Done, &[]);
        match bridge.request() {
            SlotRequest::Forward(frame) => assert_eq!(frame.payload, handshake().payload),
            _ => panic!("the handshake is to be sent"),
        }
    }
}

#[test]
fn a_session_without_a_socket_ends() {
    let ended = ["release", "reclaim 4"];
    let resolving = || {
        let bridge = after(accepted(), SlotEvent::FirstFrame(handshake()), &[]);
        after(bridge, SlotEvent::Done, &["mark 4"])
    };
    after(resolving(), SlotEvent::Path(None), &ended);
    let connecting = || after(resolving(), SlotEvent::Path(Some(path())), &[]);
    after(connecting(), SlotEvent::Failed, &ended);
    let forwarding = || after(connecting(), SlotEvent::Done, &[]);
    after(forwarding(), SlotEvent::Failed, &ended);
    let starting = after(forwarding(), SlotEvent::Done, &[]);
    assert!(matches!(starting.request(), SlotRequest::StartCopy));
    after(starting, SlotEvent::Failed, &ended);
}

#[test]
fn copying_ends_with_a_free_slot() {
    let freed = ["shutdown", "unmark 4", "release", "reclaim 4"];
    for drained in [SlotEvent::Done, SlotEvent::Elapsed] {
        let bridge = copying();
        assert!(matches!(bridge.request(), SlotRequest::AwaitEnd));
        let bridge = after(bridge, SlotEvent::Ended(Pump::GameReader), &[]);
        assert!(matches!(bridge.request(), SlotRequest::AwaitDrain));
        let bridge = after(bridge, drained, &freed);
        assert!(matches!(bridge.request(), SlotRequest::CreatePipe));
    }
}

#[test]
fn the_end_of_discord_stops_the_reading_of_the_game() {
    for pump in [Pump::DiscordWriter, Pump::DiscordReader, Pump::GameWriter] {
        let bridge = after(copying(), SlotEvent::Ended(pump), &["abort"]);
        assert!(matches!(bridge.phase, SlotPhase::Draining));
    }
}

#[test]
fn events_out_of_turn_change_nothing() {
    let bridge = after(SlotBridge::new(1), SlotEvent::Elapsed, &[]);
    assert!(matches!(bridge.phase, SlotPhase::Creating));
    let bridge = after(copying(), SlotEvent::Done, &[]);
    assert!(matches!(bridge.phase, SlotPhase::Copying));
    let bridge = after(bridge, SlotEvent::Path(None), &[]);
    assert!(matches!(bridge.phase, SlotPhase::Copying));
    assert_eq!(bridge.slot, 4);
}
