use xbridge::gateway::frame::{
    encode, too_large_message, Frame, FrameReader, ReadError, ReadStep, CLOSE, FRAME, HANDSHAKE,
    MAX_PAYLOAD, PING, PONG,
};

fn read_in_pieces(bytes: &[u8], piece: usize) -> Option<(u32, Vec<u8>)> {
    let mut reader = FrameReader::new();
    let mut at = 0;
    loop {
        let n = piece.min(reader.wanted() as usize).min(bytes.len() - at);
        match reader.feed(&bytes[at..at + n]) {
            ReadStep::More(next) => reader = next,
            ReadStep::Done(frame) => return Some((frame.opcode, frame.payload)),
            ReadStep::Failed(_) => return None,
        }
        at += n;
    }
}

#[test]
fn opcodes_are_those_of_the_protocol() {
    assert_eq!([HANDSHAKE, FRAME, CLOSE, PING, PONG], [0, 1, 2, 3, 4]);
    assert_eq!(MAX_PAYLOAD, 2 * 1024 * 1024);
}

#[test]
fn encode_writes_little_endian_words() {
    assert_eq!(encode(1, b"hi"), vec![1, 0, 0, 0, 2, 0, 0, 0, b'h', b'i']);
    assert_eq!(encode(0x0403_0201, b""), vec![1, 2, 3, 4, 0, 0, 0, 0]);
    let long = vec![7u8; 0x01_0203];
    let bytes = encode(2, &long);
    assert_eq!(&bytes[..8], &[2, 0, 0, 0, 3, 2, 1, 0]);
    assert_eq!(&bytes[8..], &long[..]);
}

#[test]
fn a_frame_reads_back_however_it_is_cut() {
    let payload: Vec<u8> = (0..=255).collect();
    let bytes = encode(1, &payload);
    for piece in 1..=bytes.len() {
        assert_eq!(read_in_pieces(&bytes, piece), Some((1, payload.clone())));
    }
}

#[test]
fn an_empty_payload_ends_with_the_header() {
    let bytes = encode(3, b"");
    assert_eq!(read_in_pieces(&bytes, 8), Some((3, vec![])));
    assert_eq!(read_in_pieces(&bytes, 3), Some((3, vec![])));
}

#[test]
fn the_reader_asks_for_the_header_first() {
    let reader = FrameReader::new();
    assert_eq!(reader.wanted(), 8);
    let reader = match reader.feed(&[1, 0, 0]) {
        ReadStep::More(next) => next,
        _ => panic!("more is missing"),
    };
    assert_eq!(reader.wanted(), 5);
    let reader = match reader.feed(&[0, 4, 0, 0, 0]) {
        ReadStep::More(next) => next,
        _ => panic!("the payload is missing"),
    };
    assert_eq!(reader.wanted(), 4);
}

#[test]
fn the_end_of_the_stream_is_an_error() {
    assert!(matches!(
        FrameReader::new().feed(&[]),
        ReadStep::Failed(ReadError::UnexpectedEof)
    ));
    assert_eq!(read_in_pieces(&encode(1, b"hello")[..12], 12), None);
}

#[test]
fn a_payload_over_the_limit_is_refused_at_the_header() {
    let mut header = encode(1, b"");
    header[4..8].copy_from_slice(&(MAX_PAYLOAD + 1).to_le_bytes());
    assert!(matches!(
        FrameReader::new().feed(&header),
        ReadStep::Failed(ReadError::TooLarge(n)) if n == MAX_PAYLOAD + 1
    ));
    header[4..8].copy_from_slice(&MAX_PAYLOAD.to_le_bytes());
    assert!(matches!(FrameReader::new().feed(&header), ReadStep::More(_)));
}

#[test]
fn an_unlimited_reader_takes_any_length() {
    let mut header = encode(0, b"");
    header[4..8].copy_from_slice(&u32::MAX.to_le_bytes());
    match FrameReader::unlimited().feed(&header) {
        ReadStep::More(next) => assert_eq!(next.wanted(), u32::MAX as u64),
        _ => panic!("the payload is missing"),
    }
}

#[test]
fn the_refusal_names_the_length() {
    assert_eq!(too_large_message(2097153), "frame too large: 2097153 bytes");
    assert_eq!(too_large_message(0), "frame too large: 0 bytes");
}

#[test]
fn writing_a_frame_encodes_it() {
    let frame = Frame { opcode: PONG, payload: b"xyz".to_vec() };
    let bytes = xbridge::gateway::frame::write(&frame);
    assert_eq!(bytes, encode(PONG, b"xyz"));
    assert_eq!(frame.payload, b"xyz".to_vec());
}

#[test]
fn frames_in_one_stream_read_back_however_it_is_cut() {
    let frames: Vec<(u32, Vec<u8>)> =
        vec![(0, b"hello".to_vec()), (1, vec![]), (1, vec![9; 300]), (2, b"x".to_vec())];
    let mut bytes = Vec::new();
    for (opcode, payload) in &frames {
        bytes.extend(xbridge::gateway::frame::write(&Frame {
            opcode: *opcode,
            payload: payload.clone(),
        }));
    }
    for piece in 1..=bytes.len() {
        let mut pieces: Vec<&[u8]> = bytes.chunks(piece).collect();
        let mut read = Vec::new();
        let mut reader = FrameReader::new();
        while !pieces.is_empty() {
            let n = pieces[0].len().min(reader.wanted() as usize);
            match reader.feed(&pieces[0][..n]) {
                ReadStep::More(next) => reader = next,
                ReadStep::Done(frame) => {
                    read.push((frame.opcode, frame.payload));
                    reader = FrameReader::new();
                }
                ReadStep::Failed(_) => panic!("the frames are within the limit"),
            }
            if n == pieces[0].len() {
                pieces.remove(0);
            } else {
                pieces[0] = &pieces[0][n..];
            }
        }
        assert_eq!(read, frames);
    }
}
