//! The frames of Discord's IPC protocol: an opcode and a payload, behind a header of
//! two little-endian words.
use crate::text;
use vstd::prelude::*;
use vstd::string::*;

verus! {

pub const HANDSHAKE: u32 = 0;

pub const FRAME: u32 = 1;

pub const CLOSE: u32 = 2;

pub const PING: u32 = 3;

pub const PONG: u32 = 4;

/// The longest payload that Discord's protocol allows: 2 MB.
pub const MAX_PAYLOAD: u32 = 0x20_0000;

/// One message of the protocol.
pub struct Frame {
    pub opcode: u32,
    pub payload: Vec<u8>,
}

/// The four bytes of a word, least significant first.
pub open spec fn word_bytes(x: u32) -> Seq<u8> {
    seq![
        (x % 0x100) as u8,
        (x / 0x100 % 0x100) as u8,
        (x / 0x1_0000 % 0x100) as u8,
        (x / 0x100_0000) as u8,
    ]
}

/// The word whose four bytes start at `i`.
pub open spec fn word_at(bytes: Seq<u8>, i: int) -> u32 {
    (bytes[i] + bytes[i + 1] * 0x100 + bytes[i + 2] * 0x1_0000 + bytes[i + 3] * 0x100_0000) as u32
}

/// The bytes of a frame: opcode, payload length modulo 2^32, payload.
pub open spec fn encoded(opcode: u32, payload: Seq<u8>) -> Seq<u8> {
    word_bytes(opcode) + word_bytes((payload.len() % 0x1_0000_0000) as u32) + payload
}

fn push_word(buf: &mut Vec<u8>, x: u32)
    ensures
        final(buf)@ == old(buf)@ + word_bytes(x),
{
    let ghost before = buf@;
    buf.push((x % 0x100) as u8);
    buf.push((x / 0x100 % 0x100) as u8);
    buf.push((x / 0x1_0000 % 0x100) as u8);
    buf.push((x / 0x100_0000) as u8);
    assert(buf@ =~= before + word_bytes(x));
}

fn read_word(bytes: &[u8], i: usize) -> (x: u32)
    requires
        i + 4 <= bytes@.len(),
    ensures
        x == word_at(bytes@, i as int),
{
    bytes[i] as u32 + bytes[i + 1] as u32 * 0x100 + bytes[i + 2] as u32 * 0x1_0000 + bytes[i + 3] as u32
        * 0x100_0000
}

/// The bytes of a frame. A payload is at most as long as a vector can be with the
/// header before it.
pub fn encode(opcode: u32, payload: &[u8]) -> (r: Vec<u8>)
    requires
        payload@.len() + 8 <= isize::MAX,
    ensures
        r@ == encoded(opcode, payload@),
{
    let mut buf: Vec<u8> = Vec::with_capacity(8 + payload.len());
    push_word(&mut buf, opcode);
    push_word(&mut buf, (payload.len() as u64 % 0x1_0000_0000) as u32);
    buf.extend_from_slice(payload);
    assert(buf@ =~= encoded(opcode, payload@));
    buf
}

/// The bytes that send a frame.
pub fn write(frame: &Frame) -> (r: Vec<u8>)
    requires
        frame.payload@.len() + 8 <= isize::MAX,
    ensures
        r@ == encoded(frame.opcode, frame.payload@),
{
    encode(frame.opcode, frame.payload.as_slice())
}

/// What the bytes received so far amount to.
pub enum Parsed {
    /// More bytes are needed.
    Partial,
    /// The header announces a longer payload than the limit allows.
    TooLarge(u32),
    /// The first frame is all there.
    Complete { opcode: u32, payload: Seq<u8> },
}

/// What the bytes at the start of a stream amount to, under a limit on the payload.
pub open spec fn parse(bytes: Seq<u8>, limit: u32) -> Parsed {
    if bytes.len() < 8 {
        Parsed::Partial
    } else {
        let length = word_at(bytes, 4);
        if length > limit {
            Parsed::TooLarge(length)
        } else if bytes.len() < 8 + length {
            Parsed::Partial
        } else {
            Parsed::Complete {
                opcode: word_at(bytes, 0),
                payload: bytes.subrange(8, 8 + length as int),
            }
        }
    }
}

/// How many bytes of the header, or else of the payload, are still missing.
pub open spec fn missing(bytes: Seq<u8>) -> int {
    if bytes.len() < 8 {
        8 - bytes.len()
    } else {
        8 + word_at(bytes, 4) - bytes.len()
    }
}

/// Why a frame could not be read.
pub enum ReadError {
    /// The stream ended inside the frame.
    UnexpectedEof,
    /// The header announced a payload of this length, over the limit.
    TooLarge(u32),
}

/// What comes of the bytes that a reader was handed.
pub enum ReadStep {
    More(FrameReader),
    Done(Frame),
    Failed(ReadError),
}

/// Reads one frame from a stream that hands out its bytes in pieces.
pub struct FrameReader {
    received: Vec<u8>,
    limit: u32,
}

impl View for FrameReader {
    type V = Seq<u8>;

    /// The bytes received so far.
    closed spec fn view(&self) -> Seq<u8> {
        self.received@
    }
}

impl FrameReader {
    /// The longest payload that the reader accepts.
    pub closed spec fn limit(&self) -> u32 {
        self.limit
    }

    /// A reader holds no complete frame: it is handed out only while bytes are missing.
    #[verifier::type_invariant]
    spec fn unfinished(&self) -> bool {
        parse(self.received@, self.limit) is Partial
    }

    /// A reader at the start of a frame, with the protocol's limit on the payload.
    pub fn new() -> (r: Self)
        ensures
            r@ == Seq::<u8>::empty(),
            r.limit() == MAX_PAYLOAD,
    {
        FrameReader { received: Vec::new(), limit: MAX_PAYLOAD }
    }

    /// A reader at the start of a frame that takes a payload of any length.
    pub fn unlimited() -> (r: Self)
        ensures
            r@ == Seq::<u8>::empty(),
            r.limit() == u32::MAX,
    {
        FrameReader { received: Vec::new(), limit: u32::MAX }
    }

    /// How many bytes to ask the stream for: what is missing of the header, then of the
    /// payload. It is never zero.
    pub fn wanted(&self) -> (n: u64)
        ensures
            n == missing(self@),
            n > 0,
    {
        proof {
            use_type_invariant(self);
        }
        let have: usize = self.received.len();
        if have < 8 {
            8 - have as u64
        } else {
            8 + read_word(self.received.as_slice(), 4) as u64 - have as u64
        }
    }

    /// Takes the bytes that the stream handed out, at most as many as were wanted; none
    /// at all means that the stream has ended.
    pub fn feed(self, chunk: &[u8]) -> (r: ReadStep)
        requires
            chunk@.len() <= missing(self@),
        ensures
            chunk@.len() == 0 ==> r == ReadStep::Failed(ReadError::UnexpectedEof),
            chunk@.len() > 0 ==> match parse(self@ + chunk@, self.limit()) {
                Parsed::Partial => r matches ReadStep::More(next) && next@ == self@ + chunk@
                    && next.limit() == self.limit(),
                Parsed::TooLarge(length) => r == ReadStep::Failed(ReadError::TooLarge(length)),
                Parsed::Complete { opcode, payload } => r matches ReadStep::Done(frame)
                    && frame.opcode == opcode && frame.payload@ == payload,
            },
    {
        proof {
            use_type_invariant(&self);
        }
        if chunk.len() == 0 {
            return ReadStep::Failed(ReadError::UnexpectedEof);
        }
        let limit: u32 = self.limit;
        let mut received: Vec<u8> = self.received;
        let ghost before = received@;
        received.extend_from_slice(chunk);
        assert(received@ =~= before + chunk@);
        if received.len() < 8 {
            return ReadStep::More(FrameReader { received, limit });
        }
        let opcode: u32 = read_word(received.as_slice(), 0);
        let length: u32 = read_word(received.as_slice(), 4);
        if length > limit {
            return ReadStep::Failed(ReadError::TooLarge(length));
        }
        if (received.len() as u64) < 8 + length as u64 {
            return ReadStep::More(FrameReader { received, limit });
        }
        let ghost all = received@;
        let payload: Vec<u8> = received.split_off(8);
        assert(before.len() >= 8 ==> word_at(before, 4) == word_at(all, 4));
        assert(all.len() == 8 + length);
        ReadStep::Done(Frame { opcode, payload })
    }
}

/// The message of a refused header.
pub fn too_large_message(length: u32) -> (r: String)
    ensures
        r@ == "frame too large: "@ + text::decimal(length as nat) + " bytes"@,
{
    let mut out: String = "frame too large: ".to_owned();
    text::push_decimal(&mut out, length as u64);
    out.append(" bytes");
    out
}

proof fn lemma_word(x: u32, tail: Seq<u8>)
    ensures
        word_bytes(x).len() == 4,
        word_at(word_bytes(x) + tail, 0) == x,
{
    let bytes = word_bytes(x) + tail;
    assert(bytes[0] == word_bytes(x)[0] && bytes[1] == word_bytes(x)[1] && bytes[2] == word_bytes(
        x,
    )[2] && bytes[3] == word_bytes(x)[3]);
}

#[verifier::spinoff_prover]
#[verifier::rlimit(40)]
proof fn lemma_word_back(bytes: Seq<u8>, i: int)
    requires
        0 <= i,
        i + 4 <= bytes.len(),
    ensures
        word_bytes(word_at(bytes, i)) == bytes.subrange(i, i + 4),
{
    let (b0, b1, b2, b3) = (bytes[i], bytes[i + 1], bytes[i + 2], bytes[i + 3]);
    let x = word_at(bytes, i);
    assert(x as int == b0 + 0x100 * (b1 + 0x100 * (b2 + 0x100 * b3)));
    assert(x / 0x100 == b1 + 0x100 * (b2 + 0x100 * b3));
    assert(x / 0x1_0000 == b2 + 0x100 * b3);
    assert(x / 0x100_0000 == b3);
    assert(word_bytes(x)[0] == b0);
    assert(word_bytes(x)[1] == b1);
    assert(word_bytes(x)[2] == b2);
    assert(word_bytes(x)[3] == b3);
    assert(word_bytes(x) =~= bytes.subrange(i, i + 4));
}

/// A word is written with its least significant byte first: byte `i` holds the eight bits
/// from bit `8 * i` on.
pub proof fn words_are_little_endian(x: u32)
    ensures
        word_bytes(x).len() == 4,
        word_bytes(x)[0] as u32 == x & 0xff,
        word_bytes(x)[1] as u32 == (x >> 8) & 0xff,
        word_bytes(x)[2] as u32 == (x >> 16) & 0xff,
        word_bytes(x)[3] as u32 == (x >> 24) & 0xff,
{
    assert(x % 0x100 == x & 0xff) by (bit_vector);
    assert(x / 0x100 % 0x100 == (x >> 8) & 0xff) by (bit_vector);
    assert(x / 0x1_0000 % 0x100 == (x >> 16) & 0xff) by (bit_vector);
    assert(x / 0x100_0000 == (x >> 24) & 0xff) by (bit_vector);
    assert(x & 0xff < 0x100) by (bit_vector);
    assert((x >> 8) & 0xff < 0x100) by (bit_vector);
    assert((x >> 16) & 0xff < 0x100) by (bit_vector);
    assert((x >> 24) & 0xff < 0x100) by (bit_vector);
}

/// A word is read with its least significant byte first: the byte `i` places on counts for
/// the eight bits from bit `8 * i` on.
pub proof fn words_are_read_little_endian(bytes: Seq<u8>, i: int)
    requires
        0 <= i,
        i + 4 <= bytes.len(),
    ensures
        word_at(bytes, i) == (bytes[i] as u32) | (bytes[i + 1] as u32) << 8 | (bytes[i
            + 2] as u32) << 16 | (bytes[i + 3] as u32) << 24,
{
    let (b0, b1, b2, b3) = (bytes[i], bytes[i + 1], bytes[i + 2], bytes[i + 3]);
    assert((b0 as u32) | (b1 as u32) << 8 | (b2 as u32) << 16 | (b3 as u32) << 24 == b0 + b1
        * 0x100 + b2 * 0x1_0000 + b3 * 0x100_0000) by (bit_vector);
}

/// The bytes of a frame are eight bytes of header and then the payload as it is. The header
/// holds the opcode and the length of the payload, each with its least significant byte
/// first.
pub proof fn frames_are_laid_out(opcode: u32, payload: Seq<u8>)
    requires
        payload.len() <= u32::MAX,
    ensures
        ({
            let bytes = encoded(opcode, payload);
            let length = payload.len() as u32;
            &&& bytes.len() == 8 + payload.len()
            &&& bytes.skip(8) == payload
            &&& bytes[0] as u32 == opcode & 0xff
            &&& bytes[1] as u32 == (opcode >> 8) & 0xff
            &&& bytes[2] as u32 == (opcode >> 16) & 0xff
            &&& bytes[3] as u32 == (opcode >> 24) & 0xff
            &&& bytes[4] as u32 == length & 0xff
            &&& bytes[5] as u32 == (length >> 8) & 0xff
            &&& bytes[6] as u32 == (length >> 16) & 0xff
            &&& bytes[7] as u32 == (length >> 24) & 0xff
        }),
{
    let bytes = encoded(opcode, payload);
    let length = payload.len() as u32;
    words_are_little_endian(opcode);
    words_are_little_endian(length);
    assert(length == (payload.len() % 0x1_0000_0000) as u32);
    assert(bytes.skip(8) =~= payload);
    assert(bytes[0] == word_bytes(opcode)[0] && bytes[1] == word_bytes(opcode)[1] && bytes[2]
        == word_bytes(opcode)[2] && bytes[3] == word_bytes(opcode)[3]);
    assert(bytes[4] == word_bytes(length)[0] && bytes[5] == word_bytes(length)[1] && bytes[6]
        == word_bytes(length)[2] && bytes[7] == word_bytes(length)[3]);
}

/// A payload that is longer than a header can say still goes out whole, with the opcode
/// before it.
pub proof fn payloads_go_out_whole(opcode: u32, payload: Seq<u8>)
    ensures
        encoded(opcode, payload).len() == 8 + payload.len(),
        encoded(opcode, payload).skip(8) == payload,
        word_at(encoded(opcode, payload), 0) == opcode,
        word_at(encoded(opcode, payload), 4) == payload.len() % 0x1_0000_0000,
{
    let bytes = encoded(opcode, payload);
    let length = (payload.len() % 0x1_0000_0000) as u32;
    lemma_word(opcode, word_bytes(length) + payload);
    lemma_word(length, payload);
    assert(bytes =~= word_bytes(opcode) + (word_bytes(length) + payload));
    assert(bytes.skip(4) =~= word_bytes(length) + payload);
    assert(bytes[4] == bytes.skip(4)[0] && bytes[5] == bytes.skip(4)[1] && bytes[6] == bytes.skip(
        4,
    )[2] && bytes[7] == bytes.skip(4)[3]);
    assert(bytes.skip(8) =~= payload);
}

/// Bytes read as a frame exactly if they hold a header and as many bytes behind it as the
/// header announces, within the limit; the frame is then what stands there, whatever
/// follows. A header that announces more than the limit is refused, and anything less is
/// waited for.
pub proof fn frames_are_read_as_they_stand(bytes: Seq<u8>, limit: u32)
    ensures
        ({
            let announced = (bytes[4] as u32) | (bytes[5] as u32) << 8 | (bytes[6] as u32) << 16 | (
            bytes[7] as u32) << 24;
            match parse(bytes, limit) {
                Parsed::Partial => bytes.len() < 8 || (announced <= limit && bytes.len() < 8
                    + announced),
                Parsed::TooLarge(length) => bytes.len() >= 8 && announced > limit && length
                    == announced,
                Parsed::Complete { opcode, payload } => bytes.len() >= 8 + announced && announced
                    <= limit && opcode == (bytes[0] as u32) | (bytes[1] as u32) << 8 | (
                bytes[2] as u32) << 16 | (bytes[3] as u32) << 24 && payload == bytes.subrange(
                    8,
                    8 + announced as int,
                ),
            }
        }),
        bytes.len() < 8 ==> missing(bytes) == 8 - bytes.len(),
        bytes.len() >= 8 ==> missing(bytes) == 8 + ((bytes[4] as u32) | (bytes[5] as u32) << 8 | (
        bytes[6] as u32) << 16 | (bytes[7] as u32) << 24) - bytes.len(),
{
    if bytes.len() >= 8 {
        words_are_read_little_endian(bytes, 0);
        words_are_read_little_endian(bytes, 4);
    }
}

/// A frame within the limit reads back from its bytes, and from nothing less than all of
/// them.
pub proof fn read_gives_back_what_encode_wrote(opcode: u32, payload: Seq<u8>, limit: u32)
    requires
        payload.len() <= limit,
    ensures
        parse(encoded(opcode, payload), limit) == (Parsed::Complete { opcode, payload }),
        forall|n: int|
            0 <= n < encoded(opcode, payload).len() ==> (#[trigger] parse(
                encoded(opcode, payload).take(n),
                limit,
            )) is Partial,
{
    let bytes = encoded(opcode, payload);
    let length = (payload.len() % 0x1_0000_0000) as u32;
    lemma_word(opcode, word_bytes(length) + payload);
    lemma_word(length, payload);
    assert(bytes =~= word_bytes(opcode) + (word_bytes(length) + payload));
    assert(bytes.skip(4) =~= word_bytes(length) + payload);
    assert(bytes[4] == bytes.skip(4)[0] && bytes[5] == bytes.skip(4)[1] && bytes[6] == bytes.skip(
        4,
    )[2] && bytes[7] == bytes.skip(4)[3]);
    assert(word_at(bytes, 4) == length);
    assert(bytes.subrange(8, 8 + length as int) =~= payload);
}

/// The bytes of all pieces, one after the other.
pub open spec fn joined(pieces: Seq<Seq<u8>>) -> Seq<u8>
    decreases pieces.len(),
{
    if pieces.len() == 0 {
        seq![]
    } else {
        pieces[0] + joined(pieces.skip(1))
    }
}

/// What a reader that holds `received` comes to when it is fed one piece after the other,
/// up to the piece that ends the reading.
pub open spec fn fed(received: Seq<u8>, pieces: Seq<Seq<u8>>, limit: u32) -> Parsed
    decreases pieces.len(),
{
    if pieces.len() == 0 {
        parse(received, limit)
    } else {
        match parse(received + pieces[0], limit) {
            Parsed::Partial => fed(received + pieces[0], pieces.skip(1), limit),
            ended => ended,
        }
    }
}

/// However a stream cuts the bytes of a frame into pieces, the reader comes to that frame.
pub proof fn any_pieces_read_back(
    opcode: u32,
    payload: Seq<u8>,
    pieces: Seq<Seq<u8>>,
    limit: u32,
)
    requires
        payload.len() <= limit,
        joined(pieces) == encoded(opcode, payload),
    ensures
        fed(seq![], pieces, limit) == (Parsed::Complete { opcode, payload }),
{
    assert(seq![] + joined(pieces) =~= encoded(opcode, payload));
    lemma_pieces(seq![], opcode, payload, pieces, limit);
}

proof fn lemma_pieces(
    received: Seq<u8>,
    opcode: u32,
    payload: Seq<u8>,
    pieces: Seq<Seq<u8>>,
    limit: u32,
)
    requires
        payload.len() <= limit,
        received + joined(pieces) == encoded(opcode, payload),
    ensures
        fed(received, pieces, limit) == (Parsed::Complete { opcode, payload }),
    decreases pieces.len(),
{
    let bytes = encoded(opcode, payload);
    read_gives_back_what_encode_wrote(opcode, payload, limit);
    if pieces.len() == 0 {
        assert(received =~= bytes);
    } else {
        let next = received + pieces[0];
        assert(next + joined(pieces.skip(1)) =~= bytes);
        assert(bytes.take(next.len() as int) =~= next);
        if next.len() < bytes.len() {
            lemma_pieces(next, opcode, payload, pieces.skip(1), limit);
        } else {
            assert(next =~= bytes);
        }
    }
}

/// The bytes of frames that are written one after the other.
pub open spec fn encoded_all(frames: Seq<(u32, Seq<u8>)>) -> Seq<u8>
    decreases frames.len(),
{
    if frames.len() == 0 {
        seq![]
    } else {
        encoded(frames[0].0, frames[0].1) + encoded_all(frames.skip(1))
    }
}

/// What a reader takes of the next piece when it wants that many bytes, and the pieces that
/// are left.
pub open spec fn cut(pieces: Seq<Seq<u8>>, wanted: int) -> (Seq<u8>, Seq<Seq<u8>>) {
    if pieces[0].len() <= wanted {
        (pieces[0], pieces.skip(1))
    } else {
        (pieces[0].take(wanted), pieces.update(0, pieces[0].skip(wanted)))
    }
}

/// The frames that come of a stream that hands out these pieces, when one reader after the
/// other takes from it, each as much as it wants of the next piece; the first of them has
/// `received` already.
pub open spec fn read_all(received: Seq<u8>, pieces: Seq<Seq<u8>>, limit: u32) -> Seq<
    (u32, Seq<u8>),
>
    decreases pieces.len(), pieces[0].len(),
{
    if pieces.len() == 0 || missing(received) <= 0 {
        seq![]
    } else {
        let (taken, rest) = cut(pieces, missing(received));
        match parse(received + taken, limit) {
            Parsed::Partial => read_all(received + taken, rest, limit),
            Parsed::Complete { opcode, payload } => seq![(opcode, payload)] + read_all(
                seq![],
                rest,
                limit,
            ),
            Parsed::TooLarge(_) => seq![],
        }
    }
}

/// Frames within the limit that are written one after the other read back as those frames,
/// however the stream cuts their bytes into pieces.
pub proof fn any_pieces_read_back_as_the_frames(
    frames: Seq<(u32, Seq<u8>)>,
    pieces: Seq<Seq<u8>>,
    limit: u32,
)
    requires
        forall|i: int| 0 <= i < frames.len() ==> (#[trigger] frames[i]).1.len() <= limit,
        joined(pieces) == encoded_all(frames),
    ensures
        read_all(seq![], pieces, limit) == frames,
{
    assert(seq![] + joined(pieces) =~= encoded_all(frames));
    lemma_read_all(seq![], frames, pieces, limit);
}

proof fn lemma_read_all(
    received: Seq<u8>,
    frames: Seq<(u32, Seq<u8>)>,
    pieces: Seq<Seq<u8>>,
    limit: u32,
)
    requires
        forall|i: int| 0 <= i < frames.len() ==> (#[trigger] frames[i]).1.len() <= limit,
        received + joined(pieces) == encoded_all(frames),
        frames.len() == 0 ==> received.len() == 0,
        frames.len() > 0 ==> received.len() < encoded(frames[0].0, frames[0].1).len(),
    ensures
        read_all(received, pieces, limit) == frames,
    decreases pieces.len(), pieces[0].len(),
{
    if frames.len() == 0 {
        lemma_no_frames(received, pieces, limit);
        assert(frames =~= seq![]);
    } else {
        let (opcode, payload) = frames[0];
        let first = encoded(opcode, payload);
        let others = frames.skip(1);
        let k = received.len() as int;
        lemma_prefix(received, joined(pieces), first, encoded_all(others));
        lemma_missing(opcode, payload, k);
        if pieces.len() == 0 {
            assert(received + joined(pieces) =~= received);
        } else {
            let wanted = missing(received);
            let (taken, rest) = cut(pieces, wanted);
            lemma_cut(pieces, wanted);
            let next = received + taken;
            assert(next + joined(rest) =~= received + joined(pieces));
            lemma_prefix(next, joined(rest), first, encoded_all(others));
            read_gives_back_what_encode_wrote(opcode, payload, limit);
            if next.len() < first.len() {
                assert(parse(first.take(next.len() as int), limit) is Partial);
                lemma_read_all(next, frames, rest, limit);
            } else {
                assert(seq![] + joined(rest) =~= encoded_all(others));
                assert forall|i: int| 0 <= i < others.len() implies (#[trigger] others[i]).1.len()
                    <= limit by {
                    assert(others[i] == frames[i + 1]);
                }
                lemma_read_all(seq![], others, rest, limit);
                assert(seq![frames[0]] + others =~= frames);
            }
        }
    }
}

proof fn lemma_no_frames(received: Seq<u8>, pieces: Seq<Seq<u8>>, limit: u32)
    requires
        received.len() == 0,
        joined(pieces).len() == 0,
    ensures
        read_all(received, pieces, limit) == Seq::<(u32, Seq<u8>)>::empty(),
    decreases pieces.len(),
{
    if pieces.len() > 0 {
        assert(joined(pieces).len() == pieces[0].len() + joined(pieces.skip(1)).len());
        assert(received + pieces[0] =~= received);
        lemma_no_frames(received, pieces.skip(1), limit);
    }
}

proof fn lemma_cut(pieces: Seq<Seq<u8>>, wanted: int)
    requires
        pieces.len() > 0,
        wanted > 0,
    ensures
        ({
            let (taken, rest) = cut(pieces, wanted);
            &&& taken + joined(rest) == joined(pieces)
            &&& taken.len() <= wanted
            &&& rest.len() < pieces.len() || (rest.len() == pieces.len() && rest[0].len()
                < pieces[0].len())
        }),
{
    let (taken, rest) = cut(pieces, wanted);
    if pieces[0].len() > wanted {
        assert(rest.skip(1) =~= pieces.skip(1));
        assert(pieces[0] =~= taken + rest[0]);
        assert(taken + (rest[0] + joined(rest.skip(1))) =~= pieces[0] + joined(pieces.skip(1)));
    }
}

proof fn lemma_prefix(start: Seq<u8>, end: Seq<u8>, first: Seq<u8>, others: Seq<u8>)
    requires
        start + end == first + others,
        start.len() <= first.len(),
    ensures
        start == first.take(start.len() as int),
        start.len() == first.len() ==> start == first && end == others,
{
    let all = start + end;
    assert(start =~= all.take(start.len() as int));
    assert(first.take(start.len() as int) =~= all.take(start.len() as int));
    if start.len() == first.len() {
        assert(first =~= first.take(start.len() as int));
        assert(end =~= all.skip(start.len() as int));
        assert(others =~= all.skip(start.len() as int));
    }
}

/// What is missing of a frame whose first `k` bytes are there: at most its other bytes, and
/// never nothing.
proof fn lemma_missing(opcode: u32, payload: Seq<u8>, k: int)
    requires
        payload.len() <= u32::MAX,
        0 <= k < encoded(opcode, payload).len(),
    ensures
        0 < missing(encoded(opcode, payload).take(k)) <= encoded(opcode, payload).len() - k,
{
    let bytes = encoded(opcode, payload);
    read_gives_back_what_encode_wrote(opcode, payload, u32::MAX);
    if k >= 8 {
        assert(word_at(bytes.take(k), 4) == word_at(bytes, 4));
    }
}

/// Bytes that read as exactly one frame are the bytes that encoding that frame gives.
pub proof fn encode_gives_back_what_was_read(bytes: Seq<u8>, limit: u32)
    requires
        parse(bytes, limit) matches Parsed::Complete { opcode, payload } && bytes.len() == 8
            + payload.len(),
    ensures
        parse(bytes, limit) matches Parsed::Complete { opcode, payload } && encoded(opcode, payload)
            == bytes,
{
    lemma_word_back(bytes, 0);
    lemma_word_back(bytes, 4);
    let opcode = word_at(bytes, 0);
    let payload = bytes.subrange(8, 8 + word_at(bytes, 4) as int);
    assert(encoded(opcode, payload) =~= bytes);
}

/// A header that announces too long a payload is refused as soon as it is complete,
/// whatever follows it.
pub proof fn too_large_is_refused_at_the_header(header: Seq<u8>, rest: Seq<u8>, limit: u32)
    requires
        header.len() == 8,
        word_at(header, 4) > limit,
    ensures
        parse(header, limit) == Parsed::TooLarge(word_at(header, 4)),
        parse(header + rest, limit) == Parsed::TooLarge(word_at(header, 4)),
{
    assert(word_at(header + rest, 4) == word_at(header, 4));
}

} // verus!
