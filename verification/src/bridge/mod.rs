//! The plain bridge: one pipe per slot, whose traffic is copied to and from the socket of
//! the same slot.
pub mod path_resolver;
pub mod slot;
pub mod writer;

use crate::config;
use crate::gateway::frame;
use crate::gateway::frame::{Frame, CLOSE, FRAME};
use crate::json;
use crate::json::{set_member, Json};
use crate::text;
use serde_json::{Map as Members, Value};
use vstd::prelude::*;
use vstd::string::*;
use vstd::utf8::*;

verus! {

/// How many slots there are.
pub const SLOT_COUNT: u8 = 10;

/// The bytes of a frame. A payload is at most as long as a vector can be with the header
/// before it.
pub fn make_frame(opcode: u32, payload: &[u8]) -> (r: Vec<u8>)
    requires
        payload@.len() + 8 <= isize::MAX,
    ensures
        r@ == frame::encoded(opcode, payload@),
{
    frame::encode(opcode, payload)
}

/// The name of the pipe of a slot.
pub open spec fn name_of_pipe(slot: u8) -> Seq<char> {
    "\\\\.\\pipe\\discord-ipc-"@ + text::decimal(slot as nat)
}

/// The name of the pipe of a slot.
pub fn pipe_name(slot: u8) -> (r: String)
    ensures
        r@ == name_of_pipe(slot),
{
    let mut name: String = "\\\\.\\pipe\\discord-ipc-".to_owned();
    text::push_decimal(&mut name, slot as u64);
    name
}

/// The pipe of a slot has the name of the slot's socket, below the directory of pipes.
pub proof fn pipes_are_named_after_sockets(slot: u8)
    ensures
        name_of_pipe(slot) == "\\\\.\\pipe\\"@ + config::socket_name(slot),
{
    reveal_strlit("\\\\.\\pipe\\discord-ipc-");
    reveal_strlit("\\\\.\\pipe\\");
    reveal_strlit("discord-ipc-");
    assert(name_of_pipe(slot) =~= "\\\\.\\pipe\\"@ + config::socket_name(slot));
}

/// The message that clears the activity.
pub open spec fn clear_document() -> Json {
    Json::Object(
        map![
            "cmd"@ => Json::Text("SET_ACTIVITY"@),
            "args"@ => Json::Object(map![
                "pid"@ => Json::Integer(0),
                "activity"@ => Json::Null,
            ]),
            "nonce"@ => Json::Text("xbridge-clear"@),
        ],
    )
}

/// The frame that clears the activity when the game is done.
pub fn clear_frame() -> (r: Frame)
    ensures
        r.opcode == FRAME,
        r.payload@ == json::written(clear_document()),
{
    let mut args: Members<String, Value> = Members::new();
    set_member(&mut args, "pid", json::number(0));
    set_member(&mut args, "activity", json::null());
    let mut message: Members<String, Value> = Members::new();
    set_member(&mut message, "cmd", json::text("SET_ACTIVITY"));
    set_member(&mut message, "args", json::object(args));
    set_member(&mut message, "nonce", json::text("xbridge-clear"));
    let document: Value = json::object(message);
    assert(json::json_of(document) == clear_document());
    assert(json::depth_at_most(json::json_of(document), 128)) by {
        reveal_with_fuel(json::depth_at_most, 3);
    }
    Frame { opcode: FRAME, payload: json::to_bytes(&document) }
}

/// The message that clears the activity sets it to nothing, for no process.
pub proof fn clearing_sets_no_activity()
    ensures
        clear_document() matches Json::Object(message) && {
            &&& message.dom() == set!["cmd"@, "args"@, "nonce"@]
            &&& message["cmd"@] == Json::Text("SET_ACTIVITY"@)
            &&& message["nonce"@] == Json::Text("xbridge-clear"@)
            &&& message["args"@] matches Json::Object(args) && {
                &&& args.dom() == set!["pid"@, "activity"@]
                &&& args["pid"@] == Json::Integer(0)
                &&& args["activity"@] == Json::Null
            }
        },
{
    reveal_strlit("cmd");
    reveal_strlit("args");
    reveal_strlit("nonce");
    reveal_strlit("pid");
    reveal_strlit("activity");
    assert("cmd"@.len() == 3 && "args"@.len() == 4 && "nonce"@.len() == 5);
    assert("pid"@.len() == 3 && "activity"@.len() == 8);
    let message = clear_document()->Object_0;
    let args = message["args"@]->Object_0;
    assert(message.dom() =~= set!["cmd"@, "args"@, "nonce"@]);
    assert(args.dom() =~= set!["pid"@, "activity"@]);
}

/// The text of the frame that takes leave of Discord.
pub open spec fn close_text() -> Seq<char> {
    "{\"code\":1000,\"message\":\"Normal Closure\"}"@
}

/// The bytes that take leave of Discord.
pub open spec fn close_bytes() -> Seq<u8> {
    seq![0x02u8, 0, 0, 0, 0x28, 0, 0, 0] + encode_utf8(close_text())
}

/// The bytes that take leave of Discord.
pub fn close_frame() -> (r: Vec<u8>)
    ensures
        r@ == close_bytes(),
{
    let mut bytes: Vec<u8> = vec![0x02u8, 0, 0, 0, 0x28, 0, 0, 0];
    let payload: &str = "{\"code\":1000,\"message\":\"Normal Closure\"}";
    bytes.extend_from_slice(payload.as_bytes());
    assert(bytes@ =~= close_bytes());
    bytes
}

/// The bytes that take leave of Discord are a frame: a CLOSE with the text as its payload.
pub proof fn leave_is_a_close_frame()
    ensures
        close_bytes() == frame::encoded(CLOSE, encode_utf8(close_text())),
{
    reveal_strlit("{\"code\":1000,\"message\":\"Normal Closure\"}");
    assert(is_ascii_chars(close_text()));
    is_ascii_chars_encode_utf8(close_text());
    assert(encode_utf8(close_text()).len() == 0x28);
    assert(close_bytes() =~= frame::encoded(CLOSE, encode_utf8(close_text())));
}

/// A handshake goes to Discord exactly as the game sent it: the frame made of what was
/// read has the bytes that were read.
pub proof fn handshake_is_forwarded_unchanged(bytes: Seq<u8>)
    requires
        frame::parse(bytes, u32::MAX) matches frame::Parsed::Complete { opcode, payload }
            && bytes.len() == 8 + payload.len(),
    ensures
        frame::parse(bytes, u32::MAX) matches frame::Parsed::Complete { opcode, payload }
            && frame::encoded(opcode, payload) == bytes,
{
    frame::encode_gives_back_what_was_read(bytes, u32::MAX);
}

} // verus!
