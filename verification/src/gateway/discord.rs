//! The conversation with Discord: the opening handshake, the activity messages, and the
//! client id that a game announces.
use crate::config;
use crate::config::{resolve_socket_dir, socket_path, IpcSettings, SocketPath};
use crate::gateway::frame;
use crate::gateway::frame::{Frame, CLOSE, FRAME, HANDSHAKE};
use crate::json;
use crate::json::{set_member, Json};
use crate::text;
use serde_json::{Map as Members, Value};
use std::sync::Arc;
use vstd::prelude::*;
use vstd::string::*;
use vstd::utf8::*;

verus! {

/// The slot whose socket the gateway uses.
pub const SLOT: u8 = 0;

/// The socket of a slot, if the settings name the directory of sockets.
pub fn resolve_socket_path(slot: u8, settings: IpcSettings) -> (r: Option<SocketPath>)
    ensures
        (r is Some) == (config::socket_dir(settings) is Some),
        r matches Some(path) ==> Some(path.directory) == config::socket_dir(settings)
            && path.file_name@ == config::socket_name(slot),
{
    match resolve_socket_dir(settings) {
        Some(directory) => Some(socket_path(directory, slot)),
        None => None,
    }
}

/// A session that Discord has accepted.
pub struct Connection {
    /// The application on whose behalf the session was opened.
    pub client_id: String,
    /// Discord's answer to the handshake.
    pub cached_ready: Option<Arc<Frame>>,
}

/// The text of the handshake that opens a session.
pub open spec fn handshake_text(client_id: Seq<char>) -> Seq<char> {
    "{\"v\":1,\"client_id\":\""@ + client_id + "\"}"@
}

/// The text of the message that clears the activity.
pub open spec fn clear_text() -> Seq<char> {
    "{\"cmd\":\"SET_ACTIVITY\",\"args\":{\"pid\":0,\"activity\":null},\"nonce\":\"xbridge-clear\"}"@
}

/// The message that shows a game as the activity.
pub open spec fn discovery_document(app_name: Seq<char>, pid: u32, start: u64) -> Json {
    Json::Object(
        map![
            "cmd"@ => Json::Text("SET_ACTIVITY"@),
            "args"@ => Json::Object(map![
                "pid"@ => Json::Integer(pid as int),
                "activity"@ => Json::Object(map![
                    "details"@ => Json::Text("Playing "@ + app_name),
                    "timestamps"@ => Json::Object(map![
                        "start"@ => Json::Integer(start as int),
                    ]),
                ]),
            ]),
            "nonce"@ => Json::Text("xbridge-discovery"@),
        ],
    )
}

impl Connection {
    /// The frame that asks Discord for a session.
    pub fn handshake(client_id: &str) -> (r: Frame)
        ensures
            r.opcode == HANDSHAKE,
            r.payload@ == encode_utf8(handshake_text(client_id@)),
            r.payload@ == encode_utf8("{\"v\":1,\"client_id\":\""@ + client_id@ + "\"}"@),
    {
        let mut out: String = "{\"v\":1,\"client_id\":\"".to_owned();
        out.append(client_id);
        out.append("\"}");
        Frame { opcode: HANDSHAKE, payload: out.as_str().as_bytes_vec() }
    }

    /// What comes of Discord's answer to the handshake: a CLOSE refuses the session, with
    /// its payload as the reason; any other frame opens it and is kept.
    pub fn open(client_id: String, response: Frame) -> (r: Result<Connection, String>)
        ensures
            response.opcode == CLOSE ==> (r matches Err(reason) && reason@ == text::utf8_lossy(
                response.payload@,
            )),
            response.opcode != CLOSE ==> (r matches Ok(conn) && conn.client_id == client_id
                && conn.cached_ready == Some(Arc::new(response))),
    {
        if response.opcode == CLOSE {
            return Err(text::decode_utf8_lossy(response.payload.as_slice()));
        }
        Ok(Connection { client_id, cached_ready: Some(Arc::new(response)) })
    }

    /// The bytes that send a frame to Discord.
    pub fn write_frame(&self, f: &Frame) -> (r: Vec<u8>)
        requires
            f.payload@.len() + 8 <= isize::MAX,
        ensures
            r@ == frame::encoded(f.opcode, f.payload@),
    {
        frame::encode(f.opcode, f.payload.as_slice())
    }

    /// The frame that clears the activity.
    pub fn send_null_activity(&self) -> (r: Frame)
        ensures
            r.opcode == FRAME,
            r.payload@ == encode_utf8(clear_text()),
    {
        let message: &str = "{\"cmd\":\"SET_ACTIVITY\",\"args\":{\"pid\":0,\"activity\":null},\"nonce\":\"xbridge-clear\"}";
        Frame { opcode: FRAME, payload: message.as_bytes_vec() }
    }

    /// The frame that shows a game as the activity since `start`, in seconds since 1970.
    pub fn send_discovery_activity(&self, app_name: &str, pid: u32, start: u64) -> (r: Frame)
        ensures
            r.opcode == FRAME,
            r.payload@ == json::written(discovery_document(app_name@, pid, start)),
            exists|document: Json|
                r.payload@ == #[trigger] json::written(document) && (document matches Json::Object(
                    message,
                ) && message.contains_key("args"@) && (message["args"@] matches Json::Object(args)
                    && args.contains_key("pid"@) && args["pid"@] == Json::Integer(pid as int)
                    && args.contains_key("activity"@) && (args["activity"@] matches Json::Object(
                    activity,
                ) && activity.contains_key("details"@) && activity["details"@] == Json::Text(
                    "Playing "@ + app_name@,
                ) && activity.contains_key("timestamps"@) && (activity["timestamps"@]
                    matches Json::Object(timestamps) && timestamps.contains_key("start"@)
                    && timestamps["start"@] == Json::Integer(start as int))))),
    {
        let mut details: String = "Playing ".to_owned();
        details.append(app_name);
        let mut timestamps: Members<String, Value> = Members::new();
        set_member(&mut timestamps, "start", json::number(start));
        let mut activity: Members<String, Value> = Members::new();
        set_member(&mut activity, "details", json::text(details.as_str()));
        set_member(&mut activity, "timestamps", json::object(timestamps));
        let mut args: Members<String, Value> = Members::new();
        set_member(&mut args, "pid", json::number(pid as u64));
        set_member(&mut args, "activity", json::object(activity));
        let mut message: Members<String, Value> = Members::new();
        set_member(&mut message, "cmd", json::text("SET_ACTIVITY"));
        set_member(&mut message, "args", json::object(args));
        set_member(&mut message, "nonce", json::text("xbridge-discovery"));
        let document: Value = json::object(message);
        assert(json::json_of(document) == discovery_document(app_name@, pid, start));
        proof {
            discovery_shows_the_game(app_name@, pid, start);
            lemma_keys_differ();
        }
        assert(json::depth_at_most(json::json_of(document), 128)) by {
            reveal_with_fuel(json::depth_at_most, 5);
        }
        Frame { opcode: FRAME, payload: json::to_bytes(&document) }
    }
}

proof fn lemma_keys_differ()
    ensures
        "cmd"@ != "args"@,
        "cmd"@ != "nonce"@,
        "args"@ != "nonce"@,
        "pid"@ != "activity"@,
        "details"@ != "timestamps"@,
{
    reveal_strlit("cmd");
    reveal_strlit("args");
    reveal_strlit("nonce");
    reveal_strlit("pid");
    reveal_strlit("activity");
    reveal_strlit("details");
    reveal_strlit("timestamps");
    assert("cmd"@.len() == 3 && "args"@.len() == 4 && "nonce"@.len() == 5);
    assert("pid"@.len() == 3 && "activity"@.len() == 8);
    assert("details"@.len() == 7 && "timestamps"@.len() == 10);
}

/// The message that shows a game sets the activity of its process: the details are the
/// whole name of the game behind the word that says what is done with it, the start is the
/// given one, and the message holds nothing else.
pub proof fn discovery_shows_the_game(app_name: Seq<char>, pid: u32, start: u64)
    ensures
        discovery_document(app_name, pid, start) matches Json::Object(message) && {
            &&& message.dom() == set!["cmd"@, "args"@, "nonce"@]
            &&& message["cmd"@] == Json::Text("SET_ACTIVITY"@)
            &&& message["nonce"@] == Json::Text("xbridge-discovery"@)
            &&& message["args"@] matches Json::Object(args) && {
                &&& args.dom() == set!["pid"@, "activity"@]
                &&& args["pid"@] == Json::Integer(pid as int)
                &&& args["activity"@] matches Json::Object(activity) && {
                    &&& activity.dom() == set!["details"@, "timestamps"@]
                    &&& activity["details"@] == Json::Text("Playing "@ + app_name)
                    &&& activity["timestamps"@] matches Json::Object(timestamps) && {
                        &&& timestamps.dom() == set!["start"@]
                        &&& timestamps["start"@] == Json::Integer(start as int)
                    }
                }
            }
        },
{
    lemma_keys_differ();
    let document = discovery_document(app_name, pid, start);
    let message = document->Object_0;
    let args = message["args"@]->Object_0;
    let activity = args["activity"@]->Object_0;
    let timestamps = activity["timestamps"@]->Object_0;
    assert(message.dom() =~= set!["cmd"@, "args"@, "nonce"@]);
    assert(args.dom() =~= set!["pid"@, "activity"@]);
    assert(activity.dom() =~= set!["details"@, "timestamps"@]);
    assert(timestamps.dom() =~= set!["start"@]);
}

/// The messages of different games, processes or starts are different.
pub proof fn discovery_messages_differ(
    name: Seq<char>,
    pid: u32,
    start: u64,
    other_name: Seq<char>,
    other_pid: u32,
    other_start: u64,
)
    requires
        discovery_document(name, pid, start) == discovery_document(
            other_name,
            other_pid,
            other_start,
        ),
    ensures
        name == other_name,
        pid == other_pid,
        start == other_start,
{
    discovery_shows_the_game(name, pid, start);
    discovery_shows_the_game(other_name, other_pid, other_start);
    let details = "Playing "@ + name;
    let other_details = "Playing "@ + other_name;
    assert(details == other_details);
    assert(name =~= details.skip("Playing "@.len() as int));
    assert(other_name =~= other_details.skip("Playing "@.len() as int));
}

/// The handshake for a client id is that id, whatever it holds, between a fixed start and a
/// fixed end.
pub proof fn handshake_holds_the_client(client_id: Seq<char>)
    ensures
        handshake_text(client_id).len() == client_id.len() + 22,
        handshake_text(client_id).take(20) == "{\"v\":1,\"client_id\":\""@,
        handshake_text(client_id).subrange(20, 20int + client_id.len()) == client_id,
        handshake_text(client_id).skip(20int + client_id.len()) == "\"}"@,
{
    reveal_strlit("{\"v\":1,\"client_id\":\"");
    reveal_strlit("\"}");
    let handshake = handshake_text(client_id);
    assert(handshake.take(20) =~= "{\"v\":1,\"client_id\":\""@);
    assert(handshake.subrange(20, 20int + client_id.len()) =~= client_id);
    assert(handshake.skip(20int + client_id.len()) =~= "\"}"@);
}

/// A document names a client exactly if it is an object whose member `client_id` is that
/// text.
pub proof fn clients_are_named_by_their_member(document: Json, id: Seq<char>)
    ensures
        client_id_in(document) == Some(id) <==> (document matches Json::Object(members)
            && members.contains_key("client_id"@) && members["client_id"@] == Json::Text(id)),
{
}

/// A payload announces a client exactly if it is JSON, and the document that it holds is an
/// object whose member `client_id` is that text.
pub proof fn clients_are_announced_by_their_document(payload: Seq<u8>, id: Seq<char>)
    ensures
        announced_client(payload) == Some(id) <==> (json::parsed(payload) matches Some(document)
            && (document matches Json::Object(members) && members.contains_key("client_id"@)
            && members["client_id"@] == Json::Text(id))),
{
}

/// The client id that a document names: its member `client_id`, where that is a text.
pub open spec fn client_id_in(document: Json) -> Option<Seq<char>> {
    match document {
        Json::Object(members) => if members.contains_key("client_id"@) {
            match members["client_id"@] {
                Json::Text(id) => Some(id),
                _ => None,
            }
        } else {
            None
        },
        _ => None,
    }
}

/// The client id that a parsed document names.
pub fn client_id(document: &Value) -> (r: Option<String>)
    ensures
        (r is Some) == (client_id_in(json::json_of(*document)) is Some),
        r matches Some(id) ==> Some(id@) == client_id_in(json::json_of(*document)),
{
    match json::member(document, "client_id") {
        None => None,
        Some(value) => match value.as_str() {
            None => None,
            Some(id) => Some(id.to_owned()),
        },
    }
}

/// The client id in the payload of a game's handshake, if the payload is a JSON object
/// that names one.
pub open spec fn announced_client(payload: Seq<u8>) -> Option<Seq<char>> {
    match json::parsed(payload) {
        Some(document) => client_id_in(document),
        None => None,
    }
}

/// The client id in the payload of a game's handshake. A handshake as `Connection` makes it
/// gives back the id that it was made for, if the id needs no escapes.
pub fn extract_client_id(payload: &[u8]) -> (r: Option<String>)
    ensures
        (r is Some) == (announced_client(payload@) is Some),
        r matches Some(id) ==> Some(id@) == announced_client(payload@),
        gives_back_the_client(
            payload@,
            match r {
                Some(id) => Some(id@),
                None => None,
            },
        ),
{
    let read = json::parse(payload);
    proof {
        lemma_handshake_is_read(payload@, json::outcome(read));
    }
    match read {
        Err(_) => None,
        Ok(document) => client_id(&document),
    }
}

/// Whether a client is the one that a payload was made for, where the payload is that of a
/// handshake for a client id without quotation marks, backslashes and control characters.
pub open spec fn gives_back_the_client(payload: Seq<u8>, client: Option<Seq<char>>) -> bool {
    forall|id: Seq<char>|
        json::is_plain(id) && payload == encode_utf8(#[trigger] handshake_text(id)) ==> client
            == Some(id)
}

proof fn lemma_handshake_is_read(payload: Seq<u8>, read: Option<Json>)
    requires
        json::reads_simple_objects(payload, read),
    ensures
        gives_back_the_client(
            payload,
            match read {
                Some(document) => client_id_in(document),
                None => None,
            },
        ),
{
    assert forall|id: Seq<char>|
        json::is_plain(id) && payload == encode_utf8(
            #[trigger] handshake_text(id),
        ) implies (match read {
        Some(document) => client_id_in(document),
        None => None,
    }) == Some(id) by {
        let version = ("v"@, Json::Integer(1));
        let client = ("client_id"@, Json::Text(id));
        let members = seq![version, client];
        reveal_strlit("v");
        reveal_strlit("client_id");
        reveal_strlit("\"");
        reveal_strlit(":");
        reveal_strlit(",");
        reveal_strlit("{");
        reveal_strlit("}");
        reveal_strlit("\"}");
        reveal_strlit("{\"v\":1,\"client_id\":\"");
        reveal_with_fuel(json::members_text, 3);
        reveal_with_fuel(json::object_of, 3);
        assert(members.drop_last() =~= seq![version]);
        assert(members.drop_last().drop_last() =~= seq![]);
        assert(text::decimal(1) =~= seq!['1']);
        assert(json::object_text(members) =~= handshake_text(id));
        assert(json::object_of(members)["client_id"@] == Json::Text(id));
    }
}

/// The message of a header that the session refuses to read on from.
pub fn too_large_message(length: u32) -> (r: String)
    ensures
        r@ == "frame too large: "@ + text::decimal(length as nat),
{
    let mut out: String = "frame too large: ".to_owned();
    text::push_decimal(&mut out, length as u64);
    out
}

} // verus!
