use serde_json::{Map as Members, Value};
use std::sync::Arc;
use xbridge::gateway::discord::{client_id, extract_client_id, too_large_message, Connection};
use xbridge::gateway::frame::{Frame, CLOSE, FRAME, HANDSHAKE};

fn connection() -> Connection {
    Connection { client_id: "123".to_owned(), cached_ready: None }
}

#[test]
fn the_handshake_names_the_client() {
    let frame = Connection::handshake("1234567890");
    assert_eq!(frame.opcode, HANDSHAKE);
    assert_eq!(frame.payload, b"{\"v\":1,\"client_id\":\"1234567890\"}".to_vec());
}

#[test]
fn the_handshake_announces_its_own_client() {
    for id in ["1234567890", "", "日本 {},:[]", "\u{7f}\u{2028}😀"] {
        let frame = Connection::handshake(id);
        assert_eq!(extract_client_id(&frame.payload).as_deref(), Some(id));
    }
}

#[test]
fn an_id_that_needs_escapes_is_not_announced_as_it_is() {
    for id in ["a\"b", "a\\nb", "a\nb"] {
        let frame = Connection::handshake(id);
        assert_ne!(extract_client_id(&frame.payload).as_deref(), Some(id));
    }
}

#[test]
fn an_answer_opens_the_session_and_is_kept() {
    let answer = Frame { opcode: FRAME, payload: b"{\"evt\":\"READY\"}".to_vec() };
    let conn = match Connection::open("123".to_owned(), answer) {
        Ok(conn) => conn,
        Err(reason) => panic!("refused: {reason}"),
    };
    assert_eq!(conn.client_id, "123");
    let ready: Arc<Frame> = conn.cached_ready.unwrap();
    assert_eq!(ready.opcode, FRAME);
    assert_eq!(ready.payload, b"{\"evt\":\"READY\"}".to_vec());
}

#[test]
fn a_close_refuses_the_session_with_its_reason() {
    let answer = Frame { opcode: CLOSE, payload: b"{\"code\":4000}".to_vec() };
    assert_eq!(Connection::open("1".to_owned(), answer).err().as_deref(), Some("{\"code\":4000}"));
    let answer = Frame { opcode: CLOSE, payload: b"bad \xff client".to_vec() };
    assert_eq!(
        Connection::open("1".to_owned(), answer).err().as_deref(),
        Some("bad \u{fffd} client")
    );
}

#[test]
fn a_frame_is_sent_behind_its_header() {
    let frame = Frame { opcode: FRAME, payload: b"{}".to_vec() };
    assert_eq!(connection().write_frame(&frame), vec![1, 0, 0, 0, 2, 0, 0, 0, b'{', b'}']);
}

#[test]
fn clearing_sets_the_activity_to_null() {
    let frame = connection().send_null_activity();
    assert_eq!(frame.opcode, FRAME);
    assert_eq!(
        String::from_utf8(frame.payload).unwrap(),
        "{\"cmd\":\"SET_ACTIVITY\",\"args\":{\"pid\":0,\"activity\":null},\"nonce\":\"xbridge-clear\"}"
    );
}

#[test]
fn the_discovery_activity_names_the_game() {
    let frame = connection().send_discovery_activity("Portal \"2\"", 4242, 1700000000);
    assert_eq!(frame.opcode, FRAME);
    assert_eq!(
        String::from_utf8(frame.payload).unwrap(),
        "{\"args\":{\"activity\":{\"details\":\"Playing Portal \\\"2\\\"\",\"timestamps\":{\"start\":1700000000}},\"pid\":4242},\"cmd\":\"SET_ACTIVITY\",\"nonce\":\"xbridge-discovery\"}"
    );
}

#[test]
fn the_discovery_activity_is_a_json_document() {
    let frame = connection().send_discovery_activity("日本\n", u32::MAX, u64::MAX);
    let mut timestamps = Members::new();
    timestamps.insert("start".to_owned(), Value::from(u64::MAX));
    let mut activity = Members::new();
    activity.insert("details".to_owned(), Value::from("Playing 日本\n"));
    activity.insert("timestamps".to_owned(), Value::from(timestamps));
    let mut args = Members::new();
    args.insert("pid".to_owned(), Value::from(u32::MAX));
    args.insert("activity".to_owned(), Value::from(activity));
    let mut message = Members::new();
    message.insert("cmd".to_owned(), Value::from("SET_ACTIVITY"));
    message.insert("args".to_owned(), Value::from(args));
    message.insert("nonce".to_owned(), Value::from("xbridge-discovery"));
    let document: Value = serde_json::from_slice(&frame.payload).unwrap();
    assert_eq!(document, Value::from(message));
}

#[test]
fn the_client_id_is_the_member_of_that_name() {
    let found = extract_client_id(b" {\"v\":1, \"client_id\": \"4\\u0032\"} ");
    assert_eq!(found.as_deref(), Some("42"));
    let last = extract_client_id(b"{\"client_id\":\"1\",\"client_id\":\"2\"}");
    assert_eq!(last.as_deref(), Some("2"));
    assert_eq!(extract_client_id(b"{\"client_id\":\"\"}").as_deref(), Some(""));
}

#[test]
fn other_payloads_announce_no_client() {
    assert_eq!(extract_client_id(b""), None);
    assert_eq!(extract_client_id(b"not json"), None);
    assert_eq!(extract_client_id(b"{\"client_id\":\"1\""), None);
    assert_eq!(extract_client_id(b"{\"client_id\":42}"), None);
    assert_eq!(extract_client_id(b"{\"v\":1}"), None);
    assert_eq!(extract_client_id(b"[\"client_id\"]"), None);
    assert_eq!(extract_client_id(b"\"client_id\""), None);
}

#[test]
fn a_parsed_document_names_its_client() {
    let mut members = Members::new();
    members.insert("client_id".to_owned(), Value::from("77"));
    assert_eq!(client_id(&Value::from(members)).as_deref(), Some("77"));
    assert_eq!(client_id(&Value::Null), None);
}

#[test]
fn the_refusal_of_a_long_answer_names_its_length() {
    assert_eq!(too_large_message(2097153), "frame too large: 2097153");
}
