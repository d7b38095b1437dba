use std::sync::Arc;
use xbridge::gateway::discord::Connection;
use xbridge::gateway::frame::{Frame, CLOSE, FRAME, HANDSHAKE, PING};
use xbridge::gateway::machine::{
    hello_event, DiscoveryStage, Effect, Event, Gateway, Phase, ProxyStep, Request, SessionStage,
};
use xbridge::shared::{DiscoveryEvent, SCAN_INTERVAL};

fn frame(opcode: u32, text: &str) -> Arc<Frame> {
    Arc::new(Frame { opcode, payload: text.as_bytes().to_vec() })
}

fn ready() -> Option<Arc<Frame>> {
    Some(frame(FRAME, "READY"))
}

fn detected() -> Event {
    Event::Discovery(DiscoveryEvent::GameDetected {
        app_id: "10".to_owned(),
        app_name: "Portal".to_owned(),
        pid: 42,
    })
}

fn exited() -> Event {
    Event::Discovery(DiscoveryEvent::GameExited { app_id: "10".to_owned() })
}

fn hello(client_id: &str) -> Event {
    Event::Hello(client_id.to_owned())
}

fn text(frame: &Frame) -> String {
    format!("{}:{}", frame.opcode, String::from_utf8_lossy(&frame.payload))
}

fn asked(gateway: &Gateway) -> String {
    match gateway.request() {
        Request::CreatePipe => "create".to_owned(),
        Request::Sleep => "sleep".to_owned(),
        Request::Wait(sources) => {
            let mut on = vec!["wait"];
            for (set, name) in [
                (sources.pipe_connect, "connect"),
                (sources.pipe_read, "read"),
                (sources.discord, "discord"),
                (sources.discovery, "discovery"),
                (sources.timer, "timer"),
            ] {
                if set {
                    on.push(name);
                }
            }
            on.join(" ")
        }
        Request::ReadHandshake => "handshake".to_owned(),
        Request::OpenDiscord(client_id) => format!("open {client_id}"),
        Request::SendActivity(name, pid) => format!("activity {name} {pid}"),
        Request::StartReader => "reader".to_owned(),
        Request::WritePipe(frame) => format!("to game {}", text(frame)),
        Request::WriteDiscord(frame) => format!("to discord {}", text(frame)),
    }
}

fn names(effects: &[Effect]) -> Vec<String> {
    effects
        .iter()
        .map(|effect| match effect {
            Effect::DropPipe => "drop".to_owned(),
            Effect::ClearAndClose => "close".to_owned(),
            Effect::SendNullActivity => "clear".to_owned(),
            Effect::WritePipe(frame) => format!("write {}", text(frame)),
        })
        .collect()
}

/// Steps the gateway, and holds the effects and the next request to what is expected.
fn after(gateway: Gateway, event: Event, effects: &[&str], request: &str) -> Gateway {
    let (next, carried_out) = gateway.step(event);
    assert_eq!(names(&carried_out), effects);
    assert_eq!(asked(&next), request);
    next
}

const IDLE: &str = "wait connect discovery";
const MONITORING: &str = "wait connect discord discovery";
const PROXYING: &str = "wait read discord discovery";
const KEEPING_ALIVE: &str = "wait read discovery timer";
const DISCOVERY_RETRY: &str = "wait connect discovery timer";

fn idle() -> Gateway {
    let gateway = Gateway::new();
    assert_eq!(asked(&gateway), "create");
    after(gateway, Event::PipeCreated, &[], IDLE)
}

fn monitoring() -> Gateway {
    let gateway = after(idle(), detected(), &[], "open 10");
    let gateway = after(gateway, Event::Opened(ready()), &[], "activity Portal 42");
    let gateway = after(gateway, Event::Done, &[], "reader");
    after(gateway, Event::Done, &[], MONITORING)
}

/// A session without Discovery, whose READY was sent to the game.
fn direct_session() -> Gateway {
    let gateway = after(idle(), Event::PipeConnected, &[], "handshake");
    let gateway = after(gateway, hello("7"), &[], "open 7");
    let gateway = after(gateway, Event::Opened(ready()), &[], "to game 1:READY");
    let gateway = after(gateway, Event::Done, &[], "reader");
    after(gateway, Event::Done, &[], PROXYING)
}

/// A session on the connection that Discovery lent.
fn lent_session() -> Gateway {
    let gateway = after(monitoring(), Event::PipeConnected, &[], "handshake");
    let gateway = after(gateway, hello("10"), &["clear"], "to game 1:READY");
    after(gateway, Event::Done, &[], PROXYING)
}

/// A session that began while Discovery could not reach Discord.
fn retry_session() -> Gateway {
    let gateway = after(idle(), detected(), &[], "open 10");
    let gateway = after(gateway, Event::OpenFailed, &[], DISCOVERY_RETRY);
    let gateway = after(gateway, Event::PipeConnected, &[], "handshake");
    let gateway = after(gateway, hello("7"), &[], "open 7");
    let gateway = after(gateway, Event::Opened(ready()), &[], "to game 1:READY");
    let gateway = after(gateway, Event::Done, &[], "reader");
    after(gateway, Event::Done, &[], PROXYING)
}

fn message(text: &str) -> Event {
    Event::PipeFrame(frame(FRAME, text))
}

#[test]
fn the_pipe_is_tried_again_after_a_pause() {
    assert_eq!(SCAN_INTERVAL, 5);
    let gateway = after(Gateway::new(), Event::PipeCreateFailed, &[], "sleep");
    let gateway = after(gateway, Event::Elapsed, &[], "create");
    after(gateway, Event::PipeCreated, &[], IDLE);
}

#[test]
fn idle_ignores_the_end_of_a_game() {
    after(idle(), exited(), &[], IDLE);
}

#[test]
fn idle_starts_over_when_the_pipe_or_the_scanner_fails() {
    after(idle(), Event::PipeConnectFailed, &["drop"], "create");
    after(idle(), Event::DiscoveryClosed, &["drop"], "create");
}

#[test]
fn a_detected_game_is_shown() {
    let gateway = monitoring();
    assert_eq!(text(gateway.cached_ready.as_ref().unwrap()), "1:READY");
    match gateway.phase {
        Phase::Discovery { game, stage: DiscoveryStage::Monitoring(conn) } => {
            assert_eq!((game.app_id.as_str(), game.app_name.as_str(), game.pid), ("10", "Portal", 42));
            assert_eq!(conn.client_id, "10");
            assert_eq!(text(conn.cached_ready.as_ref().unwrap()), "1:READY");
        }
        _ => panic!("the game shows"),
    }
}

#[test]
fn discovery_tries_again_until_discord_answers() {
    let gateway = after(idle(), detected(), &[], "open 10");
    let gateway = after(gateway, Event::OpenFailed, &[], DISCOVERY_RETRY);
    let gateway = after(gateway, Event::Elapsed, &[], "open 10");
    let gateway = after(gateway, Event::OpenFailed, &[], DISCOVERY_RETRY);
    let gateway = after(gateway, detected(), &[], "open 10");
    after(gateway, Event::Opened(None), &[], "activity Portal 42");
}

#[test]
fn discovery_gives_up_when_the_game_exits() {
    for event in [exited(), Event::DiscoveryClosed, Event::PipeConnectFailed] {
        let gateway = after(idle(), detected(), &[], "open 10");
        let gateway = after(gateway, Event::OpenFailed, &[], DISCOVERY_RETRY);
        after(gateway, event, &["drop"], "create");
    }
}

#[test]
fn an_activity_that_cannot_be_set_calls_for_a_new_connection() {
    let opened = || {
        let gateway = after(idle(), detected(), &[], "open 10");
        after(gateway, Event::Opened(ready()), &[], "activity Portal 42")
    };
    after(opened(), Event::Failed, &["close"], "open 10");
    let gateway = after(opened(), Event::Done, &[], "reader");
    after(gateway, Event::Failed, &["close"], "open 10");
}

#[test]
fn the_end_of_the_game_ends_discovery() {
    for event in [exited(), Event::DiscoveryClosed, Event::PipeConnectFailed] {
        after(monitoring(), event, &["close", "drop"], "create");
    }
}

#[test]
fn discovery_reconnects_when_discord_goes() {
    let close = Event::DiscordFrame(frame(CLOSE, "bye"));
    after(monitoring(), close, &["close"], "open 10");
    after(monitoring(), Event::DiscordLost, &["close"], "open 10");
    let other = Event::DiscordFrame(frame(FRAME, "news"));
    after(monitoring(), other, &[], MONITORING);
    after(monitoring(), detected(), &[], MONITORING);
}

#[test]
fn a_first_frame_is_a_hello_if_it_names_a_client() {
    let first = Frame { opcode: HANDSHAKE, payload: b"{\"v\":1,\"client_id\":\"7\"}".to_vec() };
    assert!(matches!(hello_event(&first), Event::Hello(id) if id == "7"));
    let first = Frame { opcode: FRAME, payload: first.payload };
    assert!(matches!(hello_event(&first), Event::NoHello));
    let first = Frame { opcode: HANDSHAKE, payload: b"{\"v\":1}".to_vec() };
    assert!(matches!(hello_event(&first), Event::NoHello));
    assert!(matches!(hello_event(&Connection::handshake("8")), Event::Hello(id) if id == "8"));
}

#[test]
fn a_game_without_a_hello_is_turned_away() {
    for event in [Event::NoHello, Event::PipeReadFailed] {
        let gateway = after(idle(), Event::PipeConnected, &[], "handshake");
        after(gateway, event, &["drop"], "create");
    }
    let gateway = after(monitoring(), Event::PipeConnected, &[], "handshake");
    after(gateway, Event::NoHello, &["drop", "close"], "create");
}

#[test]
fn the_same_client_goes_on_with_the_connection() {
    let gateway = lent_session();
    match gateway.phase {
        Phase::Session { stage: SessionStage::Proxy { link, step: ProxyStep::Waiting }, .. } => {
            assert_eq!(link.conn.client_id, "10");
            assert!(link.last_frame.is_none() && !link.game_exited);
        }
        _ => panic!("the session is in full swing"),
    }
}

#[test]
fn a_lent_connection_without_a_ready_passes_frames_at_once() {
    let gateway = after(idle(), detected(), &[], "open 10");
    let gateway = after(gateway, Event::Opened(None), &[], "activity Portal 42");
    let gateway = after(gateway, Event::Done, &[], "reader");
    let gateway = after(gateway, Event::Done, &[], MONITORING);
    let gateway = after(gateway, Event::PipeConnected, &[], "handshake");
    after(gateway, hello("10"), &["clear"], PROXYING);
}

#[test]
fn another_client_gets_a_connection_of_its_own() {
    let gateway = after(monitoring(), Event::PipeConnected, &[], "handshake");
    let gateway = after(gateway, hello("77"), &["close"], "open 77");
    after(gateway, Event::Opened(ready()), &[], "to game 1:READY");
}

#[test]
fn a_connection_without_a_ready_goes_on_at_once() {
    let gateway = after(idle(), Event::PipeConnected, &[], "handshake");
    let gateway = after(gateway, hello("7"), &[], "open 7");
    let gateway = after(gateway, Event::Opened(None), &[], "reader");
    assert!(gateway.cached_ready.is_none());
}

#[test]
fn frames_pass_unchanged_in_both_directions() {
    let gateway = direct_session();
    let gateway = after(gateway, message("a"), &[], "to discord 1:a");
    let gateway = after(gateway, Event::Done, &[], PROXYING);
    let gateway =
        after(gateway, Event::DiscordFrame(frame(PING, "p")), &[], "to game 3:p");
    let gateway = after(gateway, Event::Done, &[], PROXYING);
    let gateway = after(gateway, Event::PipeFrame(frame(CLOSE, "c")), &[], "to discord 2:c");
    after(gateway, Event::Done, &[], PROXYING);
}

#[test]
fn a_close_of_discord_reaches_the_game_and_ends_the_session() {
    let close = || Event::DiscordFrame(frame(CLOSE, "bye"));
    after(direct_session(), close(), &["write 2:bye", "close", "drop"], "create");
    let gateway = after(lent_session(), close(), &["write 2:bye", "drop"], "create");
    after(gateway, Event::PipeCreated, &["close"], "open 10");
}

#[test]
fn the_last_message_is_replayed_over_a_new_connection() {
    let gateway = after(direct_session(), message("one"), &[], "to discord 1:one");
    let gateway = after(gateway, Event::Done, &[], PROXYING);
    let gateway = after(gateway, message("two"), &[], "to discord 1:two");
    let gateway = after(gateway, Event::Done, &[], PROXYING);
    let gateway = after(gateway, Event::PipeFrame(frame(PING, "p")), &[], "to discord 3:p");
    let gateway = after(gateway, Event::Failed, &["close"], "open 7");
    let gateway = after(gateway, Event::OpenFailed, &[], KEEPING_ALIVE);
    let gateway = after(gateway, Event::Elapsed, &[], "open 7");
    let gateway = after(gateway, Event::Opened(Some(frame(FRAME, "READY2"))), &[], "to discord 1:two");
    let gateway = after(gateway, Event::Done, &[], "reader");
    let gateway = after(gateway, Event::Done, &[], PROXYING);
    assert_eq!(text(gateway.cached_ready.as_ref().unwrap()), "1:READY2");
}

#[test]
fn messages_are_kept_while_discord_is_away() {
    let gateway = after(direct_session(), Event::DiscordLost, &["close"], "open 7");
    let gateway = after(gateway, Event::OpenFailed, &[], KEEPING_ALIVE);
    let gateway = after(gateway, message("late"), &[], "open 7");
    let gateway = after(gateway, Event::OpenFailed, &[], KEEPING_ALIVE);
    let gateway = after(gateway, Event::PipeFrame(frame(PING, "p")), &[], "open 7");
    let gateway = after(gateway, Event::OpenFailed, &[], KEEPING_ALIVE);
    let gateway = after(gateway, detected(), &[], "open 7");
    let gateway = after(gateway, Event::Opened(ready()), &[], "to discord 1:late");
    let gateway = after(gateway, Event::Failed, &["close"], KEEPING_ALIVE);
    let gateway = after(gateway, Event::Elapsed, &[], "open 7");
    let gateway = after(gateway, Event::Opened(ready()), &[], "to discord 1:late");
    let gateway = after(gateway, Event::Done, &[], "reader");
    after(gateway, Event::Failed, &["close"], KEEPING_ALIVE);
}

#[test]
fn a_new_connection_without_a_message_is_read_at_once() {
    let gateway = after(direct_session(), Event::DiscordLost, &["close"], "open 7");
    let gateway = after(gateway, Event::Opened(ready()), &[], "reader");
    after(gateway, Event::Done, &[], PROXYING);
}

#[test]
fn an_earlier_ready_answers_for_discord_once() {
    let gateway = after(direct_session(), Event::PipeReadFailed, &["close", "drop"], "create");
    let gateway = after(gateway, Event::PipeCreated, &[], IDLE);
    let gateway = after(gateway, Event::PipeConnected, &[], "handshake");
    let gateway = after(gateway, hello("8"), &[], "open 8");
    let gateway = after(gateway, Event::OpenFailed, &[], "to game 1:READY");
    let gateway = after(gateway, Event::Done, &[], KEEPING_ALIVE);
    let gateway = after(gateway, message("first"), &[], "open 8");
    let gateway = after(gateway, Event::OpenFailed, &[], KEEPING_ALIVE);
    let gateway = after(gateway, message("second"), &[], "open 8");
    let gateway = after(gateway, Event::Opened(Some(frame(FRAME, "NEW"))), &[], "to discord 1:second");
    let gateway = after(gateway, Event::Done, &[], "reader");
    let gateway = after(gateway, Event::Done, &[], PROXYING);
    assert_eq!(text(gateway.cached_ready.as_ref().unwrap()), "1:NEW");
}

#[test]
fn without_an_earlier_ready_the_game_waits() {
    let gateway = after(idle(), Event::PipeConnected, &[], "handshake");
    let gateway = after(gateway, hello("8"), &[], "open 8");
    let gateway = after(gateway, Event::OpenFailed, &[], KEEPING_ALIVE);
    let gateway = after(gateway, message("early"), &[], "open 8");
    let gateway = after(gateway, Event::Opened(ready()), &[], "to game 1:READY");
    let gateway = after(gateway, Event::Done, &[], "to discord 1:early");
    after(gateway, Event::Failed, &["close", "drop"], "create");
}

#[test]
fn a_waiting_game_that_goes_ends_the_session() {
    let waiting = || {
        let gateway = after(idle(), Event::PipeConnected, &[], "handshake");
        let gateway = after(gateway, hello("8"), &[], "open 8");
        after(gateway, Event::OpenFailed, &[], KEEPING_ALIVE)
    };
    after(waiting(), Event::PipeReadFailed, &["drop"], "create");
    after(waiting(), exited(), &["drop"], "create");
    after(waiting(), Event::DiscoveryClosed, &["drop"], "create");
}

#[test]
fn a_waiting_game_that_is_known_goes_back_to_discovery() {
    let waiting = || {
        let gateway = after(monitoring(), Event::PipeConnected, &[], "handshake");
        let gateway = after(gateway, hello("8"), &["close"], "open 8");
        let gateway = after(gateway, Event::OpenFailed, &[], "to game 1:READY");
        after(gateway, Event::Done, &[], KEEPING_ALIVE)
    };
    let gateway = after(waiting(), Event::PipeReadFailed, &["drop"], "create");
    after(gateway, Event::PipeCreated, &["close"], "open 10");
    after(waiting(), exited(), &["drop", "close"], "create");
    let gateway = after(monitoring(), Event::PipeConnected, &[], "handshake");
    let gateway = after(gateway, hello("8"), &["close"], "open 8");
    let gateway = after(gateway, Event::OpenFailed, &[], "to game 1:READY");
    after(gateway, Event::Failed, &["drop"], "create");
}

#[test]
fn discovery_resumes_at_once_after_a_session() {
    let gateway = after(lent_session(), Event::PipeReadFailed, &["drop"], "create");
    after(gateway, Event::PipeCreated, &["close"], "open 10");
    let gateway = after(retry_session(), Event::PipeReadFailed, &["close", "drop"], "create");
    after(gateway, Event::PipeCreated, &[], "open 10");
    let gateway = after(lent_session(), Event::PipeReadFailed, &["drop"], "create");
    let gateway = after(gateway, Event::PipeCreateFailed, &["close"], "create");
    after(gateway, Event::PipeCreated, &[], IDLE);
}

#[test]
fn a_game_that_has_exited_is_not_resumed() {
    let gateway = after(lent_session(), exited(), &[], PROXYING);
    let gateway = after(gateway, message("x"), &[], "to discord 1:x");
    let gateway = after(gateway, Event::Done, &[], PROXYING);
    let gateway = after(gateway, Event::PipeReadFailed, &["drop", "close"], "create");
    after(gateway, Event::PipeCreated, &[], IDLE);
    let gateway = after(retry_session(), exited(), &[], PROXYING);
    let gateway = after(gateway, Event::PipeReadFailed, &["close", "drop"], "create");
    after(gateway, Event::PipeCreated, &[], IDLE);
}

#[test]
fn the_end_of_the_scanner_ends_the_session() {
    after(direct_session(), Event::DiscoveryClosed, &["close", "drop"], "create");
    let gateway = after(lent_session(), Event::DiscoveryClosed, &["drop", "close"], "create");
    after(gateway, Event::PipeCreated, &[], IDLE);
}

#[test]
fn the_end_of_the_game_ends_the_search_for_discord() {
    let gateway = after(retry_session(), Event::DiscordLost, &["close"], "open 7");
    let gateway = after(gateway, Event::OpenFailed, &[], KEEPING_ALIVE);
    let gateway = after(gateway, exited(), &["close", "drop"], "create");
    after(gateway, Event::PipeCreated, &[], IDLE);
}

#[test]
fn a_game_that_takes_no_frames_ends_the_session() {
    let sent = Event::DiscordFrame(frame(FRAME, "n"));
    let gateway = after(lent_session(), sent, &[], "to game 1:n");
    let gateway = after(gateway, Event::Failed, &["drop"], "create");
    after(gateway, Event::PipeCreated, &["close"], "open 10");
}

#[test]
fn a_reader_that_does_not_start_ends_the_session() {
    let gateway = after(monitoring(), Event::PipeConnected, &[], "handshake");
    let gateway = after(gateway, hello("77"), &["close"], "open 77");
    let gateway = after(gateway, Event::Opened(None), &[], "reader");
    let gateway = after(gateway, Event::Failed, &["drop"], "create");
    after(gateway, Event::PipeCreated, &["close"], "open 10");
    let gateway = after(idle(), Event::PipeConnected, &[], "handshake");
    let gateway = after(gateway, hello("7"), &[], "open 7");
    let gateway = after(gateway, Event::Opened(None), &[], "reader");
    let gateway = after(gateway, Event::Failed, &["close", "drop"], "create");
    after(gateway, Event::PipeCreated, &[], IDLE);
}

fn found(app_id: &str, app_name: &str, pid: u32) -> Event {
    Event::Discovery(DiscoveryEvent::GameDetected {
        app_id: app_id.to_owned(),
        app_name: app_name.to_owned(),
        pid,
    })
}

#[test]
fn a_game_found_during_its_session_is_shown_after_it() {
    let gateway = after(direct_session(), detected(), &[], PROXYING);
    let gateway = after(gateway, message("m"), &[], "to discord 1:m");
    let gateway = after(gateway, Event::Done, &[], PROXYING);
    let gateway = after(gateway, Event::PipeReadFailed, &["close", "drop"], "create");
    let gateway = after(gateway, Event::PipeCreated, &[], "open 10");
    after(gateway, Event::Opened(ready()), &[], "activity Portal 42");
}

#[test]
fn a_game_found_while_discord_is_away_is_shown_after_its_session() {
    let gateway = after(idle(), Event::PipeConnected, &[], "handshake");
    let gateway = after(gateway, hello("8"), &[], "open 8");
    let gateway = after(gateway, Event::OpenFailed, &[], KEEPING_ALIVE);
    let gateway = after(gateway, detected(), &[], "open 8");
    let gateway = after(gateway, Event::OpenFailed, &[], KEEPING_ALIVE);
    let gateway = after(gateway, Event::PipeReadFailed, &["drop"], "create");
    after(gateway, Event::PipeCreated, &[], "open 10");

    let gateway = after(direct_session(), Event::DiscordLost, &["close"], "open 7");
    let gateway = after(gateway, Event::OpenFailed, &[], KEEPING_ALIVE);
    let gateway = after(gateway, detected(), &[], "open 7");
    let gateway = after(gateway, Event::OpenFailed, &[], KEEPING_ALIVE);
    let gateway = after(gateway, Event::PipeReadFailed, &["close", "drop"], "create");
    after(gateway, Event::PipeCreated, &[], "open 10");
}

#[test]
fn a_found_game_that_exits_is_not_shown_after_its_session() {
    let gateway = after(direct_session(), detected(), &[], PROXYING);
    let gateway = after(gateway, exited(), &[], PROXYING);
    let gateway = after(gateway, Event::PipeReadFailed, &["close", "drop"], "create");
    after(gateway, Event::PipeCreated, &[], IDLE);
}

#[test]
fn a_game_found_after_the_end_of_another_is_shown_after_the_session() {
    let gateway = after(lent_session(), exited(), &[], PROXYING);
    let gateway = after(gateway, found("30", "Quake", 6), &[], PROXYING);
    let gateway = after(gateway, Event::PipeReadFailed, &["drop"], "create");
    let gateway = after(gateway, Event::PipeCreated, &["close"], "open 30");
    after(gateway, Event::Opened(ready()), &[], "activity Quake 6");
    let gateway = after(direct_session(), exited(), &[], PROXYING);
    let gateway = after(gateway, found("30", "Quake", 6), &[], PROXYING);
    let gateway = after(gateway, Event::PipeReadFailed, &["close", "drop"], "create");
    after(gateway, Event::PipeCreated, &[], "open 30");
}

#[test]
fn a_known_game_that_runs_stays_the_known_one() {
    let gateway = after(lent_session(), found("30", "Quake", 6), &[], PROXYING);
    let gateway = after(gateway, Event::PipeReadFailed, &["drop"], "create");
    after(gateway, Event::PipeCreated, &["close"], "open 10");
}

#[test]
fn every_frame_of_a_session_is_passed_on_in_order() {
    let mut gateway = direct_session();
    let (mut from_game, mut to_discord) = (Vec::new(), Vec::new());
    let (mut from_discord, mut to_game) = (Vec::new(), Vec::new());
    let mut state: u32 = 3;
    for i in 0..500 {
        state = state.wrapping_mul(1664525).wrapping_add(1013904223);
        let sent = frame(if state >> 31 == 0 { FRAME } else { PING }, &format!("{i}"));
        let event = match gateway.request() {
            Request::WriteDiscord(taken) => {
                to_discord.push(text(taken));
                Event::Done
            }
            Request::WritePipe(taken) => {
                to_game.push(text(taken));
                Event::Done
            }
            _ if state & 0x1000 == 0 => {
                from_game.push(text(&sent));
                Event::PipeFrame(sent)
            }
            _ => {
                from_discord.push(text(&sent));
                Event::DiscordFrame(sent)
            }
        };
        let (next, effects) = gateway.step(event);
        assert!(effects.is_empty());
        gateway = next;
    }
    assert!(from_game.len() > 50 && from_discord.len() > 50);
    assert_eq!(from_game[..to_discord.len()], to_discord[..]);
    assert_eq!(from_discord[..to_game.len()], to_game[..]);
    assert!(from_game.len() + from_discord.len() - to_discord.len() - to_game.len() <= 1);
}

#[test]
fn a_ready_that_does_not_reach_the_game_ends_the_session() {
    let gateway = after(monitoring(), Event::PipeConnected, &[], "handshake");
    let gateway = after(gateway, hello("10"), &["clear"], "to game 1:READY");
    let gateway = after(gateway, Event::Failed, &["drop"], "create");
    after(gateway, Event::PipeCreated, &["close"], "open 10");
}

#[test]
fn events_that_answer_nothing_change_nothing() {
    after(Gateway::new(), Event::Elapsed, &[], "create");
    after(idle(), Event::Elapsed, &[], IDLE);
    after(idle(), Event::Opened(ready()), &[], IDLE);
    after(monitoring(), Event::Done, &[], MONITORING);
    after(direct_session(), Event::PipeConnected, &[], PROXYING);
    after(lent_session(), Event::OpenFailed, &[], PROXYING);
}

#[test]
fn a_connection_is_opened_and_read_one_at_a_time() {
    let mut gateway = Gateway::new();
    let mut open = false;
    let mut read = false;
    let mut state: u32 = 7;
    for _ in 0..20_000 {
        state = state.wrapping_mul(1664525).wrapping_add(1013904223);
        let pick = state >> 24;
        let event = match gateway.request() {
            Request::CreatePipe if pick % 4 == 0 => Event::PipeCreateFailed,
            Request::CreatePipe => Event::PipeCreated,
            Request::Sleep => Event::Elapsed,
            Request::Wait(_) => match pick % 10 {
                0 => detected(),
                1 => exited(),
                2 => Event::PipeConnected,
                3 => Event::PipeConnectFailed,
                4 => message("m"),
                5 => Event::PipeReadFailed,
                6 => Event::DiscordFrame(frame(1 + pick % 3, "d")),
                7 => Event::DiscordLost,
                8 => Event::Elapsed,
                _ => Event::DiscoveryClosed,
            },
            Request::ReadHandshake if pick % 5 == 0 => Event::NoHello,
            Request::ReadHandshake if pick % 2 == 0 => hello("10"),
            Request::ReadHandshake => hello("11"),
            Request::OpenDiscord(_) => {
                assert!(!open);
                if pick % 3 == 0 {
                    Event::OpenFailed
                } else {
                    Event::Opened(ready())
                }
            }
            Request::StartReader => {
                assert!(open && !read);
                read = pick % 4 != 0;
                if read {
                    Event::Done
                } else {
                    Event::Failed
                }
            }
            _ if pick % 4 == 0 => Event::Failed,
            _ => Event::Done,
        };
        if matches!(event, Event::Opened(_)) {
            open = true;
        }
        let had_ready = gateway.cached_ready.is_some();
        let (next, effects) = gateway.step(event);
        if effects.iter().any(|effect| matches!(effect, Effect::ClearAndClose)) {
            open = false;
            read = false;
        }
        if let Request::Wait(sources) = next.request() {
            assert!(read || !sources.discord);
        }
        assert!(next.cached_ready.is_some() || !had_ready);
        if matches!(next.phase, Phase::Creating | Phase::Idle | Phase::Backoff) {
            assert!(!open);
        }
        gateway = next;
    }
}
