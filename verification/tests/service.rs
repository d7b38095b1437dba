use xbridge::command::{command, Command};
use xbridge::discovery::list_sync::{HASH_FILE, LIST_FILE};
use xbridge::log::{timestamp, SystemTime, LOG_DIR, LOG_FILE};
use xbridge::service::host::{status, Control, ShutdownSwitch, SERVICE_NAME};
use xbridge::service::installer::{
    disable, enable, install, installed_files, installed_list_dir, service_info, uninstall,
    Operation, Outcome, Rights, StartType, Step, INSTALL_DIR, INSTALL_EXE, MAX_POLLS, POLL_PAUSE,
};
use xbridge::service::installer::Outcome::{Done, Failed, NotStopped, Stopped};

const NONE: Rights = Rights {
    query_status: false,
    change_config: false,
    start: false,
    stop: false,
    delete: false,
};

fn run(first: Step, outcomes: &[Outcome]) -> Step {
    outcomes.iter().fold(first, |step, outcome| step.after(*outcome))
}

#[test]
fn the_first_argument_names_the_command() {
    assert!(matches!(command(Some("--install")), Command::Install));
    assert!(matches!(command(Some("--uninstall")), Command::Uninstall));
    assert!(matches!(command(Some("--enable")), Command::Enable));
    assert!(matches!(command(Some("--disable")), Command::Disable));
    assert!(matches!(command(Some("--run")), Command::Run));
    assert!(matches!(command(Some("--Run")), Command::Service));
    assert!(matches!(command(Some("")), Command::Service));
    assert!(matches!(command(None), Command::Service));
}

#[test]
fn a_log_line_starts_with_its_time() {
    let t = SystemTime { year: 2024, month: 3, day: 1, hour: 0, minute: 59, second: 7 };
    assert_eq!(timestamp(&t), "2024-03-01 00:59:07");
    assert_eq!(xbridge::log::write(&t, "[gateway] ready"), "[2024-03-01 00:59:07] [gateway] ready\n");
    let zero = SystemTime { year: 0, month: 0, day: 0, hour: 0, minute: 0, second: 0 };
    assert_eq!(xbridge::log::write(&zero, ""), "[0000-00-00 00:00:00] \n");
    let late = SystemTime { year: 12345, month: 12, day: 31, hour: 23, minute: 59, second: 59 };
    assert_eq!(timestamp(&late), "12345-12-31 23:59:59");
}

#[test]
fn the_log_lies_below_windows() {
    assert_eq!(LOG_DIR, r"C:\windows\logs");
    assert_eq!(LOG_FILE, r"C:\windows\logs\xbridge.log");
}

#[test]
fn the_service_is_registered_under_its_name() {
    for start_type in [StartType::AutoStart, StartType::Disabled] {
        let info = service_info(start_type);
        assert_eq!(info.name, SERVICE_NAME);
        assert_eq!(info.name, "xbridge");
        assert_eq!(info.display_name, "xbridge Discord RPC Bridge");
        assert_eq!(info.executable_path, r"C:\windows\xbridge.exe");
        assert!(info.start_type == start_type);
    }
}

#[test]
fn a_stop_signals_the_shutdown_once() {
    let mut switch = ShutdownSwitch::new();
    let reply = switch.handle(Control::Interrogate);
    assert!(reply.handled && !reply.signal);
    let reply = switch.handle(Control::Stop);
    assert!(reply.handled && reply.signal);
    let reply = switch.handle(Control::Shutdown);
    assert!(reply.handled && !reply.signal);
    let reply = switch.handle(Control::Stop);
    assert!(reply.handled && !reply.signal);
}

#[test]
fn a_shutdown_signals_and_other_controls_are_unknown() {
    let mut switch = ShutdownSwitch::new();
    let reply = switch.handle(Control::Other);
    assert!(!reply.handled && !reply.signal);
    let reply = switch.handle(Control::Shutdown);
    assert!(reply.handled && reply.signal);
    assert!(!switch.armed);
}

#[test]
fn installing_copies_downloads_registers_and_starts() {
    let expected = [
        Operation::OpenManager { create: true },
        Operation::OpenService(Rights { query_status: true, ..NONE }),
        Operation::CopyProgram,
        Operation::DownloadList,
        Operation::CreateService(StartType::AutoStart),
        Operation::StartService,
    ];
    let mut step = install();
    for (i, operation) in expected.iter().enumerate() {
        assert!(step.operation() == Some(*operation), "operation {i}");
        step = step.after(if i == 1 { Outcome::Failed } else { Outcome::Done });
    }
    assert!(step == Step::Finished);
    assert!(step.operation() == None);
}

#[test]
fn installing_again_enables() {
    let again = run(install(), &[Outcome::Done, Outcome::Done]);
    assert!(again == enable());
}

#[test]
fn a_failed_installation_stops() {
    assert!(run(install(), &[Failed]) == Step::Aborted);
    assert!(run(install(), &[Done, Failed, Failed]) == Step::Aborted);
    assert!(run(install(), &[Done, Failed, Done, Failed]) == Step::Aborted);
    assert!(run(install(), &[Done, Failed, Done, Done, Failed]) == Step::Aborted);
    assert!(run(install(), &[Done, Failed, Done, Done, Done, Failed]) == Step::Aborted);
    assert!(run(install(), &[Done, Failed, Done, Done, Done, Done]) == Step::Finished);
}

#[test]
fn enabling_starts_a_stopped_service() {
    let rights = Rights { change_config: true, start: true, query_status: true, ..NONE };
    assert!(enable().operation() == Some(Operation::OpenManager { create: false }));
    let opening = run(enable(), &[Done]);
    assert!(opening.operation() == Some(Operation::OpenService(rights)));
    let configuring = run(opening, &[Done]);
    assert!(configuring.operation() == Some(Operation::ChangeConfig(StartType::AutoStart)));
    let asking = run(configuring, &[Done]);
    assert!(asking.operation() == Some(Operation::QueryStatus));
    assert!(run(asking, &[NotStopped]) == Step::Finished);
    assert!(run(asking, &[Failed]) == Step::Aborted);
    let starting = run(asking, &[Stopped]);
    assert!(starting.operation() == Some(Operation::StartService));
    assert!(run(starting, &[Done]) == Step::Finished);
    assert!(run(starting, &[Failed]) == Step::Aborted);
}

#[test]
fn disabling_stops_and_disables() {
    let rights = Rights { change_config: true, stop: true, query_status: true, ..NONE };
    let opening = run(disable(), &[Done]);
    assert!(opening.operation() == Some(Operation::OpenService(rights)));
    let asking = run(opening, &[Done]);
    let stopping = run(asking, &[NotStopped]);
    assert!(stopping.operation() == Some(Operation::StopService));
    for told in [Done, Failed] {
        let pausing = run(stopping, &[told]);
        assert!(pausing.operation() == Some(Operation::Pause));
        let polling = run(pausing, &[Done]);
        assert!(polling.operation() == Some(Operation::QueryStatus));
        let again = run(polling, &[NotStopped]);
        assert!(again.operation() == Some(Operation::Pause));
        for configuring in
            [run(asking, &[Stopped]), run(polling, &[Stopped]), run(again, &[Done, Stopped])]
        {
            assert!(configuring.operation() == Some(Operation::ChangeConfig(StartType::Disabled)));
            assert!(run(configuring, &[Done]) == Step::Finished);
            assert!(run(configuring, &[Failed]) == Step::Aborted);
        }
    }
}

#[test]
fn disabling_fails_where_the_service_did_not_stop() {
    let asking = run(disable(), &[Done, Done]);
    let unknown = run(asking, &[Failed]);
    assert!(unknown.operation() == Some(Operation::ChangeConfig(StartType::Disabled)));
    assert!(run(unknown, &[Done]) == Step::Aborted);
    for stuck in [NotStopped, Failed] {
        let mut step = run(asking, &[NotStopped, Done]);
        let mut pauses = 0u64;
        while step.operation() == Some(Operation::Pause) {
            pauses += 1;
            step = run(step, &[Done, stuck]);
        }
        assert_eq!(pauses * POLL_PAUSE, 10_000);
        assert!(step.operation() == Some(Operation::ChangeConfig(StartType::Disabled)));
        assert!(run(step, &[Done]) == Step::Aborted);
        assert!(run(step, &[Failed]) == Step::Aborted);
    }
}

#[test]
fn removing_waits_for_the_end_of_the_service() {
    let rights = Rights { stop: true, delete: true, query_status: true, ..NONE };
    let opening = run(uninstall(), &[Done]);
    assert!(opening.operation() == Some(Operation::OpenService(rights)));
    let pausing = run(opening, &[Done, NotStopped, Done]);
    assert!(pausing.operation() == Some(Operation::Pause));
    let polling = run(pausing, &[Done]);
    assert!(polling.operation() == Some(Operation::QueryStatus));
    let deleting = run(polling, &[NotStopped, Done, Stopped]);
    assert!(deleting.operation() == Some(Operation::DeleteService));
    let removing = run(deleting, &[Done]);
    assert!(removing.operation() == Some(Operation::RemoveFiles));
    assert!(run(removing, &[Done]) == Step::Finished);
    assert!(run(removing, &[Failed]) == Step::Aborted);
}

#[test]
fn removing_waits_ten_seconds_at_most() {
    for stuck in [NotStopped, Failed] {
        let mut step = run(uninstall(), &[Done, Done, NotStopped, Failed]);
        let mut pauses = 0u64;
        while step.operation() == Some(Operation::Pause) {
            pauses += 1;
            step = run(step, &[Done, stuck]);
        }
        assert_eq!(pauses, MAX_POLLS as u64);
        assert_eq!(pauses * POLL_PAUSE, 10_000);
        assert!(step.operation() == Some(Operation::DeleteService));
        let removing = run(step, &[Done]);
        assert!(removing.operation() == Some(Operation::RemoveFiles));
        assert!(run(removing, &[Done]) == Step::Aborted);
    }
}

#[test]
fn removing_a_stopped_service_deletes_at_once() {
    let deleting = run(uninstall(), &[Done, Done, Stopped]);
    assert!(deleting.operation() == Some(Operation::DeleteService));
    assert!(run(deleting, &[Failed]) == Step::Aborted);
    assert!(run(deleting, &[Done, Done]) == Step::Finished);
    assert!(run(deleting, &[Done, Failed]) == Step::Aborted);
    assert!(run(uninstall(), &[Failed]) == Step::Aborted);
    assert!(run(uninstall(), &[Done, Failed]) == Step::Aborted);
}

#[test]
fn removing_a_service_whose_end_was_not_seen_goes_on_but_fails() {
    let deleting = run(uninstall(), &[Done, Done, Failed]);
    assert!(deleting.operation() == Some(Operation::DeleteService));
    let removing = run(deleting, &[Done]);
    assert!(removing.operation() == Some(Operation::RemoveFiles));
    assert!(run(removing, &[Done]) == Step::Aborted);
}

#[test]
fn the_list_is_installed_beside_the_program() {
    assert_eq!(installed_list_dir(), INSTALL_DIR);
    assert_eq!(format!("{INSTALL_DIR}\\xbridge.exe"), INSTALL_EXE);
    assert_eq!(format!("{INSTALL_DIR}\\{LIST_FILE}"), installed_files()[1]);
    assert_eq!(format!("{INSTALL_DIR}\\{HASH_FILE}"), installed_files()[2]);
}

#[test]
fn removing_leaves_no_files() {
    let files = installed_files();
    assert_eq!(
        files,
        vec![
            INSTALL_EXE,
            r"C:\windows\xbridge-detectable-list.json",
            r"C:\windows\xbridge-detectable-list.json.sha256",
            r"C:\windows\logs\xbridge.log",
        ]
    );
}

#[test]
fn impossible_outcomes_change_nothing() {
    assert!(install().after(Outcome::Stopped) == install());
    assert!(Step::EnableQuery.after(Outcome::Done) == Step::EnableQuery);
    assert!(Step::Finished.after(Outcome::Done) == Step::Finished);
    assert!(Step::Aborted.after(Outcome::Failed) == Step::Aborted);
}

#[test]
fn every_command_comes_to_an_end() {
    for first in [install(), uninstall(), enable(), disable()] {
        for seed in 0..200u32 {
            let mut step = first;
            let mut state = seed;
            let mut operations = 0;
            while let Some(operation) = step.operation() {
                state = state.wrapping_mul(1664525).wrapping_add(1013904223);
                let pick = state >> 24;
                let outcome = match (operation, pick % 3) {
                    (Operation::QueryStatus, 0) => Outcome::Stopped,
                    (Operation::QueryStatus, 1) => Outcome::Failed,
                    (Operation::QueryStatus, _) => Outcome::NotStopped,
                    (_, 0) => Outcome::Failed,
                    (_, _) => Outcome::Done,
                };
                step = step.after(outcome);
                operations += 1;
            }
            assert!(operations <= 46);
        }
    }
}

#[test]
fn a_running_service_can_be_stopped_and_a_stopped_one_cannot() {
    let running = status(true);
    assert!(running.running && running.accepts_stop && running.accepts_shutdown);
    let stopped = status(false);
    assert!(!stopped.running && !stopped.accepts_stop && !stopped.accepts_shutdown);
    assert_eq!((running.exit_code, stopped.exit_code), (0, 0));
}
