use xbridge::discovery::models::{AppExecutable, DetectableApp};
use xbridge::discovery::{build_exe_map, Process, Scanner};
use xbridge::shared::DiscoveryEvent;

fn app(id: &str, name: &str, programs: Option<&[(&str, bool)]>) -> DetectableApp {
    DetectableApp {
        id: id.to_owned(),
        name: name.to_owned(),
        executables: programs.map(|programs| {
            programs
                .iter()
                .map(|(name, is_launcher)| AppExecutable {
                    name: name.to_string(),
                    is_launcher: *is_launcher,
                })
                .collect()
        }),
    }
}

fn apps() -> Vec<DetectableApp> {
    vec![
        app("10", "Portal", Some(&[("Portal.EXE", false), ("steam.exe", true)])),
        app("20", "Nothing", None),
        app("30", "Quake", Some(&[("quake.exe", false), ("shared.exe", false)])),
        app("40", "Doom", Some(&[("DOOM.exe", false), ("Shared.exe", false)])),
    ]
}

fn processes(running: &[(u32, &str)]) -> Vec<Process> {
    running.iter().map(|(pid, name)| Process::new(*pid, name)).collect()
}

fn reports(events: Vec<DiscoveryEvent>) -> Vec<String> {
    events
        .into_iter()
        .map(|event| match event {
            DiscoveryEvent::GameDetected { app_id, app_name, pid } => {
                format!("+{app_id} {app_name} {pid}")
            }
            DiscoveryEvent::GameExited { app_id } => format!("-{app_id}"),
        })
        .collect()
}

#[test]
fn process_names_are_in_lower_case() {
    let process = Process::new(7, "PORTAL.Exe");
    assert_eq!((process.pid, process.exe.as_str()), (7, "portal.exe"));
    assert_eq!(Process::new(1, "ÄΣ.exe").exe, "ÄΣ.exe".to_lowercase());
}

#[test]
fn a_process_name_ends_at_the_first_zero() {
    let mut units: Vec<u16> = "Portal😀.EXE".encode_utf16().collect();
    assert_eq!(Process::from_units(7, &units).exe, "portal😀.exe");
    units.extend([0, 0x41, 0, 0x42]);
    let process = Process::from_units(7, &units);
    assert_eq!((process.pid, process.exe.as_str()), (7, "portal😀.exe"));
    assert_eq!(Process::from_units(1, &[0, 0x41]).exe, "");
    assert_eq!(Process::from_units(1, &[]).exe, "");
}

#[test]
fn the_index_leads_from_names_to_applications() {
    let map = build_exe_map(&apps());
    assert_eq!(map.get("portal.exe"), Some(&0));
    assert_eq!(map.get("quake.exe"), Some(&2));
    assert_eq!(map.get("doom.exe"), Some(&3));
    assert_eq!(map.get("Portal.EXE"), None);
    assert_eq!(map.len(), 4);
}

#[test]
fn launchers_are_left_out_of_the_index() {
    assert_eq!(build_exe_map(&apps()).get("steam.exe"), None);
}

#[test]
fn the_last_application_has_a_shared_name() {
    assert_eq!(build_exe_map(&apps()).get("shared.exe"), Some(&3));
}

#[test]
fn an_empty_list_has_an_empty_index() {
    assert_eq!(build_exe_map(&vec![]).len(), 0);
}

#[test]
fn a_listed_game_is_detected() {
    let mut scanner = Scanner::new(apps());
    let events = scanner.scan(&processes(&[(1, "explorer.exe"), (2, "Portal.exe")]));
    assert_eq!(reports(events), vec!["+10 Portal 2"]);
    let watched = scanner.watched.as_ref().unwrap();
    assert_eq!((watched.app_id.as_str(), watched.pid), ("10", 2));
}

#[test]
fn other_processes_are_no_games() {
    let mut scanner = Scanner::new(apps());
    assert!(scanner.scan(&processes(&[(1, "explorer.exe"), (2, "steam.exe")])).is_empty());
    assert!(scanner.scan(&processes(&[])).is_empty());
    assert!(scanner.watched.is_none());
}

#[test]
fn only_the_first_detected_game_is_watched() {
    let mut scanner = Scanner::new(apps());
    let events = scanner.scan(&processes(&[(5, "doom.exe"), (2, "portal.exe")]));
    assert_eq!(reports(events), vec!["+40 Doom 5"]);
    let events = scanner.scan(&processes(&[(2, "portal.exe"), (5, "doom.exe")]));
    assert!(events.is_empty());
    assert_eq!(scanner.watched.as_ref().unwrap().pid, 5);
}

#[test]
fn the_end_of_the_game_is_reported_before_the_next() {
    let mut scanner = Scanner::new(apps());
    scanner.scan(&processes(&[(5, "doom.exe")]));
    let events = scanner.scan(&processes(&[(2, "portal.exe")]));
    assert_eq!(reports(events), vec!["-40", "+10 Portal 2"]);
    assert_eq!(reports(scanner.scan(&processes(&[]))), vec!["-10"]);
    assert!(scanner.watched.is_none());
    assert!(scanner.scan(&processes(&[])).is_empty());
}

#[test]
fn a_restarted_game_is_another_process() {
    let mut scanner = Scanner::new(apps());
    scanner.scan(&processes(&[(5, "quake.exe")]));
    let events = scanner.scan(&processes(&[(6, "quake.exe")]));
    assert_eq!(reports(events), vec!["-30", "+30 Quake 6"]);
}

#[test]
fn one_game_runs_at_a_time_over_many_scans() {
    let mut scanner = Scanner::new(apps());
    let mut running: Option<String> = None;
    for round in 0..64u32 {
        let names = ["portal.exe", "quake.exe", "doom.exe", "shared.exe", "idle.exe"];
        let now: Vec<(u32, &str)> = (0..5u32)
            .filter(|i| (round * 7 + i * 3) % 5 < 2)
            .map(|i| (i, names[i as usize]))
            .collect();
        for event in scanner.scan(&processes(&now)) {
            match event {
                DiscoveryEvent::GameDetected { app_id, .. } => {
                    assert_eq!(running, None);
                    running = Some(app_id);
                }
                DiscoveryEvent::GameExited { app_id } => {
                    assert_eq!(running, Some(app_id));
                    running = None;
                }
            }
        }
        assert_eq!(running, scanner.watched.as_ref().map(|game| game.app_id.clone()));
    }
}
