//! The process scanner: which running process is a game, and when it ends.
pub mod list_sync;
pub mod models;

use crate::discovery::models::{AppExecutable, DetectableApp};
use crate::shared::DiscoveryEvent;
use crate::text;
use crate::text::{decode_utf16_lossy, strip_terminator, to_lower_case};
use vstd::hash_map::StringHashMap;
use vstd::prelude::*;
use vstd::string::*;

verus! {

/// Whether the `j`-th program of the `i`-th application is a game program whose name, in
/// lower case, is `name`.
pub open spec fn lists(apps: Seq<DetectableApp>, i: int, j: int, name: Seq<char>) -> bool {
    0 <= i < apps.len() && (apps[i].executables matches Some(executables) && (0 <= j
        < executables@.len() && !executables@[j].is_launcher && text::lower_case(
        executables@[j].name@,
    ) == name))
}

/// Whether `map` leads from each program name in lower case to the application that lists
/// it as a game program, the last such application where there are several, and from no
/// other name.
pub open spec fn is_index(map: Map<Seq<char>, usize>, apps: Seq<DetectableApp>) -> bool {
    &&& forall|i: int, j: int, name: Seq<char>| #[trigger]
        lists(apps, i, j, name) ==> map.contains_key(name) && i <= map[name]
    &&& forall|name: Seq<char>| #[trigger]
        map.contains_key(name) ==> exists|j: int| lists(apps, map[name] as int, j, name)
}

/// The game that is being watched.
pub struct WatchedGame {
    pub app_id: String,
    pub pid: u32,
}

/// A running process: its id, and the name of its program in lower case.
pub struct Process {
    pub pid: u32,
    pub exe: String,
}

impl Process {
    /// The process with that id that runs that program file.
    pub fn new(pid: u32, file_name: &str) -> (r: Process)
        ensures
            r.pid == pid,
            r.exe@ == text::lower_case(file_name@),
    {
        Process { pid, exe: to_lower_case(file_name) }
    }

    /// The process with that id, whose program file is named by UTF-16 units up to the first
    /// zero.
    pub fn from_units(pid: u32, units: &[u16]) -> (r: Process)
        ensures
            r.pid == pid,
            r.exe@ == text::lower_case(text::utf16_lossy(text::unterminated(units@))),
    {
        let file_name: String = decode_utf16_lossy(strip_terminator(units));
        Process::new(pid, file_name.as_str())
    }
}

/// The scanner: the applications, their programs, and the game that is being watched.
pub struct Scanner {
    pub apps: Vec<DetectableApp>,
    pub exe_map: StringHashMap<usize>,
    pub watched: Option<WatchedGame>,
}

/// Whether a process with that id runs.
pub open spec fn runs(processes: Seq<Process>, pid: u32) -> bool {
    exists|i: int| 0 <= i < processes.len() && (#[trigger] processes[i]).pid == pid
}

/// The position of the first process that is a listed game, or the number of processes
/// if none is.
pub open spec fn first_game(map: Map<Seq<char>, usize>, processes: Seq<Process>) -> int
    decreases processes.len(),
{
    if processes.len() == 0 || map.contains_key(processes[0].exe@) {
        0
    } else {
        1 + first_game(map, processes.skip(1))
    }
}

/// What a scan of the processes makes of the watched game.
pub open spec fn still_watched(watched: Option<WatchedGame>, processes: Seq<Process>) -> Option<
    WatchedGame,
> {
    match watched {
        Some(game) => if runs(processes, game.pid) {
            watched
        } else {
            None
        },
        None => None,
    }
}

impl Scanner {
    /// Every name leads to an application.
    pub open spec fn wf(self) -> bool {
        forall|name: Seq<char>| #[trigger]
            self.exe_map@.contains_key(name) ==> self.exe_map@[name] < self.apps@.len()
    }

    /// What is watched, and what is reported, after a scan of the processes: the end of the
    /// watched game, if its process has gone; then, if nothing is watched, the first
    /// process that is a listed game.
    pub open spec fn scanned(self, processes: Seq<Process>) -> (
        Option<WatchedGame>,
        Seq<DiscoveryEvent>,
    ) {
        let kept = still_watched(self.watched, processes);
        let ended = if self.watched is Some && kept is None {
            seq![DiscoveryEvent::GameExited { app_id: self.watched->Some_0.app_id }]
        } else {
            seq![]
        };
        let found = first_game(self.exe_map@, processes);
        if kept is None && found < processes.len() {
            let app = self.apps@[self.exe_map@[processes[found].exe@] as int];
            let pid = processes[found].pid;
            (
                Some(WatchedGame { app_id: app.id, pid }),
                ended.push(
                    DiscoveryEvent::GameDetected { app_id: app.id, app_name: app.name, pid },
                ),
            )
        } else {
            (kept, ended)
        }
    }

    /// A scanner that watches nothing yet.
    pub fn new(apps: Vec<DetectableApp>) -> (r: Scanner)
        ensures
            r.wf(),
            r.apps == apps,
            is_index(r.exe_map@, apps@),
            r.watched is None,
            forall|i: int, j: int|
                #![trigger apps@[i].executables->Some_0@[j]]
                0 <= i < apps@.len() && apps@[i].executables is Some && 0 <= j
                    < apps@[i].executables->Some_0@.len()
                    && !apps@[i].executables->Some_0@[j].is_launcher ==> {
                    let name = text::lower_case(apps@[i].executables->Some_0@[j].name@);
                    r.exe_map@.contains_key(name) && i <= r.exe_map@[name]
                },
    {
        let exe_map = build_exe_map(&apps);
        assert forall|name: Seq<char>| #[trigger] exe_map@.contains_key(name) implies exe_map@[name]
            < apps@.len() by {
            let j = choose|j: int| lists(apps@, exe_map@[name] as int, j, name);
            assert(lists(apps@, exe_map@[name] as int, j, name));
        }
        proof {
            programs_lead_to_their_application(exe_map@, apps@);
        }
        Scanner { apps, exe_map, watched: None }
    }

    /// Scans the running processes, and says what to report.
    pub fn scan(&mut self, processes: &Vec<Process>) -> (r: Vec<DiscoveryEvent>)
        requires
            old(self).wf(),
        ensures
            final(self).wf(),
            final(self).apps == old(self).apps,
            final(self).exe_map == old(self).exe_map,
            final(self).watched == old(self).scanned(processes@).0,
            r@ == old(self).scanned(processes@).1,
    {
        let mut events: Vec<DiscoveryEvent> = Vec::new();
        let gone = match &self.watched {
            Some(game) => !is_running(processes, game.pid),
            None => false,
        };
        if gone {
            if let Some(game) = self.watched.take() {
                events.push(DiscoveryEvent::GameExited { app_id: game.app_id });
            }
        }
        if self.watched.is_none() {
            if let Some(found) = find_game(&self.exe_map, processes) {
                let index: usize = match self.exe_map.get(processes[found].exe.as_str()) {
                    Some(index) => *index,
                    None => 0,
                };
                let app: &DetectableApp = &self.apps[index];
                let pid: u32 = processes[found].pid;
                events.push(
                    DiscoveryEvent::GameDetected {
                        app_id: app.id.clone(),
                        app_name: app.name.clone(),
                        pid,
                    },
                );
                self.watched = Some(WatchedGame { app_id: app.id.clone(), pid });
            }
        }
        events
    }
}

impl Scanner {
    /// The same scanner, watching another game or none.
    pub open spec fn watching(self, watched: Option<WatchedGame>) -> Scanner {
        Scanner { watched, ..self }
    }

    /// What is watched after a run of scans.
    pub open spec fn watched_after(self, scans: Seq<Seq<Process>>) -> Option<WatchedGame>
        decreases scans.len(),
    {
        if scans.len() == 0 {
            self.watched
        } else {
            self.watching(self.watched_after(scans.drop_last())).scanned(scans.last()).0
        }
    }

    /// What is reported over a run of scans.
    pub open spec fn reported(self, scans: Seq<Seq<Process>>) -> Seq<DiscoveryEvent>
        decreases scans.len(),
    {
        if scans.len() == 0 {
            seq![]
        } else {
            self.reported(scans.drop_last()) + self.watching(
                self.watched_after(scans.drop_last()),
            ).scanned(scans.last()).1
        }
    }
}

/// The application of a watched game.
pub open spec fn app_of(watched: Option<WatchedGame>) -> Option<String> {
    match watched {
        Some(game) => Some(game.app_id),
        None => None,
    }
}

/// Follows reports, starting with the application of the game that runs, if one does: a
/// game is detected only while none runs, and only the game that runs exits. The result is
/// the application that runs in the end, or `None` where the reports break that order.
pub open spec fn follow(running: Option<String>, reports: Seq<DiscoveryEvent>) -> Option<
    Option<String>,
>
    decreases reports.len(),
{
    if reports.len() == 0 {
        Some(running)
    } else {
        match follow(running, reports.drop_last()) {
            None => None,
            Some(running) => match reports.last() {
                DiscoveryEvent::GameDetected { app_id, .. } => if running is None {
                    Some(Some(app_id))
                } else {
                    None
                },
                DiscoveryEvent::GameExited { app_id } => if running == Some(app_id) {
                    Some(None)
                } else {
                    None
                },
            },
        }
    }
}

/// One game at a time: over any run of scans, a game is reported only while none is
/// watched, its end is reported before the next game is, and the reports agree with what
/// is watched in the end.
pub proof fn one_game_at_a_time(scanner: Scanner, scans: Seq<Seq<Process>>)
    ensures
        follow(app_of(scanner.watched), scanner.reported(scans)) == Some(
            app_of(scanner.watched_after(scans)),
        ),
    decreases scans.len(),
{
    if scans.len() > 0 {
        let earlier = scans.drop_last();
        one_game_at_a_time(scanner, earlier);
        let now = scanner.watching(scanner.watched_after(earlier));
        let events = now.scanned(scans.last()).1;
        lemma_follow_joined(app_of(scanner.watched), scanner.reported(earlier), events);
        reveal_with_fuel(follow, 3);
        if events.len() == 2 {
            assert(events.drop_last().drop_last() =~= seq![]);
        } else if events.len() == 1 {
            assert(events.drop_last() =~= seq![]);
        }
    }
}

proof fn lemma_follow_joined(
    running: Option<String>,
    first: Seq<DiscoveryEvent>,
    second: Seq<DiscoveryEvent>,
)
    ensures
        follow(running, first + second) == match follow(running, first) {
            None => None,
            Some(running) => follow(running, second),
        },
    decreases second.len(),
{
    if second.len() == 0 {
        assert(first + second =~= first);
    } else {
        assert((first + second).drop_last() =~= first + second.drop_last());
        lemma_follow_joined(running, first, second.drop_last());
    }
}

/// The first detected game wins: while its process runs, it stays watched and nothing is
/// reported, whatever else starts.
pub proof fn first_detected_wins(scanner: Scanner, game: WatchedGame, processes: Seq<Process>)
    requires
        scanner.watched == Some(game),
        runs(processes, game.pid),
    ensures
        scanner.scanned(processes) == (Some(game), Seq::<DiscoveryEvent>::empty()),
{
}

/// Every program of an application that is no launcher leads, by its name in lower case, to
/// that application or to a later one with such a program; and every name leads to an
/// application with such a program, behind which none has one.
pub proof fn programs_lead_to_their_application(
    map: Map<Seq<char>, usize>,
    apps: Seq<DetectableApp>,
)
    requires
        is_index(map, apps),
    ensures
        forall|i: int, j: int|
            #![trigger apps[i].executables->Some_0@[j]]
            0 <= i < apps.len() && apps[i].executables is Some && 0 <= j
                < apps[i].executables->Some_0@.len()
                && !apps[i].executables->Some_0@[j].is_launcher ==> {
                let name = text::lower_case(apps[i].executables->Some_0@[j].name@);
                map.contains_key(name) && i <= map[name]
            },
        forall|name: Seq<char>| #[trigger]
            map.contains_key(name) ==> map[name] < apps.len() && (
            apps[map[name] as int].executables matches Some(programs) && exists|j: int|
                0 <= j < programs@.len() && !(#[trigger] programs@[j]).is_launcher
                    && text::lower_case(programs@[j].name@) == name),
{
    assert forall|i: int, j: int|
        #![trigger apps[i].executables->Some_0@[j]]
        0 <= i < apps.len() && apps[i].executables is Some && 0 <= j
            < apps[i].executables->Some_0@.len()
            && !apps[i].executables->Some_0@[j].is_launcher implies ({
        let name = text::lower_case(apps[i].executables->Some_0@[j].name@);
        map.contains_key(name) && i <= map[name]
    }) by {
        let name = text::lower_case(apps[i].executables->Some_0@[j].name@);
        assert(lists(apps, i, j, name));
    }
    assert forall|name: Seq<char>| #[trigger] map.contains_key(name) implies map[name] < apps.len()
        && (apps[map[name] as int].executables matches Some(programs) && exists|j: int|
        0 <= j < programs@.len() && !(#[trigger] programs@[j]).is_launcher && text::lower_case(
            programs@[j].name@,
        ) == name) by {
        let j = choose|j: int| lists(apps, map[name] as int, j, name);
        assert(lists(apps, map[name] as int, j, name));
        let programs = apps[map[name] as int].executables->Some_0;
        assert(!programs@[j].is_launcher);
    }
}

/// A scan reports a game as what it is: its process is the first that runs a program of the
/// list, and its id and name are those of the application that the program leads to.
pub proof fn detected_games_are_what_they_are(scanner: Scanner, processes: Seq<Process>)
    requires
        is_index(scanner.exe_map@, scanner.apps@),
    ensures
        forall|e: int|
            0 <= e < scanner.scanned(processes).1.len() ==> (
            #[trigger] scanner.scanned(processes).1[e] matches DiscoveryEvent::GameDetected {
                app_id,
                app_name,
                pid,
            } ==> exists|k: int|
                {
                    &&& 0 <= k < processes.len()
                    &&& (#[trigger] processes[k]).pid == pid
                    &&& scanner.exe_map@.contains_key(processes[k].exe@)
                    &&& forall|m: int|
                        0 <= m < k ==> !scanner.exe_map@.contains_key(
                            (#[trigger] processes[m]).exe@,
                        )
                    &&& app_id == scanner.apps@[scanner.exe_map@[processes[k].exe@] as int].id
                    &&& app_name == scanner.apps@[scanner.exe_map@[processes[k].exe@] as int].name
                    &&& scanner.scanned(processes).0 matches Some(game) && game.app_id == app_id
                        && game.pid == pid
                }),
{
    lemma_first_game(scanner.exe_map@, processes);
    let found = first_game(scanner.exe_map@, processes);
    let events = scanner.scanned(processes).1;
    assert forall|e: int| 0 <= e < events.len() implies (
    #[trigger] events[e] matches DiscoveryEvent::GameDetected { app_id, app_name, pid } ==> exists|
        k: int,
    |
        {
            &&& 0 <= k < processes.len()
            &&& (#[trigger] processes[k]).pid == pid
            &&& scanner.exe_map@.contains_key(processes[k].exe@)
            &&& forall|m: int|
                0 <= m < k ==> !scanner.exe_map@.contains_key((#[trigger] processes[m]).exe@)
            &&& app_id == scanner.apps@[scanner.exe_map@[processes[k].exe@] as int].id
            &&& app_name == scanner.apps@[scanner.exe_map@[processes[k].exe@] as int].name
            &&& scanner.scanned(processes).0 matches Some(game) && game.app_id == app_id && game.pid
                == pid
        }) by {
        if events[e] is GameDetected {
            assert(processes[found].pid == events[e]->pid);
        }
    }
}

/// What a scan reports, in full: first the end of the watched game, exactly if its process
/// is gone; then, exactly if nothing is watched any more and a listed program runs, one
/// detected game, which is then watched. Otherwise what was watched stays so.
pub proof fn scans_report_what_happened(scanner: Scanner, processes: Seq<Process>)
    ensures
        ({
            let (watched, events) = scanner.scanned(processes);
            let gone = scanner.watched matches Some(game) && forall|i: int|
                0 <= i < processes.len() ==> (#[trigger] processes[i]).pid != game.pid;
            let listed = exists|i: int|
                0 <= i < processes.len() && scanner.exe_map@.contains_key(
                    (#[trigger] processes[i]).exe@,
                );
            let detects = (gone || scanner.watched is None) && listed;
            &&& events.len() == (if gone {
                1int
            } else {
                0
            }) + (if detects {
                1int
            } else {
                0
            })
            &&& gone ==> events[0] == (DiscoveryEvent::GameExited {
                app_id: scanner.watched->Some_0.app_id,
            })
            &&& detects ==> events.last() is GameDetected && watched is Some
            &&& !detects ==> watched == if gone {
                None
            } else {
                scanner.watched
            }
        }),
{
    lemma_first_game(scanner.exe_map@, processes);
    let found = first_game(scanner.exe_map@, processes);
    if found < processes.len() {
        assert(scanner.exe_map@.contains_key(processes[found].exe@));
    }
}

/// While nothing is watched, a scan detects a game exactly if some running process is a
/// game program of a listed application.
pub proof fn listed_games_are_detected(scanner: Scanner, processes: Seq<Process>)
    requires
        is_index(scanner.exe_map@, scanner.apps@),
        scanner.watched is None,
    ensures
        (scanner.scanned(processes).0 is Some) == (exists|k: int, i: int, j: int|
            0 <= k < processes.len() && #[trigger] lists(
                scanner.apps@,
                i,
                j,
                (#[trigger] processes[k]).exe@,
            )),
{
    let map = scanner.exe_map@;
    let apps = scanner.apps@;
    lemma_first_game(map, processes);
    let found = first_game(map, processes);
    if found < processes.len() {
        let name = processes[found].exe@;
        assert(map.contains_key(name));
        let j = choose|j: int| lists(apps, map[name] as int, j, name);
        assert(lists(apps, map[name] as int, j, processes[found].exe@));
    }
    if exists|k: int, i: int, j: int|
        0 <= k < processes.len() && #[trigger] lists(apps, i, j, (#[trigger] processes[k]).exe@) {
        let (k, i, j) = choose|k: int, i: int, j: int|
            0 <= k < processes.len() && #[trigger] lists(
                apps,
                i,
                j,
                (#[trigger] processes[k]).exe@,
            );
        assert(map.contains_key(processes[k].exe@));
    }
}

proof fn lemma_first_game(map: Map<Seq<char>, usize>, processes: Seq<Process>)
    ensures
        0 <= first_game(map, processes) <= processes.len(),
        first_game(map, processes) < processes.len() ==> map.contains_key(
            processes[first_game(map, processes)].exe@,
        ),
        forall|k: int|
            0 <= k < first_game(map, processes) ==> !map.contains_key(
                (#[trigger] processes[k]).exe@,
            ),
    decreases processes.len(),
{
    if processes.len() > 0 && !map.contains_key(processes[0].exe@) {
        let rest = processes.skip(1);
        lemma_first_game(map, rest);
        assert forall|k: int| 0 <= k < first_game(map, processes) implies !map.contains_key(
            (#[trigger] processes[k]).exe@,
        ) by {
            if k > 0 {
                assert(rest[k - 1] == processes[k]);
            }
        }
    }
}

fn is_running(processes: &Vec<Process>, pid: u32) -> (r: bool)
    ensures
        r == runs(processes@, pid),
{
    let mut i: usize = 0;
    while i < processes.len()
        invariant
            i <= processes@.len(),
            forall|k: int| 0 <= k < i ==> (#[trigger] processes@[k]).pid != pid,
        decreases processes@.len() - i,
    {
        if processes[i].pid == pid {
            assert(processes@[i as int].pid == pid);
            return true;
        }
        i = i + 1;
    }
    false
}

fn find_game(map: &StringHashMap<usize>, processes: &Vec<Process>) -> (r: Option<usize>)
    ensures
        (r is Some) == (first_game(map@, processes@) < processes@.len()),
        r matches Some(i) ==> i == first_game(map@, processes@) && map@.contains_key(
            processes@[i as int].exe@,
        ),
        0 <= first_game(map@, processes@) <= processes@.len(),
{
    let mut i: usize = 0;
    assert(processes@.skip(0) =~= processes@);
    while i < processes.len()
        invariant
            i <= processes@.len(),
            first_game(map@, processes@) == i + first_game(map@, processes@.skip(i as int)),
        decreases processes@.len() - i,
    {
        if map.contains_key(processes[i].exe.as_str()) {
            return Some(i);
        }
        assert(processes@.skip(i as int).skip(1) =~= processes@.skip(i + 1));
        i = i + 1;
    }
    None
}

/// Whether the program at `(i, j)` comes before the one at `(p, q)` in the list.
spec fn before(i: int, j: int, p: int, q: int) -> bool {
    i < p || (i == p && j < q)
}

/// Whether `map` is the index of the programs before the one at `(p, q)`.
spec fn is_index_before(
    map: Map<Seq<char>, usize>,
    apps: Seq<DetectableApp>,
    p: int,
    q: int,
) -> bool {
    &&& forall|i: int, j: int, name: Seq<char>|
        before(i, j, p, q) && #[trigger] lists(apps, i, j, name) ==> map.contains_key(name) && i
            <= map[name]
    &&& forall|name: Seq<char>| #[trigger]
        map.contains_key(name) ==> exists|j: int|
            before(map[name] as int, j, p, q) && lists(apps, map[name] as int, j, name)
}

proof fn lemma_index_step(
    earlier: Map<Seq<char>, usize>,
    later: Map<Seq<char>, usize>,
    apps: Seq<DetectableApp>,
    p: int,
    q: int,
)
    requires
        is_index_before(earlier, apps, p, q),
        0 <= p < apps.len(),
        p <= usize::MAX,
        apps[p].executables matches Some(executables) && 0 <= q < executables@.len() && {
            let program = executables@[q];
            later == if program.is_launcher {
                earlier
            } else {
                earlier.insert(text::lower_case(program.name@), p as usize)
            }
        },
    ensures
        is_index_before(later, apps, p, q + 1),
{
    let program = apps[p].executables->Some_0@[q];
    let key = text::lower_case(program.name@);
    assert forall|i: int, j: int, name: Seq<char>|
        before(i, j, p, q + 1) && #[trigger] lists(apps, i, j, name) implies later.contains_key(
        name,
    ) && i <= later[name] by {
        if before(i, j, p, q) {
            assert(earlier.contains_key(name));
        }
    }
    assert forall|name: Seq<char>| #[trigger] later.contains_key(name) implies exists|j: int|
        before(later[name] as int, j, p, q + 1) && lists(apps, later[name] as int, j, name) by {
        if !program.is_launcher && name == key {
            assert(before(later[name] as int, q, p, q + 1) && lists(apps, p, q, name));
        } else {
            assert(earlier.contains_key(name));
            let j = choose|j: int|
                before(earlier[name] as int, j, p, q) && lists(apps, earlier[name] as int, j, name);
            assert(before(later[name] as int, j, p, q + 1) && lists(
                apps,
                later[name] as int,
                j,
                name,
            ));
        }
    }
}

proof fn lemma_index_next_app(map: Map<Seq<char>, usize>, apps: Seq<DetectableApp>, p: int)
    requires
        0 <= p < apps.len(),
        match apps[p].executables {
            Some(executables) => is_index_before(map, apps, p, executables@.len() as int),
            None => is_index_before(map, apps, p, 0),
        },
    ensures
        is_index_before(map, apps, p + 1, 0),
{
    let q = match apps[p].executables {
        Some(executables) => executables@.len() as int,
        None => 0,
    };
    assert forall|i: int, j: int, name: Seq<char>|
        before(i, j, p + 1, 0) && #[trigger] lists(apps, i, j, name) implies map.contains_key(name)
        && i <= map[name] by {
        assert(before(i, j, p, q));
    }
    assert forall|name: Seq<char>| #[trigger] map.contains_key(name) implies exists|j: int|
        before(map[name] as int, j, p + 1, 0) && lists(apps, map[name] as int, j, name) by {
        let j = choose|j: int|
            before(map[name] as int, j, p, q) && lists(apps, map[name] as int, j, name);
        assert(before(map[name] as int, j, p + 1, 0) && lists(apps, map[name] as int, j, name));
    }
}

proof fn lemma_index_complete(map: Map<Seq<char>, usize>, apps: Seq<DetectableApp>)
    requires
        is_index_before(map, apps, apps.len() as int, 0),
    ensures
        is_index(map, apps),
{
    assert forall|i: int, j: int, name: Seq<char>| #[trigger]
        lists(apps, i, j, name) implies map.contains_key(name) && i <= map[name] by {
        assert(before(i, j, apps.len() as int, 0));
    }
}

/// The names of the game programs, and the applications that they belong to.
pub fn build_exe_map(apps: &Vec<DetectableApp>) -> (r: StringHashMap<usize>)
    ensures
        is_index(r@, apps@),
{
    let mut map: StringHashMap<usize> = StringHashMap::new();
    let mut i: usize = 0;
    while i < apps.len()
        invariant
            i <= apps@.len(),
            is_index_before(map@, apps@, i as int, 0),
        decreases apps@.len() - i,
    {
        if let Some(executables) = &apps[i].executables {
            let mut j: usize = 0;
            while j < executables.len()
                invariant
                    i < apps@.len(),
                    apps@[i as int].executables == Some(*executables),
                    j <= executables@.len(),
                    is_index_before(map@, apps@, i as int, j as int),
                decreases executables@.len() - j,
            {
                let program: &AppExecutable = &executables[j];
                let ghost earlier = map@;
                if !program.is_launcher {
                    let name: String = to_lower_case(program.name.as_str());
                    let ghost key = name@;
                    map.insert(name, i);
                    assert(lists(apps@, i as int, j as int, key));
                }
                proof {
                    lemma_index_step(earlier, map@, apps@, i as int, j as int);
                }
                j = j + 1;
            }
        }
        proof {
            lemma_index_next_app(map@, apps@, i as int);
        }
        i = i + 1;
    }
    proof {
        lemma_index_complete(map@, apps@);
    }
    map
}

} // verus!
