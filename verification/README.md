# xbridge

Discord Rich Presence bridge for WINE and Proton, written in Verus.

xbridge runs inside a WINE prefix as a Windows service. It passes Discord's IPC traffic
between games and the Discord client of the host, over a Unix domain socket. It also finds
running games in Discord's list of detectable applications, and shows them as the activity
where a game has no Rich Presence of its own.

## Layout

- `src/` is the library. Every item in it is verified, except for the calls into `serde_json`,
  `sha2` and the standard library, whose contracts stand beside them.
  - `gateway/`: frames, the conversation with Discord, and the gateway as a state machine
    (`machine.rs`) with what holds of it whatever happens (`laws.rs`)
  - `bridge/`: the plain bridge: a slot, and the writer to Discord, as state machines
  - `discovery/`: the process scanner, and keeping the list of applications up to date
  - `service/`: installing the service, and its control while it runs
  - `config.rs`, `command.rs`, `log.rs`, `transfer.rs`, `json.rs`, `text.rs`: settings,
    arguments, log lines, sending, documents, and text
- `app/` is the program: pipes, sockets, processes, the registry and the service manager.
  It carries out what the machines of the library ask for, and hands back what came of it.
- `tests/` holds the tests of the library.

## Commands

| Command       | What it does                                             |
|---------------|----------------------------------------------------------|
| `--install`   | install the service and the list of applications, start  |
| `--uninstall` | stop the service, remove all files                       |
| `--enable`    | have the service start with Windows, and start it        |
| `--disable`   | stop the service, and have it not start any more         |
| `--run`       | run in the foreground                                    |

## Where Discord's socket is

The directory of Discord's sockets is the first of these that is set:

1. the environment variable `DISCORD_IPC_PATH`, where it starts with `/` or `\`;
2. the registry value `DISCORD_IPC_PATH` under
   `HKLM\SYSTEM\CurrentControlSet\Control\Session Manager\Environment`, likewise;
3. the environment variable `XDG_RUNTIME_DIR`.
