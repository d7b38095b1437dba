//! Where Discord's sockets are: the directory that holds them, and the value in the
//! registry that may name it.
use crate::text;
use crate::text::{decode_utf16_lossy, push_decimal, starts_with};
use vstd::prelude::*;
use vstd::slice::slice_subrange;
use vstd::string::*;

verus! {

/// What the surroundings say about the directory of Discord's sockets.
pub struct IpcSettings {
    /// The environment variable `DISCORD_IPC_PATH`, which WINE passes on from Linux.
    pub discord_ipc_path: Option<String>,
    /// The registry value `DISCORD_IPC_PATH`, for macOS, where services inherit no
    /// variables from the host.
    pub registry: Option<String>,
    /// The environment variable `XDG_RUNTIME_DIR`, the fallback on Linux.
    pub xdg_runtime_dir: Option<String>,
}

/// Whether a setting is a path at all: it starts at a root.
pub open spec fn is_rooted(path: Seq<char>) -> bool {
    path.len() > 0 && (path[0] == '/' || path[0] == '\\')
}

/// Whether a setting is a path at all.
pub fn is_ipc_path(path: &str) -> (r: bool)
    ensures
        r == is_rooted(path@),
{
    starts_with(path, '/') || starts_with(path, '\\')
}

/// The directory that the settings name: the first, in order of priority, that is set to
/// a path. The fallback is taken as it is.
pub open spec fn socket_dir(settings: IpcSettings) -> Option<String> {
    if settings.discord_ipc_path matches Some(path) && is_rooted(path@) {
        settings.discord_ipc_path
    } else if settings.registry matches Some(path) && is_rooted(path@) {
        settings.registry
    } else {
        settings.xdg_runtime_dir
    }
}

/// The directory of Discord's sockets, if the settings name one.
pub fn resolve_socket_dir(settings: IpcSettings) -> (r: Option<String>)
    ensures
        r == socket_dir(settings),
        (settings.discord_ipc_path matches Some(path) && path@.len() > 0 && (path@[0] == '/'
            || path@[0] == '\\')) ==> r == settings.discord_ipc_path,
{
    if let Some(path) = settings.discord_ipc_path {
        if is_ipc_path(path.as_str()) {
            return Some(path);
        }
    }
    if let Some(path) = settings.registry {
        if is_ipc_path(path.as_str()) {
            return Some(path);
        }
    }
    settings.xdg_runtime_dir
}

/// The environment variable decides if it starts at a root; else the registry value if that
/// starts at a root; else the fallback, as it is, or nothing where it is not set.
pub proof fn the_first_rooted_setting_decides(settings: IpcSettings)
    ensures
        ({
            let variable = settings.discord_ipc_path matches Some(path) && path@.len() > 0 && (
            path@[0] == '/' || path@[0] == '\\');
            let registry = settings.registry matches Some(path) && path@.len() > 0 && (path@[0]
                == '/' || path@[0] == '\\');
            &&& variable ==> socket_dir(settings) == settings.discord_ipc_path
            &&& !variable && registry ==> socket_dir(settings) == settings.registry
            &&& !variable && !registry ==> socket_dir(settings) == settings.xdg_runtime_dir
        }),
{
}

/// The socket of a slot is named by the slot's number behind a fixed word.
pub proof fn sockets_are_numbered(slot: u8)
    ensures
        socket_name(slot).take(12) == "discord-ipc-"@,
        text::value_of(socket_name(slot).skip(12)) == slot,
        forall|i: int|
            12 <= i < socket_name(slot).len() ==> '0' <= #[trigger] socket_name(slot)[i] <= '9',
        socket_name(slot)[12] == '0' ==> socket_name(slot).len() == 13,
{
    reveal_strlit("discord-ipc-");
    text::decimal_reads_as_its_number(slot as nat);
    let name = socket_name(slot);
    let digits = text::decimal(slot as nat);
    assert(name.take(12) =~= "discord-ipc-"@);
    assert(name.skip(12) =~= digits);
    assert forall|i: int| 12 <= i < name.len() implies '0' <= #[trigger] name[i] <= '9' by {
        assert(name[i] == digits[i - 12]);
    }
}

/// The text of a registry value of `len` bytes, the last two of which are its terminator.
pub open spec fn registry_text(units: Seq<u16>, len: u32) -> Seq<char> {
    text::utf16_lossy(units.take(len as int / 2 - 1))
}

/// The path that a query of the registry found: none where opening the key or the query
/// failed, where the value has no unit, or where it is empty.
pub fn read_registry_ipc_path(open_code: u32, query_code: u32, units: &[u16], len: u32) -> (r:
    Option<String>)
    requires
        open_code == 0 && query_code == 0 ==> len as int / 2 - 1 <= units@.len(),
    ensures
        (r is Some) == (open_code == 0 && query_code == 0 && len >= 2 && registry_text(
            units@,
            len,
        ).len() > 0),
        r matches Some(path) ==> path@ == registry_text(units@, len),
{
    if open_code != 0 || query_code != 0 || len < 2 {
        return None;
    }
    let count: usize = (len / 2) as usize - 1;
    let path: String = decode_utf16_lossy(slice_subrange(units, 0, count));
    assert(units@.subrange(0, count as int) =~= units@.take(len as int / 2 - 1));
    if path.as_str().is_empty() {
        None
    } else {
        Some(path)
    }
}

/// The text of a registry value leaves out its last unit, whatever it is, and what follows
/// the value; half a unit does not count.
pub proof fn the_last_unit_is_left_out(text_units: Seq<u16>, last: u16, rest: Seq<u16>, len: u32)
    requires
        len == 2 * (text_units.len() + 1) || len == 2 * (text_units.len() + 1) + 1,
    ensures
        registry_text(text_units.push(last) + rest, len) == text::utf16_lossy(text_units),
{
    assert((text_units.push(last) + rest).take(len as int / 2 - 1) =~= text_units);
}

/// A path that the registry holds as a terminated value is read back as it was written.
pub proof fn registry_gives_back_the_path(path: Seq<char>, rest: Seq<u16>, len: u32)
    requires
        len == 2 * (text::utf16(path).len() + 1),
    ensures
        registry_text(text::utf16(path).push(0) + rest, len) == path,
{
    let units = text::utf16(path);
    assert((units.push(0) + rest).take(len as int / 2 - 1) =~= units);
    text::utf16_round_trip(path);
}

/// A socket of Discord's: a file in the directory of sockets.
pub struct SocketPath {
    pub directory: String,
    pub file_name: String,
}

/// The name of the socket of a slot.
pub open spec fn socket_name(slot: u8) -> Seq<char> {
    "discord-ipc-"@ + text::decimal(slot as nat)
}

/// The socket of a slot in a directory.
pub fn socket_path(directory: String, slot: u8) -> (r: SocketPath)
    ensures
        r.directory == directory,
        r.file_name@ == socket_name(slot),
{
    let mut file_name: String = "discord-ipc-".to_owned();
    push_decimal(&mut file_name, slot as u64);
    SocketPath { directory, file_name }
}

} // verus!
