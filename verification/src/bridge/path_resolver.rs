//! The socket that belongs to a slot.
use crate::config;
use crate::config::{resolve_socket_dir, socket_path, IpcSettings, SocketPath};
use vstd::prelude::*;
use vstd::string::*;

verus! {

/// The socket of a slot, if the settings name the directory of sockets.
pub fn resolve(slot: u8, settings: IpcSettings) -> (r: Option<SocketPath>)
    ensures
        (r is Some) == (config::socket_dir(settings) is Some),
        r matches Some(path) ==> Some(path.directory) == config::socket_dir(settings)
            && path.file_name@ == config::socket_name(slot),
{
    match resolve_socket_dir(settings) {
        Some(directory) => Some(socket_path(directory, slot)),
        None => None,
    }
}

} // verus!
