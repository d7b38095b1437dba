use xbridge::bridge::path_resolver::resolve;
use xbridge::config::{
    is_ipc_path, read_registry_ipc_path, resolve_socket_dir, socket_path, IpcSettings,
};
use xbridge::gateway::discord::{resolve_socket_path, SLOT};

fn settings(env: Option<&str>, registry: Option<&str>, xdg: Option<&str>) -> IpcSettings {
    IpcSettings {
        discord_ipc_path: env.map(str::to_owned),
        registry: registry.map(str::to_owned),
        xdg_runtime_dir: xdg.map(str::to_owned),
    }
}

fn directory(env: Option<&str>, registry: Option<&str>, xdg: Option<&str>) -> Option<String> {
    resolve_socket_dir(settings(env, registry, xdg))
}

#[test]
fn the_variable_comes_first() {
    assert_eq!(directory(Some("/env"), Some("/reg"), Some("/xdg")).as_deref(), Some("/env"));
    assert_eq!(directory(Some("\\env"), None, None).as_deref(), Some("\\env"));
}

#[test]
fn the_registry_comes_second() {
    assert_eq!(directory(None, Some("/reg"), Some("/xdg")).as_deref(), Some("/reg"));
    assert_eq!(directory(Some("env"), Some("/reg"), Some("/xdg")).as_deref(), Some("/reg"));
    assert_eq!(directory(Some(""), Some("/reg"), None).as_deref(), Some("/reg"));
}

#[test]
fn the_runtime_directory_is_the_fallback() {
    assert_eq!(directory(None, None, Some("/xdg")).as_deref(), Some("/xdg"));
    assert_eq!(directory(Some("env"), Some("reg"), Some("/xdg")).as_deref(), Some("/xdg"));
    assert_eq!(directory(None, None, Some("anything")).as_deref(), Some("anything"));
}

#[test]
fn without_settings_there_is_no_directory() {
    assert_eq!(directory(None, None, None), None);
    assert_eq!(directory(Some("C:\\ipc"), Some("tmp"), None), None);
}

#[test]
fn a_path_starts_at_a_root() {
    assert!(is_ipc_path("/tmp"));
    assert!(is_ipc_path("\\tmp"));
    assert!(!is_ipc_path("tmp/"));
    assert!(!is_ipc_path(""));
}

#[test]
fn the_socket_is_named_after_the_slot() {
    let path = socket_path("/run/user/1000".to_owned(), 7);
    assert_eq!(path.directory, "/run/user/1000");
    assert_eq!(path.file_name, "discord-ipc-7");
    assert_eq!(socket_path(String::new(), 255).file_name, "discord-ipc-255");
}

#[test]
fn a_slot_resolves_to_its_socket() {
    let path = resolve(3, settings(None, Some("/tmp"), None)).unwrap();
    assert_eq!((path.directory.as_str(), path.file_name.as_str()), ("/tmp", "discord-ipc-3"));
    assert!(resolve(3, settings(None, None, None)).is_none());
}

#[test]
fn the_gateway_uses_the_first_slot() {
    let path = resolve_socket_path(SLOT, settings(Some("/ipc"), None, None)).unwrap();
    assert_eq!((path.directory.as_str(), path.file_name.as_str()), ("/ipc", "discord-ipc-0"));
    assert!(resolve_socket_path(SLOT, settings(Some("ipc"), None, None)).is_none());
}

fn registry_value(text: &str) -> (Vec<u16>, u32) {
    let mut units: Vec<u16> = text.encode_utf16().collect();
    units.push(0);
    let len = 2 * units.len() as u32;
    units.resize(1024, 0);
    (units, len)
}

#[test]
fn the_registry_gives_back_the_path() {
    for path in ["/var/folders/ab/T/", "\\\\host", "/тмп/😀"] {
        let (units, len) = registry_value(path);
        assert_eq!(read_registry_ipc_path(0, 0, &units, len).as_deref(), Some(path));
    }
}

#[test]
fn a_failed_or_empty_query_finds_nothing() {
    let (units, len) = registry_value("/tmp");
    assert_eq!(read_registry_ipc_path(2, 0, &units, len), None);
    assert_eq!(read_registry_ipc_path(0, 2, &units, len), None);
    assert_eq!(read_registry_ipc_path(0, 0, &units, 0), None);
    assert_eq!(read_registry_ipc_path(0, 0, &units, 1), None);
    assert_eq!(read_registry_ipc_path(0, 0, &units, 2), None);
    assert_eq!(read_registry_ipc_path(0, 0, &units, 3), None);
    assert_eq!(read_registry_ipc_path(0, 0, &units, 4).as_deref(), Some("/"));
}
