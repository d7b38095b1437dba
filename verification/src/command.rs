//! What the program was started to do.
use crate::text::same_text;
use vstd::prelude::*;
use vstd::string::*;

verus! {

/// What the program was started to do.
pub enum Command {
    Install,
    Uninstall,
    Enable,
    Disable,
    /// Run in the foreground.
    Run,
    /// Run as a Windows service, or else in the foreground.
    Service,
}

/// The command that the first argument names.
pub open spec fn command_of(argument: Option<Seq<char>>) -> Command {
    match argument {
        None => Command::Service,
        Some(name) => if name == "--install"@ {
            Command::Install
        } else if name == "--uninstall"@ {
            Command::Uninstall
        } else if name == "--enable"@ {
            Command::Enable
        } else if name == "--disable"@ {
            Command::Disable
        } else if name == "--run"@ {
            Command::Run
        } else {
            Command::Service
        },
    }
}

/// Each command has one name, and anything else runs the service.
pub proof fn each_command_has_one_name(argument: Option<Seq<char>>)
    ensures
        command_of(argument) is Install <==> argument == Some("--install"@),
        command_of(argument) is Uninstall <==> argument == Some("--uninstall"@),
        command_of(argument) is Enable <==> argument == Some("--enable"@),
        command_of(argument) is Disable <==> argument == Some("--disable"@),
        command_of(argument) is Run <==> argument == Some("--run"@),
{
    reveal_strlit("--install");
    reveal_strlit("--uninstall");
    reveal_strlit("--enable");
    reveal_strlit("--disable");
    reveal_strlit("--run");
    assert("--install"@.len() == 9 && "--disable"@.len() == 9 && "--install"@[2] != "--disable"@[2]);
    assert("--uninstall"@.len() == 11 && "--enable"@.len() == 8 && "--run"@.len() == 5);
}

/// The command that the first argument names.
pub fn command(argument: Option<&str>) -> (r: Command)
    ensures
        r == command_of(
            match argument {
                Some(name) => Some(name@),
                None => None,
            },
        ),
{
    match argument {
        None => Command::Service,
        Some(name) => if same_text(name, "--install") {
            Command::Install
        } else if same_text(name, "--uninstall") {
            Command::Uninstall
        } else if same_text(name, "--enable") {
            Command::Enable
        } else if same_text(name, "--disable") {
            Command::Disable
        } else if same_text(name, "--run") {
            Command::Run
        } else {
            Command::Service
        },
    }
}

} // verus!
