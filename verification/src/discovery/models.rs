//! Discord's list of the applications that it can detect.
use vstd::prelude::*;

verus! {

/// An application that Discord can detect.
#[derive(Debug)]
pub struct DetectableApp {
    pub id: String,
    pub name: String,
    pub executables: Option<Vec<AppExecutable>>,
}

/// A program file of an application.
#[derive(Debug)]
pub struct AppExecutable {
    pub name: String,
    /// Whether the program only starts the game.
    pub is_launcher: bool,
}

} // verus!
