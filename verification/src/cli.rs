//! The command-line arguments of the program.
use vstd::prelude::*;

verus! {

/// The program's arguments.
pub struct Args {
    /// Path to the TOML configuration file.
    /// If not provided, the application will search for the file
    /// in the current directory and then in the XDG config directory.
    pub config: Option<String>,
}

} // verus!
