//! How the process was invoked, and what that asks for.

use vstd::prelude::*;

verus! {

/// The argument that a detaching process hands to the copy of itself that it
/// leaves behind.
pub const CHILD_MARKER: &'static str = "child";

/// The exit status of a process that has handed over to its detached copy.
pub const EXIT_HANDED_OVER: i32 = 0;

/// What an invocation asks for.
#[derive(Clone, Copy, Debug, PartialEq, Eq, Structural)]
pub enum LaunchMode {
    /// Start a copy of the program with the marker argument, then exit.
    Detach,
    /// Run the timer in this process.
    Run,
}

/// What an invocation with `words` words on its command line asks for, the
/// program's own name counted: the bare name detaches, anything more runs.
pub open spec fn mode_of(words: nat) -> LaunchMode {
    if words == 1 {
        LaunchMode::Detach
    } else {
        LaunchMode::Run
    }
}

/// Decides between detaching and running from the number of words on the
/// command line, the program's own name counted.
pub fn launch_mode(words: usize) -> (mode: LaunchMode)
    ensures
        mode == mode_of(words as nat),
{
    if words == 1 {
        LaunchMode::Detach
    } else {
        LaunchMode::Run
    }
}

} // verus!
