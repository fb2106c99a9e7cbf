//! The actions that the program is started for.

use crate::text::same_text;
use vstd::prelude::*;

verus! {

/// What the program is asked to do.
#[derive(Clone, Copy, Debug, PartialEq, Eq, Structural)]
pub enum Command {
    /// Report the plugins that were updated.
    Plugin,
    /// Report what changed between two revisions.
    Diff,
}

/// The action that goes by `name`: `plugin`, or `diff` under either of its
/// two names.
pub open spec fn command_named(name: Seq<char>) -> Option<Command> {
    if name == "plugin"@ {
        Some(Command::Plugin)
    } else if name == "diff"@ || name == "core"@ {
        Some(Command::Diff)
    } else {
        None
    }
}

/// What is said of a name that stands for no action.
pub open spec fn unknown_action(name: Seq<char>) -> Seq<char> {
    "Unknown action: "@ + name + "."@
}

/// Finds the action that goes by `name`; where there is none, says so.
pub fn parse_action(name: &str) -> (command: Result<Command, String>)
    ensures
        match command {
            Ok(found) => command_named(name@) == Some(found),
            Err(complaint) => command_named(name@) is None && complaint@ == unknown_action(name@),
        },
{
    if same_text(name, "plugin") {
        Ok(Command::Plugin)
    } else if same_text(name, "diff") || same_text(name, "core") {
        Ok(Command::Diff)
    } else {
        let mut complaint = String::from_str("Unknown action: ");
        complaint.append(name);
        complaint.append(".");
        Err(complaint)
    }
}

} // verus!
