//! The command bridge: the closed, process-wide registry of callable
//! operations and the dispatch from an inbound call to its handler. The
//! registry is fixed here at build time — names are unique and nothing is
//! registered or removed at run time.

use vstd::prelude::*;
use crate::greet::{greet, greeting};
use crate::persist::{
    MkdirFailurePolicy, SavePlan, documents_dir, home_view, plan_save, resolved_target,
};
use crate::text::str_eq;

verus! {

/// The operations the bridge exposes, as a closed set.
#[derive(Clone, Copy, PartialEq, Eq, Structural, Debug)]
pub enum CommandName {
    Greet,
    SaveFile,
}

/// The wire name under which an operation is called.
pub open spec fn command_name_chars(c: CommandName) -> Seq<char> {
    match c {
        CommandName::Greet => "greet"@,
        CommandName::SaveFile => "save_file"@,
    }
}

/// The wire name of `c`, as a string.
pub fn command_name_str(c: CommandName) -> (s: String)
    ensures
        s@ == command_name_chars(c),
{
    match c {
        CommandName::Greet => "greet".to_owned(),
        CommandName::SaveFile => "save_file".to_owned(),
    }
}

/// The fixed registry: every callable operation, in registration order.
pub open spec fn registry() -> Seq<CommandName> {
    seq![CommandName::Greet, CommandName::SaveFile]
}

/// Registered names are unique: no two entries of the registry share a wire
/// name.
pub proof fn lemma_registry_names_unique()
    ensures
        forall|i: int, j: int|
            0 <= i < j < registry().len() ==> command_name_chars(registry()[i])
                != command_name_chars(registry()[j]),
{
    reveal_strlit("greet");
    reveal_strlit("save_file");
    assert(("greet")@.len() == 5);
    assert(("save_file")@.len() == 9);
}

/// Looks a wire name up in the registry: `None` exactly when no operation is
/// registered under it.
pub fn parse_command(name: &str) -> (r: Option<CommandName>)
    ensures
        match r {
            Some(c) => name@ == command_name_chars(c),
            None => forall|c: CommandName| name@ != command_name_chars(c),
        },
{
    if str_eq(name, "greet") {
        Some(CommandName::Greet)
    } else if str_eq(name, "save_file") {
        Some(CommandName::SaveFile)
    } else {
        None
    }
}

/// One inbound call: the operation and its marshalled arguments.
pub enum CommandRequest {
    /// Greet the named caller.
    Greet { name: String },
    /// Persist `contents` at the resolution of `path`.
    SaveFile { path: String, contents: String },
}

/// What dispatch hands back: the greeting, or the effect plan of a save. The
/// host performs the plan and reports its own I/O outcome as the call's
/// string-message error, if any.
pub enum CommandReply {
    Greeting(String),
    Save(SavePlan),
}

/// What a reply owes its request: the exact greeting for a greet call; for a
/// save call, a plan whose target follows the path-resolution policy and
/// whose directory step and failure policy are as documented.
pub open spec fn reply_matches(
    req: CommandRequest,
    home: Option<Seq<char>>,
    reply: CommandReply,
) -> bool {
    match req {
        CommandRequest::Greet { name } => match reply {
            CommandReply::Greeting(g) => g@ == greeting(name@),
            _ => false,
        },
        CommandRequest::SaveFile { path, contents } => match reply {
            CommandReply::Save(plan) => {
                &&& plan.target@ == resolved_target(home, path@)
                &&& plan.on_mkdir_failure == MkdirFailurePolicy::Ignore
                &&& match home {
                    Some(h) => plan.ensure_dir matches Some(d) && d@ == documents_dir(h),
                    None => plan.ensure_dir is None,
                }
            },
            _ => false,
        },
    }
}

/// Dispatches one inbound call to its handler. `home` is the host's
/// home-directory environment value, read at the edge and handed in.
pub fn dispatch(req: &CommandRequest, home: Option<&str>) -> (reply: CommandReply)
    ensures
        reply_matches(*req, home_view(home), reply),
{
    match req {
        CommandRequest::Greet { name } => CommandReply::Greeting(greet(name.as_str())),
        CommandRequest::SaveFile { path, contents: _ } => CommandReply::Save(
            plan_save(home, path.as_str()),
        ),
    }
}

} // verus!
