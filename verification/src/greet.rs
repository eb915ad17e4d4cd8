//! The `greet` operation of the command bridge: a pure, total formatting
//! function that embeds the caller's name verbatim in a fixed greeting.

use vstd::prelude::*;

verus! {

/// The text placed before the caller's name.
pub open spec fn greeting_prefix() -> Seq<char> {
    "Hello, "@
}

/// The text placed after the caller's name.
pub open spec fn greeting_suffix() -> Seq<char> {
    "! You've been greeted from Rust!"@
}

/// The greeting owed for a given name: the prefix, the name verbatim, the
/// suffix. A spec function of the name alone, so the operation is
/// deterministic and side-effect free by construction.
pub open spec fn greeting(name: Seq<char>) -> Seq<char> {
    greeting_prefix() + name + greeting_suffix()
}

/// Returns the greeting for `name`. Never fails.
pub fn greet(name: &str) -> (r: String)
    ensures
        r@ == greeting(name@),
{
    let r = "Hello, ".to_owned();
    let r = r.concat(name);
    let r = r.concat("! You've been greeted from Rust!");
    proof {
        assert(r@ =~= greeting(name@));
    }
    r
}

/// The greeting embeds the name verbatim: the characters of `name` appear
/// unchanged, as one contiguous run, between the prefix and the suffix.
pub proof fn lemma_greeting_embeds_name(name: Seq<char>)
    ensures
        greeting(name).len() == greeting_prefix().len() + name.len() + greeting_suffix().len(),
        greeting(name).subrange(
            greeting_prefix().len() as int,
            greeting_prefix().len() + name.len() as int,
        ) == name,
{
    assert(greeting(name).subrange(
        greeting_prefix().len() as int,
        greeting_prefix().len() + name.len() as int,
    ) =~= name);
}

} // verus!
