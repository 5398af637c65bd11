//! The greeting command of the shell.

use vstd::prelude::*;

verus! {

/// The greeting for `name`.
pub open spec fn greeting(name: Seq<char>) -> Seq<char> {
    "Hello, "@ + name + "! You've been greeted from Rust!"@
}

/// Greets `name`.
pub fn greet(name: &str) -> (response: String)
    ensures
        response@ == greeting(name@),
{
    let mut response = String::from_str("Hello, ");
    response.append(name);
    response.append("! You've been greeted from Rust!");
    response
}

} // verus!
