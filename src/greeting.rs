//! The one request the front end can send: a greeting.
use vstd::prelude::*;

verus! {

/// The greeting for `name`.
pub open spec fn greeting_for(name: Seq<char>) -> Seq<char> {
    "Hello, "@ + name + "! You've been greeted from Rust!"@
}

/// Returns "Hello, {name}! You've been greeted from Rust!".
pub fn greet(name: &str) -> (r: String)
    ensures
        r@ == greeting_for(name@),
{
    let mut r = String::from_str("Hello, ");
    r.append(name);
    r.append("! You've been greeted from Rust!");
    r
}

} // verus!
