use vstd::prelude::*;

verus! {

/// The text that `greet` returns for `name`.
pub open spec fn greeting_text(name: Seq<char>) -> Seq<char> {
    "Hello, "@ + name + "! You've been greeted from Rust!"@
}

/// Builds the greeting for `name`.
pub fn greet(name: &str) -> (r: String)
    ensures
        r@ == greeting_text(name@),
{
    let head = String::from_str("Hello, ");
    head.concat(name).concat("! You've been greeted from Rust!")
}

} // verus!
