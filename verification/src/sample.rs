//! The answer of the sample worker, which greets whoever an event names.

use vstd::prelude::*;
use vstd::string::StringExecFns;

verus! {

/// The greeting for `name`: a general one where the name is empty.
pub open spec fn greeting_of(name: Seq<char>) -> Seq<char> {
    if name.len() == 0 {
        "Hello from Rust!"@
    } else {
        "Hello, "@ + name + "!"@
    }
}

/// The message with which the sample worker answers an event whose `key` is
/// `name`.
pub fn greeting(name: &str) -> (message: String)
    ensures
        message@ == greeting_of(name@),
{
    if name.is_empty() {
        "Hello from Rust!".to_owned()
    } else {
        "Hello, ".to_owned().concat(name).concat("!")
    }
}

} // verus!
