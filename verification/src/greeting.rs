//! A greeting for a named or an unnamed guest.

use vstd::prelude::*;
use vstd::string::StringExecFns;

verus! {

/// The name that is greeted when none is given.
pub open spec fn default_guest() -> Seq<char> {
    "napi-rs"@
}

/// The greeting for `name`: `Hello, `, the name, and an exclamation mark.
pub open spec fn greeting(name: Seq<char>) -> Seq<char> {
    "Hello, "@ + name + "!"@
}

/// Greets `input`, or the default guest where there is none.
pub fn hello_napi(input: Option<String>) -> (text: String)
    ensures
        text@ == greeting(
            match input {
                Some(name) => name@,
                None => default_guest(),
            },
        ),
{
    let mut text = String::from_str("Hello, ");
    match input {
        Some(name) => text.append(name.as_str()),
        None => text.append("napi-rs"),
    }
    text.append("!");
    text
}

} // verus!
