//! Commands the user interface may invoke that need no system access.

use vstd::prelude::*;

verus! {

/// The greeting for `name`.
pub fn greet(name: &str) -> (res: String)
    ensures
        res@ == "Hello, "@ + name@ + "! You've been greeted from Rust!"@,
{
    let mut res = String::from_str("Hello, ");
    res.append(name);
    res.append("! You've been greeted from Rust!");
    res
}

} // verus!
