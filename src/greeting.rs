//! The greeting endpoint's text.

use vstd::prelude::*;
use vstd::string::StringExecFns;

verus! {

/// The name greeted when the request gives none: `World`.
pub fn default_name() -> (r: String)
    ensures
        r@ == "World"@,
{
    String::from_str("World")
}

/// `Hello, {name}!`.
pub fn greeting(name: &str) -> (r: String)
    ensures
        r@ == "Hello, "@ + name@ + "!"@,
{
    let mut s = String::from_str("Hello, ");
    s.append(name);
    s.append("!");
    s
}

} // verus!
