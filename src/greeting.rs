//! The greeting text that the service sends back.

use vstd::prelude::*;
use vstd::string::StringExecFns;
use crate::decimal::{append_decimal, decimal_digits};

verus! {

/// The name greeted when a request names nobody.
pub open spec fn default_name() -> Seq<char> {
    "world"@
}

/// The name that a request with the optional `name` parameter greets.
pub open spec fn chosen_name(name: Option<&str>) -> Seq<char> {
    match name {
        Some(s) => s@,
        None => default_name(),
    }
}

/// The response body for `name` when the service had been invoked
/// `times_invoked` times before.
pub open spec fn greeting_text(name: Seq<char>, times_invoked: nat) -> Seq<char> {
    "Hello "@ + name + ", welcome to the actix tower-service test ! I've been invoked "@
        + decimal_digits(times_invoked) + " times so far :)"@
}

/// The name to greet: the one given, else `world`.
pub fn name_or_default<'a>(name: Option<&'a str>) -> (r: &'a str)
    ensures
        r@ == chosen_name(name),
{
    match name {
        Some(s) => s,
        None => "world",
    }
}

/// The response body for `name` and the count of earlier invocations.
pub fn greeting(name: &str, times_invoked: usize) -> (r: String)
    ensures
        r@ == greeting_text(name@, times_invoked as nat),
{
    let mut out = String::from_str("Hello ");
    out.append(name);
    out.append(", welcome to the actix tower-service test ! I've been invoked ");
    append_decimal(&mut out, times_invoked);
    out.append(" times so far :)");
    assert(out@ =~= greeting_text(name@, times_invoked as nat));
    out
}

} // verus!
