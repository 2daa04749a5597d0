//! Picking a display name.
use vstd::prelude::*;

verus! {

/// Relies on `names::Generator`: the default generator's `next` always
/// returns `Some` of an adjective and a noun joined by `-`, so the name is
/// never empty. Which name comes out is random.
#[verifier::external_body]
fn random_name() -> (r: Option<String>)
    ensures
        r is Some,
        r->Some_0@.len() > 0,
{
    names::Generator::default().next()
}

/// `name` when it is not empty, else a random adjective-noun name.
pub fn new_name(name: String) -> (r: String)
    ensures
        name@.len() > 0 ==> r@ == name@,
        r@.len() > 0,
{
    if !name.as_str().is_empty() {
        return name;
    }
    match random_name() {
        Some(n) => n,
        None => name,
    }
}

} // verus!
