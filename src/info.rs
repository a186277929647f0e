use vstd::prelude::*;

verus! {

/// The greeting that a caller prints to confirm that the library is linked.
pub open spec fn greeting() -> Seq<char> {
    "ballistics-core is alive!"@
}

/// Returns a fixed greeting, so that a host can check that the library loaded.
pub fn hello_core() -> (r: &'static str)
    ensures
        r@ == greeting(),
{
    "ballistics-core is alive!"
}

} // verus!
