use vstd::prelude::*;

pub mod bytes;
pub mod decoder;
pub mod encoder;
pub mod messages;
pub mod rng;
pub mod roundtrip;

verus! {

/// Returns the library's greeting string.
pub fn hello() -> (r: String)
    ensures
        r@ == "Elinvar"@,
{
    "Elinvar".to_owned()
}

} // verus!
