use vstd::prelude::*;

pub mod archive;
pub mod compile;
pub mod envelope;
pub mod exec;
pub mod params;
pub mod staging;
pub mod text;

verus! {

/// Greeting line served at the service root.
pub fn index() -> (r: &'static str)
    ensures
        r@ == "This is the IPOL DemoRunner module (docker)"@,
{
    "This is the IPOL DemoRunner module (docker)"
}

} // verus!
