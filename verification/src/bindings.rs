//! Small things that are offered to other languages beside the messages of
//! the content generators.

use std::sync::Arc;
use vstd::prelude::*;

verus! {

/// The sum of `x` and `y`.
pub fn add(x: u32, y: u32) -> (sum: u32)
    requires
        x + y <= u32::MAX,
    ensures
        sum == x + y,
{
    x + y
}

/// An object without state.
pub struct Obj;

impl Obj {
    pub fn new() -> (obj: Arc<Self>)
        ensures
            *obj == Obj,
    {
        Arc::new(Obj)
    }

    /// A greeting.
    pub fn do_something(self: Arc<Self>) -> (greeting: String)
        ensures
            greeting@ == "hi"@,
    {
        "hi".to_owned()
    }
}

} // verus!
