use vstd::prelude::*;

verus! {

/// Returned by an insertion into a queue that already holds as many elements
/// as its capacity allows. It carries no data beyond that fact.
#[derive(Clone, Copy, Debug, PartialEq, Eq, Structural)]
pub struct CapacityError;

impl CapacityError {
    /// A short human-readable account of the error.
    pub fn description(&self) -> (r: &'static str)
        ensures
            r@ == "queue is full"@,
    {
        proof {
            reveal_strlit("queue is full");
        }
        "queue is full"
    }
}

} // verus!
