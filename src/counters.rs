//! Records kept beside the classifier by the program that hosts it.
use vstd::prelude::*;

verus! {

/// Running count of the responses that were blocked.
#[derive(Debug, Clone)]
pub struct Query {
    pub count_block: u64,
}

impl Query {
    /// A record with nothing blocked yet.
    pub fn new() -> (r: Query)
        ensures
            r.count_block == 0,
    {
        Query { count_block: 0 }
    }
}

/// Whether responses from one source address are allowed.
#[derive(Debug)]
pub struct Connection {
    pub source_ip: u32,
    pub allowed: u32,
}

} // verus!
