use vstd::prelude::*;

verus! {

/// The identifier allocator: hands out increasing values to the nodes that
/// need an identity of their own. It is passed down by `&mut` and is not
/// rolled back when a parse backtracks.
#[derive(Debug, PartialEq, Eq, Structural)]
pub struct IdGen {
    pub uuid: u64,
}

impl IdGen {
    pub fn new() -> (r: IdGen)
        ensures
            r.uuid == 0,
    {
        IdGen { uuid: 0 }
    }

    /// Draws the next identifier: one above every value drawn before.
    pub fn next(&mut self) -> (r: u64)
        requires
            old(self).uuid < u64::MAX,
        ensures
            final(self).uuid == old(self).uuid + 1,
            r == final(self).uuid,
    {
        self.uuid = self.uuid + 1;
        self.uuid
    }
}

} // verus!
