use vstd::prelude::*;

verus! {

/// The operation kind that a request represents; fixed at entry and used as
/// the join key of the request's trace.
#[derive(Clone, Copy, Debug, PartialEq, Eq, Structural)]
pub enum FlowTag {
    PayoutsCreate,
    PayoutsRetrieve,
    PayoutsUpdate,
    PayoutsReverse,
    PayoutsCancel,
    PayoutsAccounts,
}

} // verus!
