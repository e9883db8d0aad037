//! The persisted option record and its invariant.

use crate::funds::clone_coins;
use crate::funds::wf_funds;
use crate::funds::Coin;
use vstd::prelude::*;

verus! {

/// The singleton record an instance persists while the option is live.
///
/// `creator`, `collateral`, `counter_offer` and `expires` are fixed at
/// creation; only `owner` may change, by ownership transfer. Absence of the
/// record means the option was settled or never created.
#[derive(Clone, Debug, PartialEq, Eq)]
pub struct State {
    pub creator: String,
    pub owner: String,
    pub collateral: Vec<Coin>,
    pub counter_offer: Vec<Coin>,
    pub expires: u64,
}

impl State {
    /// Record invariant: both funds lists map denominations uniquely to
    /// positive amounts.
    pub open spec fn wf(self) -> bool {
        wf_funds(self.collateral@) && wf_funds(self.counter_offer@)
    }

    /// The two records agree field by field, funds and names compared by
    /// value.
    pub open spec fn same_config(self, other: State) -> bool {
        &&& self.creator@ == other.creator@
        &&& self.owner@ == other.owner@
        &&& self.collateral@ == other.collateral@
        &&& self.counter_offer@ == other.counter_offer@
        &&& self.expires == other.expires
    }
}

/// The storage slot invariant: whatever record is present is well formed.
pub open spec fn wf_record(r: Option<State>) -> bool {
    r matches Some(st) ==> st.wf()
}

/// Copies the record, for read-only queries.
pub fn clone_state(st: &State) -> (r: State)
    ensures
        r.same_config(*st),
{
    State {
        creator: st.creator.clone(),
        owner: st.owner.clone(),
        collateral: clone_coins(&st.collateral),
        counter_offer: clone_coins(&st.counter_offer),
        expires: st.expires,
    }
}

} // verus!
