use vstd::prelude::*;

verus! {

/// The block at which an operation runs: its height and its time in seconds.
#[derive(Clone, Copy, Debug, PartialEq, Eq)]
pub struct BlockInfo {
    pub height: u64,
    pub time: u64,
}

/// The escrow record, fixed when the escrow is created.
#[derive(Clone, Debug, PartialEq, Eq)]
pub struct State {
    /// May release the funds to `recipient` before expiry.
    pub arbiter: String,
    /// Receives the funds on approval.
    pub recipient: String,
    /// Funded the escrow; receives the funds on refund.
    pub source: String,
    /// The escrow expires at this height, if set.
    pub end_height: Option<u64>,
    /// The escrow expires at this time in seconds, if set.
    pub end_time: Option<u64>,
}

/// The expiry condition: reached once either bound that is set is reached.
pub open spec fn expired_at(end_height: Option<u64>, end_time: Option<u64>, block: BlockInfo) -> bool {
    ||| (end_height matches Some(h) && block.height >= h)
    ||| (end_time matches Some(t) && block.time >= t)
}

impl State {
    pub open spec fn expired(&self, block: BlockInfo) -> bool {
        expired_at(self.end_height, self.end_time, block)
    }

    /// Whether the escrow has expired at `block`.
    pub fn is_expired(&self, block: &BlockInfo) -> (r: bool)
        ensures
            r == self.expired(*block),
    {
        let by_height = match self.end_height {
            Some(h) => block.height >= h,
            None => false,
        };
        let by_time = match self.end_time {
            Some(t) => block.time >= t,
            None => false,
        };
        by_height || by_time
    }
}

/// Who may trigger a refund once the escrow has expired.
#[derive(Clone, Copy, Debug, PartialEq, Eq)]
pub enum RefundCaller {
    /// Only the arbiter.
    ArbiterOnly,
    /// Any caller: the refund is a fallback that needs no one's decision.
    Anyone,
}

impl State {
    /// Whether `sender` may refund under `policy`.
    pub open spec fn may_refund(&self, policy: RefundCaller, sender: Seq<char>) -> bool {
        policy is Anyone || sender == self.arbiter@
    }
}

/// Whether `actual` is the identity that an action requires.
pub fn is_caller(expected: &String, actual: &String) -> (r: bool)
    ensures
        r == (expected@ == actual@),
{
    expected.eq(actual)
}

} // verus!
