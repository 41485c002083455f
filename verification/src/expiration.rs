//! When a grant or an offer has lapsed.

use vstd::prelude::*;
use crate::state::{Approval, BlockInfo, Expiration};

verus! {

impl Expiration {
    /// Whether the expiration has been reached at the given height and time.
    /// Reaching the mark is enough: a grant that lasts to height 10 has lapsed
    /// in block 10.
    pub open spec fn lapsed(self, height: u64, time: u64) -> bool {
        match self {
            Expiration::AtHeight(h) => height >= h,
            Expiration::AtTime(t) => time >= t,
            Expiration::Never => false,
        }
    }

    /// Whether the expiration has been reached in `block`.
    pub fn is_expired(&self, block: &BlockInfo) -> (r: bool)
        ensures
            r == self.lapsed(block.height, block.time),
    {
        expired_in_block(*self, block.height, block.time)
    }
}

impl Approval {
    /// Whether the approval has lapsed in `block`.
    pub fn is_expired(&self, block: &BlockInfo) -> (r: bool)
        ensures
            r == self.expires.lapsed(block.height, block.time),
    {
        self.expires.is_expired(block)
    }
}

/// Calls `cw_utils::Expiration::is_expired` on the expiration and on a block of
/// the given height and time. The contract states what that function computes:
/// a height or a time is compared with `>=` against the block's, and `Never`
/// has never expired.
#[verifier::external_body]
fn expired_in_block(expiration: Expiration, height: u64, time: u64) -> (r: bool)
    ensures
        r == expiration.lapsed(height, time),
{
    let block = cosmwasm_std::BlockInfo {
        height,
        time: cosmwasm_std::Timestamp::from_nanos(time),
        chain_id: String::new(),
    };
    let outside = match expiration {
        Expiration::AtHeight(h) => cw_utils::Expiration::AtHeight(h),
        Expiration::AtTime(t) => cw_utils::Expiration::AtTime(cosmwasm_std::Timestamp::from_nanos(t)),
        Expiration::Never => cw_utils::Expiration::Never {},
    };
    outside.is_expired(&block)
}

} // verus!
