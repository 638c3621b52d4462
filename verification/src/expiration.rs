//! Points in time at which a grant lapses, and the block they are held
//! against.

use vstd::prelude::*;

verus! {

/// The height and time of the block in which a call runs.
#[derive(Clone, Copy, Debug, PartialEq, Eq)]
pub struct BlockInfo {
    pub height: u64,
    /// Nanoseconds since the epoch.
    pub time: u64,
}

/// The point at which a grant lapses.
#[derive(Clone, Copy, Debug, PartialEq, Eq)]
pub enum Expiration {
    /// Lapses once the block height has reached this height.
    AtHeight(u64),
    /// Lapses once the block time has reached this time, in nanoseconds
    /// since the epoch.
    AtTime(u64),
    /// Never lapses.
    Never,
}

impl Expiration {
    /// Whether this point has been reached at `block`.
    pub open spec fn elapsed_at(self, block: BlockInfo) -> bool {
        match self {
            Expiration::AtHeight(height) => block.height >= height,
            Expiration::AtTime(time) => block.time >= time,
            Expiration::Never => false,
        }
    }

    /// Calls `cw_utils::Expiration::is_expired` on the same point and a block
    /// of the same height and time. Trusted: the result is that the block's
    /// height has reached an `AtHeight`, that its time has reached an
    /// `AtTime`, and `false` for `Never`.
    #[verifier::external_body]
    pub(crate) fn is_expired(&self, block: &BlockInfo) -> (expired: bool)
        ensures
            expired == self.elapsed_at(*block),
    {
        let point = match *self {
            Expiration::AtHeight(height) => cw_utils::Expiration::AtHeight(height),
            Expiration::AtTime(time) => cw_utils::Expiration::AtTime(
                cosmwasm_std::Timestamp::from_nanos(time),
            ),
            Expiration::Never => cw_utils::Expiration::Never {},
        };
        let time = cosmwasm_std::Timestamp::from_nanos(block.time);
        point.is_expired(&cosmwasm_std::BlockInfo { height: block.height, time, chain_id: String::new() })
    }
}

} // verus!
