//! The ways in which a call on the ledger can fail.

use vstd::prelude::*;

verus! {

/// The account has no entry in the table that the call looked it up in.
#[derive(Clone, Copy, Debug, PartialEq, Eq, Structural)]
pub struct NotRegistered;

/// Why a follow was refused.
#[derive(Clone, Copy, Debug, PartialEq, Eq, Structural)]
pub enum FollowError {
    /// The caller has never registered.
    NotRegistered,
    /// The followed account has no follower list: it has never registered.
    MissingFollowerList,
    /// The followed account has a follower list but no follower count.
    MissingCount,
}

/// Why an unfollow was refused.
#[derive(Clone, Copy, Debug, PartialEq, Eq, Structural)]
pub enum UnfollowError {
    /// The followed account has no follower list: it has never registered.
    MissingFollowerList,
    /// The followed account has a follower list but no follower count.
    MissingCount,
    /// The follower count of the followed account is already zero.
    Underflow,
}

} // verus!
