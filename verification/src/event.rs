//! The notifications that successful calls hand back for publication.

use vstd::prelude::*;
use crate::account::Account;

verus! {

/// An account has registered.
#[derive(Clone, Copy, Debug, PartialEq, Eq)]
pub struct CreateUser {
    /// The account that registered.
    pub id: Account,
    /// Its registration index: how many registrations came before this one.
    pub index: u32,
}

/// An account has followed another.
#[derive(Clone, Copy, Debug, PartialEq, Eq)]
pub struct FollowUser {
    /// The account that follows.
    pub follower: Account,
    /// The account that is followed.
    pub followed: Account,
    /// The follower count of `followed` after the call.
    pub follower_count: u32,
}

/// An account has stopped following another.
#[derive(Clone, Copy, Debug, PartialEq, Eq)]
pub struct UnFollowUser {
    /// The account that no longer follows.
    pub follower: Account,
    /// The account that was followed.
    pub followed: Account,
    /// The follower count of `followed` after the call.
    pub follower_count: u32,
}

} // verus!
