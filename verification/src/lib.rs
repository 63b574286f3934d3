//! A social-graph ledger: accounts register, follow and unfollow one another, and every
//! registered account has a follower count.
//!
//! The ledger keeps three tables keyed by account: the registry with each account's
//! registration index, the follower list of each followed account, and its follower
//! count, which is kept beside the list and not computed from it.
//!
//! - [`account`], [`event`] and [`error`] hold the plain values that calls take and give.
//! - [`rules`] decides what one call does, given the entries of the accounts it concerns.
//! - [`state`] is the ledger as a mathematical value; [`laws`] proves what holds of it.
//! - [`table`] is the keyed table, and [`store`] the ledger built from three of them.
//!
//! The caller of every call is passed in; who the caller is has been settled before the
//! ledger is asked. A successful call returns the notification to publish.

pub mod account;
pub mod error;
pub mod event;
pub mod table;
pub mod rules;
pub mod state;
pub mod store;
pub mod laws;

pub use crate::account::Account;
pub use crate::error::{FollowError, NotRegistered, UnfollowError};
pub use crate::event::{CreateUser, FollowUser, UnFollowUser};
pub use crate::store::{Followers, Users};
