//! The rules of the ledger, one call at a time.
//!
//! Each function here takes what the tables hold for the accounts of one call and
//! decides what the call writes back and which notification it publishes. Nothing
//! here owns a table: a store applies these rules to its own tables, and so can any
//! other keeper of the three tables.

use vstd::prelude::*;
use crate::account::Account;
use crate::error::{FollowError, NotRegistered, UnfollowError};
use crate::event::{CreateUser, FollowUser, UnFollowUser};

verus! {

/// `list` without any occurrence of `who`; the others keep their order.
pub open spec fn without(list: Seq<Account>, who: Account) -> Seq<Account> {
    list.filter(|a: Account| a != who)
}

/// How often `who` stands in `list`.
pub open spec fn occurrences(list: Seq<Account>, who: Account) -> nat {
    list.filter(|a: Account| a == who).len()
}

/// Every place of a list is either one of `who` or one that stays when `who` leaves.
pub proof fn without_and_occurrences(list: Seq<Account>, who: Account)
    ensures
        without(list, who).len() + occurrences(list, who) == list.len(),
    decreases list.len(),
{
    reveal(Seq::filter);
    if list.len() > 0 {
        without_and_occurrences(list.drop_last(), who);
    }
}

/// A follower count as a number, where there is one.
pub open spec fn count_value(count: Option<u32>) -> Option<nat> {
    match count {
        Some(c) => Some(c as nat),
        None => None,
    }
}

/// A follower list as a sequence, where there is one.
pub open spec fn list_value(list: Option<&Vec<Account>>) -> Option<Seq<Account>> {
    match list {
        Some(l) => Some(l@),
        None => None,
    }
}

/// What a follow does to the follower list and the follower count of the followed
/// account: the caller is appended to the list, also where it is in it already, and
/// the count grows by one. The caller must be registered, and the followed account must
/// have both a list and a count; the checks are made in this order.
pub open spec fn follow_outcome(
    registered: bool,
    list: Option<Seq<Account>>,
    count: Option<nat>,
    caller: Account,
) -> Result<(Seq<Account>, nat), FollowError> {
    if !registered {
        Err(FollowError::NotRegistered)
    } else {
        match (list, count) {
            (None, _) => Err(FollowError::MissingFollowerList),
            (Some(_), None) => Err(FollowError::MissingCount),
            (Some(l), Some(c)) => Ok((l.push(caller), c + 1)),
        }
    }
}

/// What an unfollow does to the follower list and the follower count of the followed
/// account: every occurrence of the caller leaves the list, and the count shrinks by
/// one, however many occurrences there were. The followed account must have a list and a
/// count, and the count must not be zero; the checks are made in this order. Whether the
/// caller is registered is not asked.
pub open spec fn unfollow_outcome(
    list: Option<Seq<Account>>,
    count: Option<nat>,
    caller: Account,
) -> Result<(Seq<Account>, nat), UnfollowError> {
    match (list, count) {
        (None, _) => Err(UnfollowError::MissingFollowerList),
        (Some(_), None) => Err(UnfollowError::MissingCount),
        (Some(l), Some(c)) => if c == 0 {
            Err(UnfollowError::Underflow)
        } else {
            Ok((without(l, caller), (c - 1) as nat))
        },
    }
}

/// What one registration writes to the tables and publishes.
#[derive(Debug, PartialEq, Eq)]
pub struct RegistrationOutcome {
    /// The notification to publish; its index is the caller's registry entry.
    pub event: CreateUser,
    /// The registration counter after the call.
    pub next_index: u32,
    /// The caller's follower count after the call.
    pub follower_count: u32,
    /// The follower list to store for the caller, where it had none.
    pub follower_list: Option<Vec<Account>>,
}

/// Registers `caller` as registration number `next_index`.
///
/// The caller gets the index `next_index` and the follower count zero, whether or not it
/// was registered before; the counter moves on by one. A caller without a follower list
/// gets an empty one; a list that is there stays as it is. The counter must not be the
/// largest index already.
pub fn register(caller: Account, next_index: u32, has_list: bool) -> (written: RegistrationOutcome)
    requires
        next_index < u32::MAX,
    ensures
        written.event == (CreateUser { id: caller, index: next_index }),
        written.next_index == next_index + 1,
        written.follower_count == 0,
        match written.follower_list {
            Some(list) => !has_list && list@ == Seq::<Account>::empty(),
            None => has_list,
        },
{
    RegistrationOutcome {
        event: CreateUser { id: caller, index: next_index },
        next_index: next_index + 1,
        follower_count: 0,
        follower_list: if has_list {
            None
        } else {
            Some(Vec::new())
        },
    }
}

/// Checks a registry entry: an account is registered exactly when it has one.
pub fn verify(entry: Option<u32>) -> (checked: Result<(), NotRegistered>)
    ensures
        checked == if entry is Some {
            Ok::<(), NotRegistered>(())
        } else {
            Err::<(), NotRegistered>(NotRegistered)
        },
{
    match entry {
        Some(_) => Ok(()),
        None => Err(NotRegistered),
    }
}

/// Reads a follower count entry: the count, or `NotRegistered` where there is none.
pub fn follower_count(entry: Option<u32>) -> (count: Result<u32, NotRegistered>)
    ensures
        match entry {
            Some(c) => count == Ok::<u32, NotRegistered>(c),
            None => count == Err::<u32, NotRegistered>(NotRegistered),
        },
{
    match entry {
        Some(c) => Ok(c),
        None => Err(NotRegistered),
    }
}

fn appended(list: &Vec<Account>, who: Account) -> (longer: Vec<Account>)
    ensures
        longer@ == list@.push(who),
{
    let mut longer: Vec<Account> = Vec::new();
    let mut i: usize = 0;
    while i < list.len()
        invariant
            i <= list.len(),
            longer@ == list@.take(i as int),
        decreases list.len() - i,
    {
        longer.push(list[i]);
        i += 1;
    }
    longer.push(who);
    longer
}

fn removed(list: &Vec<Account>, who: Account) -> (rest: Vec<Account>)
    ensures
        rest@ == without(list@, who),
{
    let mut rest: Vec<Account> = Vec::new();
    let mut i: usize = 0;
    while i < list.len()
        invariant
            i <= list.len(),
            rest@ == without(list@.take(i as int), who),
        decreases list.len() - i,
    {
        proof {
            reveal(Seq::filter);
            assert(list@.take(i + 1).drop_last() == list@.take(i as int));
        }
        if list[i] != who {
            rest.push(list[i]);
        }
        i += 1;
    }
    assert(list@.take(list.len() as int) == list@);
    rest
}

/// Lets `caller` follow `followed`, given whether the caller is registered and the
/// follower list and follower count that the tables hold for `followed`.
///
/// On success the result is the list and, in the notification, the count to store for
/// `followed`. On failure nothing is to be written. A count that is to grow must not be
/// the largest count already.
pub fn follow(
    caller: Account,
    followed: Account,
    registered: bool,
    list: Option<&Vec<Account>>,
    count: Option<u32>,
) -> (result: Result<(Vec<Account>, FollowUser), FollowError>)
    requires
        registered && list is Some ==> count != Some(u32::MAX),
    ensures
        match follow_outcome(registered, list_value(list), count_value(count), caller) {
            Ok((new_list, new_count)) => {
                &&& result matches Ok((stored, event))
                &&& stored@ == new_list
                &&& event.follower == caller
                &&& event.followed == followed
                &&& event.follower_count == new_count
            },
            Err(error) => result == Err::<(Vec<Account>, FollowUser), FollowError>(error),
        },
{
    if !registered {
        return Err(FollowError::NotRegistered);
    }
    match list {
        None => Err(FollowError::MissingFollowerList),
        Some(l) => match count {
            None => Err(FollowError::MissingCount),
            Some(c) => Ok(
                (appended(l, caller), FollowUser { follower: caller, followed, follower_count: c + 1 }),
            ),
        },
    }
}

/// Lets `caller` stop following `followed`, given the follower list and follower count
/// that the tables hold for `followed`.
///
/// On success the result is the list and, in the notification, the count to store for
/// `followed`. On failure nothing is to be written.
pub fn unfollow(
    caller: Account,
    followed: Account,
    list: Option<&Vec<Account>>,
    count: Option<u32>,
) -> (result: Result<(Vec<Account>, UnFollowUser), UnfollowError>)
    ensures
        match unfollow_outcome(list_value(list), count_value(count), caller) {
            Ok((new_list, new_count)) => {
                &&& result matches Ok((stored, event))
                &&& stored@ == new_list
                &&& event.follower == caller
                &&& event.followed == followed
                &&& event.follower_count == new_count
            },
            Err(error) => result == Err::<(Vec<Account>, UnFollowUser), UnfollowError>(error),
        },
{
    match list {
        None => Err(UnfollowError::MissingFollowerList),
        Some(l) => match count {
            None => Err(UnfollowError::MissingCount),
            Some(c) => if c == 0 {
                Err(UnfollowError::Underflow)
            } else {
                Ok(
                    (
                        removed(l, caller),
                        UnFollowUser { follower: caller, followed, follower_count: c - 1 },
                    ),
                )
            },
        },
    }
}

} // verus!
