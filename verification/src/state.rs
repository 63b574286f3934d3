//! The ledger as a mathematical value, and what each call makes of it.

use vstd::prelude::*;
use crate::account::Account;
use crate::error::{FollowError, UnfollowError};
use crate::rules::{follow_outcome, unfollow_outcome};

verus! {

/// The three tables of the ledger and its registration counter.
#[verifier::ext_equal]
pub struct State {
    /// The registration index of every registered account.
    pub registry: Map<Account, nat>,
    /// The number of registrations so far, which is the index of the next one.
    pub next_index: nat,
    /// The followers of every account that has a follower list, in the order in which
    /// they followed. A follower stands in it once for each of its follows.
    pub lists: Map<Account, Seq<Account>>,
    /// The follower count of every account that has one.
    pub counts: Map<Account, nat>,
}

impl State {
    /// The ledger on which nobody has registered.
    pub open spec fn empty() -> State {
        State { registry: Map::empty(), next_index: 0, lists: Map::empty(), counts: Map::empty() }
    }

    /// Whether `account` has registered.
    pub open spec fn registered(self, account: Account) -> bool {
        self.registry.contains_key(account)
    }

    /// The follower list of `account`, where it has one.
    pub open spec fn list_of(self, account: Account) -> Option<Seq<Account>> {
        if self.lists.contains_key(account) {
            Some(self.lists[account])
        } else {
            None
        }
    }

    /// The follower count of `account`, where it has one.
    pub open spec fn count_of(self, account: Account) -> Option<nat> {
        if self.counts.contains_key(account) {
            Some(self.counts[account])
        } else {
            None
        }
    }

    /// Whether some registered account has the index `index`.
    pub open spec fn index_taken(self, index: nat) -> bool {
        exists|a: Account| self.registry.contains_key(a) && #[trigger] self.registry[a] == index
    }

    /// Whether the indices of the registered accounts are all the numbers below the
    /// counter, none left out.
    pub open spec fn indices_dense(self) -> bool {
        forall|index: nat| index < self.next_index ==> #[trigger] self.index_taken(index)
    }

    /// Whether `account` has a follower list and a follower count and the count is the
    /// length of the list.
    pub open spec fn count_matches_list(self, account: Account) -> bool {
        match (self.list_of(account), self.count_of(account)) {
            (Some(list), Some(count)) => count == list.len(),
            _ => false,
        }
    }

    /// The ledger after `caller` has registered.
    ///
    /// The caller's index is the number of registrations before this one and its
    /// follower count is zero, also where it was registered already. It gets an empty
    /// follower list unless it has a list.
    pub open spec fn register(self, caller: Account) -> State {
        State {
            registry: self.registry.insert(caller, self.next_index),
            next_index: self.next_index + 1,
            lists: if self.lists.contains_key(caller) {
                self.lists
            } else {
                self.lists.insert(caller, Seq::empty())
            },
            counts: self.counts.insert(caller, 0),
        }
    }

    /// The ledger after `caller` has followed `followed`, or why it cannot.
    pub open spec fn follow(self, caller: Account, followed: Account) -> Result<
        State,
        FollowError,
    > {
        match follow_outcome(
            self.registered(caller),
            self.list_of(followed),
            self.count_of(followed),
            caller,
        ) {
            Ok((list, count)) => Ok(
                State {
                    lists: self.lists.insert(followed, list),
                    counts: self.counts.insert(followed, count),
                    ..self
                },
            ),
            Err(error) => Err(error),
        }
    }

    /// The ledger after `caller` has stopped following `followed`, or why it cannot.
    pub open spec fn unfollow(self, caller: Account, followed: Account) -> Result<
        State,
        UnfollowError,
    > {
        match unfollow_outcome(self.list_of(followed), self.count_of(followed), caller) {
            Ok((list, count)) => Ok(
                State {
                    lists: self.lists.insert(followed, list),
                    counts: self.counts.insert(followed, count),
                    ..self
                },
            ),
            Err(error) => Err(error),
        }
    }

    /// What holds of every ledger that registrations, follows and unfollows have made
    /// from the empty one: exactly the registered accounts have a follower list and a
    /// follower count, every index lies below the counter, and no two accounts share
    /// an index.
    pub open spec fn well_formed(self) -> bool {
        &&& self.lists.dom() == self.registry.dom()
        &&& self.counts.dom() == self.registry.dom()
        &&& forall|a: Account| #[trigger]
            self.registry.contains_key(a) ==> self.registry[a] < self.next_index
        &&& forall|a: Account, b: Account|
            #![trigger self.registry[a], self.registry[b]]
            self.registry.contains_key(a) && self.registry.contains_key(b) && a != b
                ==> self.registry[a] != self.registry[b]
    }
}

} // verus!
