//! The store: the three tables of the ledger and the calls on them.

use vstd::prelude::*;
use crate::account::Account;
use crate::error::{FollowError, NotRegistered, UnfollowError};
use crate::event::{CreateUser, FollowUser, UnFollowUser};
use crate::laws::{
    empty_is_well_formed, follow_keeps_well_formed, register_keeps_well_formed,
    unfollow_keeps_well_formed,
};
use crate::rules;
use crate::rules::{count_value, list_value};
use crate::state::State;
use crate::table::Table;

verus! {

fn copied(entry: Option<&u32>) -> (value: Option<u32>)
    ensures
        match entry {
            Some(n) => value == Some(*n),
            None => value is None,
        },
{
    match entry {
        Some(n) => Some(*n),
        None => None,
    }
}

/// The followers of every account: who follows it, and how many the ledger counts.
///
/// The count is kept beside the list and is not computed from it.
pub struct Followers {
    list: Table<Vec<Account>>,
    length: Table<u32>,
}

impl Followers {
    /// The follower list of every account that has one.
    pub closed spec fn lists(&self) -> Map<Account, Seq<Account>> {
        self.list@.map_values(|l: Vec<Account>| l@)
    }

    /// The follower count of every account that has one.
    pub closed spec fn counts(&self) -> Map<Account, nat> {
        self.length@.map_values(|n: u32| n as nat)
    }

    /// No account has a follower list or a follower count.
    pub fn new() -> (followers: Followers)
        ensures
            followers.lists() == Map::<Account, Seq<Account>>::empty(),
            followers.counts() == Map::<Account, nat>::empty(),
    {
        let followers = Followers { list: Table::new(), length: Table::new() };
        followers
    }

    /// The follower list of `id`, where it has one.
    pub fn list_of(&self, id: Account) -> (list: Option<&Vec<Account>>)
        ensures
            list_value(list) == if self.lists().contains_key(id) {
                Some(self.lists()[id])
            } else {
                None
            },
    {
        self.list.get(&id)
    }

    /// The follower count of `id`, where it has one.
    pub fn count_of(&self, id: Account) -> (count: Option<u32>)
        ensures
            count_value(count) == if self.counts().contains_key(id) {
                Some(self.counts()[id])
            } else {
                None
            },
    {
        copied(self.length.get(&id))
    }

    /// Stores `list` as the follower list of `id`; the counts stay as they are.
    pub fn set_list(&mut self, id: Account, list: Vec<Account>)
        ensures
            final(self).lists() == old(self).lists().insert(id, list@),
            final(self).counts() == old(self).counts(),
    {
        self.list.insert(id, list);
    }

    /// Stores `count` as the follower count of `id`; the lists stay as they are.
    pub fn set_count(&mut self, id: Account, count: u32)
        ensures
            final(self).counts() == old(self).counts().insert(id, count as nat),
            final(self).lists() == old(self).lists(),
    {
        self.length.insert(id, count);
    }
}

/// The ledger: who has registered, under which index, and who follows whom.
pub struct Users {
    users: Table<u32>,
    user_count: u32,
    followers: Followers,
}

impl View for Users {
    type V = State;

    closed spec fn view(&self) -> State {
        State {
            registry: self.users@.map_values(|n: u32| n as nat),
            next_index: self.user_count as nat,
            lists: self.followers.lists(),
            counts: self.followers.counts(),
        }
    }
}

impl Users {
    /// The ledger on which nobody has registered.
    pub fn new() -> (users: Users)
        ensures
            users@ == State::empty(),
            users@.well_formed(),
    {
        let users = Users { users: Table::new(), user_count: 0, followers: Followers::new() };
        assert(users@.registry =~= Map::<Account, nat>::empty());
        proof {
            empty_is_well_formed();
        }
        users
    }

    /// The number of registrations so far.
    pub fn user_count(&self) -> (count: u32)
        ensures
            count == self@.next_index,
    {
        self.user_count
    }

    /// The follower lists and follower counts of the ledger.
    pub fn followers(&self) -> (followers: &Followers)
        ensures
            followers.lists() == self@.lists,
            followers.counts() == self@.counts,
    {
        &self.followers
    }

    /// The registration index of `id`, where it is registered.
    pub fn index_of(&self, id: Account) -> (index: Option<u32>)
        ensures
            match index {
                Some(i) => self@.registered(id) && i == self@.registry[id],
                None => !self@.registered(id),
            },
    {
        copied(self.users.get(&id))
    }

    /// Checks that `id` is registered. Nothing is changed.
    pub fn verify_user(&self, id: Account) -> (checked: Result<(), NotRegistered>)
        ensures
            checked == if self@.registered(id) {
                Ok::<(), NotRegistered>(())
            } else {
                Err::<(), NotRegistered>(NotRegistered)
            },
    {
        rules::verify(self.index_of(id))
    }

    /// Registers `caller` and returns the notification of it: the account and its index.
    ///
    /// Registering is never refused. An account that registers again gets a new index,
    /// and its follower count starts again at zero while its follower list stays. The
    /// counter cannot pass the largest index, so the ledger must have room for one more
    /// registration.
    pub fn create_user(&mut self, caller: Account) -> (event: CreateUser)
        requires
            old(self)@.next_index < u32::MAX,
        ensures
            final(self)@ == old(self)@.register(caller),
            event.id == caller,
            event.index == old(self)@.next_index,
            old(self)@.well_formed() ==> final(self)@.well_formed(),
    {
        proof {
            if old(self)@.well_formed() {
                register_keeps_well_formed(old(self)@, caller);
            }
        }
        let has_list = self.followers.list_of(caller).is_some();
        let written = rules::register(caller, self.user_count, has_list);
        self.users.insert(caller, written.event.index);
        self.followers.set_count(caller, written.follower_count);
        match written.follower_list {
            Some(list) => {
                self.followers.set_list(caller, list);
            },
            None => {},
        }
        self.user_count = written.next_index;
        assert(self@.registry =~= old(self)@.register(caller).registry);
        written.event
    }

    /// Lets `caller` follow `id` and returns the notification of it, which holds the new
    /// follower count of `id`.
    ///
    /// A refused call changes nothing. A follower count cannot pass the largest count, so
    /// where the call is not refused the count of `id` must have room for one more.
    pub fn follow_user(&mut self, caller: Account, id: Account) -> (result: Result<
        FollowUser,
        FollowError,
    >)
        requires
            old(self)@.follow(caller, id) is Ok ==> old(self)@.counts[id] < u32::MAX,
        ensures
            match old(self)@.follow(caller, id) {
                Ok(next) => {
                    &&& final(self)@ == next
                    &&& result matches Ok(event)
                    &&& event.follower == caller
                    &&& event.followed == id
                    &&& event.follower_count == next.counts[id]
                },
                Err(error) => {
                    &&& final(self)@ == old(self)@
                    &&& result == Err::<FollowUser, FollowError>(error)
                },
            },
            old(self)@.well_formed() ==> final(self)@.well_formed(),
    {
        proof {
            if old(self)@.well_formed() && old(self)@.follow(caller, id) is Ok {
                follow_keeps_well_formed(old(self)@, caller, id);
            }
        }
        let registered = self.index_of(caller).is_some();
        let outcome = rules::follow(
            caller,
            id,
            registered,
            self.followers.list_of(id),
            self.followers.count_of(id),
        );
        match outcome {
            Ok((list, event)) => {
                self.followers.set_list(id, list);
                self.followers.set_count(id, event.follower_count);
                Ok(event)
            },
            Err(error) => Err(error),
        }
    }

    /// Lets `caller` stop following `id` and returns the notification of it, which holds
    /// the new follower count of `id`.
    ///
    /// A refused call changes nothing.
    pub fn unfollow_user(&mut self, caller: Account, id: Account) -> (result: Result<
        UnFollowUser,
        UnfollowError,
    >)
        ensures
            match old(self)@.unfollow(caller, id) {
                Ok(next) => {
                    &&& final(self)@ == next
                    &&& result matches Ok(event)
                    &&& event.follower == caller
                    &&& event.followed == id
                    &&& event.follower_count == next.counts[id]
                },
                Err(error) => {
                    &&& final(self)@ == old(self)@
                    &&& result == Err::<UnFollowUser, UnfollowError>(error)
                },
            },
            old(self)@.well_formed() ==> final(self)@.well_formed(),
    {
        proof {
            if old(self)@.well_formed() && old(self)@.unfollow(caller, id) is Ok {
                unfollow_keeps_well_formed(old(self)@, caller, id);
            }
        }
        let outcome = rules::unfollow(
            caller,
            id,
            self.followers.list_of(id),
            self.followers.count_of(id),
        );
        match outcome {
            Ok((list, event)) => {
                self.followers.set_list(id, list);
                self.followers.set_count(id, event.follower_count);
                Ok(event)
            },
            Err(error) => Err(error),
        }
    }

    /// The follower count of `id`, or `NotRegistered` where it has none. Nothing is
    /// changed.
    pub fn get_followers(&self, id: Account) -> (count: Result<u32, NotRegistered>)
        ensures
            match self@.count_of(id) {
                Some(n) => count matches Ok(c) && c == n,
                None => count == Err::<u32, NotRegistered>(NotRegistered),
            },
    {
        rules::follower_count(self.followers.count_of(id))
    }
}

} // verus!
