//! What holds of the ledger whatever the accounts and whatever its state.

use vstd::prelude::*;
use crate::account::Account;
use crate::error::{FollowError, UnfollowError};
use crate::rules::{occurrences, without, without_and_occurrences};
use crate::state::State;

verus! {

/// The empty ledger is well formed.
pub proof fn empty_is_well_formed()
    ensures
        State::empty().well_formed(),
{
}

/// Registering keeps a ledger well formed: the new index is the old counter, which lies
/// above every index given out before.
pub proof fn register_keeps_well_formed(state: State, caller: Account)
    requires
        state.well_formed(),
    ensures
        state.register(caller).well_formed(),
{
    let next = state.register(caller);
    assert(next.lists.dom() =~= next.registry.dom());
}

/// A follow that succeeds keeps a ledger well formed.
pub proof fn follow_keeps_well_formed(state: State, caller: Account, followed: Account)
    requires
        state.well_formed(),
        state.follow(caller, followed) is Ok,
    ensures
        state.follow(caller, followed).unwrap().well_formed(),
{
    let next = state.follow(caller, followed).unwrap();
    assert(next.lists.dom() =~= next.registry.dom());
}

/// An unfollow that succeeds keeps a ledger well formed.
pub proof fn unfollow_keeps_well_formed(state: State, caller: Account, followed: Account)
    requires
        state.well_formed(),
        state.unfollow(caller, followed) is Ok,
    ensures
        state.unfollow(caller, followed).unwrap().well_formed(),
{
    let next = state.unfollow(caller, followed).unwrap();
    assert(next.lists.dom() =~= next.registry.dom());
}

/// While every account registers once, the indices are the numbers below the counter
/// with none left out: a first registration keeps them so.
pub proof fn first_registration_keeps_indices_dense(state: State, caller: Account)
    requires
        state.indices_dense(),
        !state.registered(caller),
    ensures
        state.register(caller).indices_dense(),
{
    let next = state.register(caller);
    assert forall|index: nat| index < next.next_index implies #[trigger] next.index_taken(
        index,
    ) by {
        if index == state.next_index {
            assert(next.registry.contains_key(caller) && next.registry[caller] == index);
        } else {
            assert(state.index_taken(index));
            let holder = choose|a: Account|
                state.registry.contains_key(a) && #[trigger] state.registry[a] == index;
            assert(next.registry.contains_key(holder) && next.registry[holder] == index);
        }
    }
}

/// An account that registers again leaves its old index to nobody: on a well-formed
/// ledger the indices are no longer all the numbers below the counter.
pub proof fn registering_again_leaves_a_gap(state: State, caller: Account)
    requires
        state.well_formed(),
        state.registered(caller),
    ensures
        !state.register(caller).index_taken(state.registry[caller]),
        !state.register(caller).indices_dense(),
{
    let next = state.register(caller);
    let old_index = state.registry[caller];
    if next.index_taken(old_index) {
        let holder = choose|a: Account|
            next.registry.contains_key(a) && #[trigger] next.registry[a] == old_index;
        assert(holder != caller);
        assert(state.registry[holder] == state.registry[caller]);
    }
    assert(old_index < next.next_index);
}

/// After an account has registered it is registered and its follower count is zero,
/// whatever the ledger held before.
pub proof fn registered_after_register(state: State, account: Account)
    ensures
        state.register(account).registered(account),
        state.register(account).count_of(account) == Some(0nat),
        state.register(account).list_of(account) is Some,
{
}

/// A follow that succeeds raises the follower count of the followed account by exactly
/// one and puts the follower into its follower list. The entries of every other account
/// stay as they are.
pub proof fn follow_adds_one_follower(state: State, follower: Account, followed: Account)
    requires
        state.follow(follower, followed) is Ok,
    ensures
        state.registered(follower),
        state.count_of(followed) is Some,
        state.follow(follower, followed).unwrap().count_of(followed) == Some(
            state.count_of(followed).unwrap() + 1,
        ),
        state.follow(follower, followed).unwrap().list_of(followed) is Some,
        state.follow(follower, followed).unwrap().list_of(followed).unwrap().contains(follower),
        forall|other: Account|
            other != followed ==> {
                &&& #[trigger] state.follow(follower, followed).unwrap().count_of(other)
                    == state.count_of(other)
                &&& #[trigger] state.follow(follower, followed).unwrap().list_of(other)
                    == state.list_of(other)
            },
{
    let list = state.list_of(followed).unwrap();
    assert(list.push(follower)[list.len() as int] == follower);
}

/// On a well-formed ledger, when a registered account follows a registered account and
/// then unfollows it, both calls succeed, the follower count of the followed account is
/// what it was before the follow, and the follower is no longer in its follower list.
pub proof fn unfollow_undoes_follow(state: State, follower: Account, followed: Account)
    requires
        state.well_formed(),
        state.registered(follower),
        state.registered(followed),
    ensures
        state.follow(follower, followed) is Ok,
        state.follow(follower, followed).unwrap().unfollow(follower, followed) is Ok,
        state.follow(follower, followed).unwrap().unfollow(follower, followed).unwrap().count_of(
            followed,
        ) == state.count_of(followed),
        !state.follow(follower, followed).unwrap().unfollow(
            follower,
            followed,
        ).unwrap().list_of(followed).unwrap().contains(follower),
{
    follow_refusals(state, follower, followed);
    let followed_state = state.follow(follower, followed).unwrap();
    let list = followed_state.list_of(followed).unwrap();
    let rest = without(list, follower);
    if rest.contains(follower) {
        let i = choose|i: int| 0 <= i < rest.len() && rest[i] == follower;
        list.lemma_filter_pred(|a: Account| a != follower, i);
    }
}

/// After a registration the follower count of the account is the length of its follower
/// list exactly when no follower was listed for it before: who registers again keeps the
/// list and loses the count.
pub proof fn register_matches_count_to_empty_list(state: State, account: Account)
    ensures
        state.register(account).count_matches_list(account) <==> (state.list_of(account) matches Some(
            list,
        ) ==> list.len() == 0),
{
}

/// A follow that succeeds leaves the follower count of the followed account as far
/// from the length of its follower list as it was: where the two agreed, they agree.
pub proof fn follow_keeps_count_matching(state: State, follower: Account, followed: Account)
    requires
        state.follow(follower, followed) is Ok,
    ensures
        state.follow(follower, followed).unwrap().count_matches_list(followed)
            <==> state.count_matches_list(followed),
{
}

/// Where the follower count of the followed account is the length of its follower list,
/// an unfollow that succeeds keeps it so exactly when the caller stood in the list once.
/// A caller that never followed lowers the count and not the list; one that followed
/// several times shortens the list by more than one.
pub proof fn unfollow_keeps_count_matching(state: State, caller: Account, followed: Account)
    requires
        state.unfollow(caller, followed) is Ok,
        state.count_matches_list(followed),
    ensures
        state.unfollow(caller, followed).unwrap().count_matches_list(followed) <==> occurrences(
            state.list_of(followed).unwrap(),
            caller,
        ) == 1,
{
    without_and_occurrences(state.list_of(followed).unwrap(), caller);
}

/// On a well-formed ledger a follow is refused for two reasons only: the caller has not
/// registered, or else the followed account has not. A follower count is never missed.
pub proof fn follow_refusals(state: State, caller: Account, followed: Account)
    requires
        state.well_formed(),
    ensures
        state.follow(caller, followed) is Ok <==> state.registered(caller) && state.registered(
            followed,
        ),
        state.follow(caller, followed) == Err::<State, FollowError>(FollowError::NotRegistered)
            <==> !state.registered(caller),
        state.follow(caller, followed) == Err::<State, FollowError>(
            FollowError::MissingFollowerList,
        ) <==> state.registered(caller) && !state.registered(followed),
        state.follow(caller, followed) != Err::<State, FollowError>(FollowError::MissingCount),
{
}

/// On a well-formed ledger an unfollow is refused for two reasons only: the followed
/// account has not registered, or else its follower count is zero. A follower count is
/// never missed, and whether the caller has registered plays no part.
pub proof fn unfollow_refusals(state: State, caller: Account, followed: Account)
    requires
        state.well_formed(),
    ensures
        state.unfollow(caller, followed) is Ok <==> state.registered(followed) && state.count_of(
            followed,
        ) != Some(0nat),
        state.unfollow(caller, followed) == Err::<State, UnfollowError>(
            UnfollowError::MissingFollowerList,
        ) <==> !state.registered(followed),
        state.unfollow(caller, followed) == Err::<State, UnfollowError>(UnfollowError::Underflow)
            <==> state.registered(followed) && state.count_of(followed) == Some(0nat),
        state.unfollow(caller, followed) != Err::<State, UnfollowError>(
            UnfollowError::MissingCount,
        ),
{
}

} // verus!
