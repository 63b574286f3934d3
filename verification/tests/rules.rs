use users::rules::{follow, follower_count, register, unfollow, verify};
use users::{
    Account, CreateUser, FollowError, FollowUser, NotRegistered, UnFollowUser, UnfollowError,
};

fn ann() -> Account {
    Account([10u8; 32])
}

fn ben() -> Account {
    Account([11u8; 32])
}

fn cat() -> Account {
    Account([12u8; 32])
}

#[test]
fn register_rule_gives_index_and_moves_counter() {
    let written = register(ann(), 41, false);
    assert_eq!(written.event, CreateUser { id: ann(), index: 41 });
    assert_eq!(written.next_index, 42);
    assert_eq!(written.follower_count, 0);
    assert_eq!(written.follower_list, Some(Vec::new()));
}

#[test]
fn register_rule_keeps_a_list_that_is_there() {
    let written = register(ann(), 0, true);
    assert_eq!(written.event, CreateUser { id: ann(), index: 0 });
    assert_eq!(written.next_index, 1);
    assert_eq!(written.follower_count, 0);
    assert_eq!(written.follower_list, None);
}

#[test]
fn register_rule_at_the_last_index() {
    let written = register(ben(), u32::MAX - 1, false);
    assert_eq!(written.event.index, u32::MAX - 1);
    assert_eq!(written.next_index, u32::MAX);
}

#[test]
fn verify_rule() {
    assert_eq!(verify(Some(0)), Ok(()));
    assert_eq!(verify(Some(77)), Ok(()));
    assert_eq!(verify(None), Err(NotRegistered));
}

#[test]
fn follower_count_rule() {
    assert_eq!(follower_count(Some(0)), Ok(0));
    assert_eq!(follower_count(Some(5)), Ok(5));
    assert_eq!(follower_count(None), Err(NotRegistered));
}

#[test]
fn follow_rule_appends_and_counts() {
    let list = vec![ben()];
    assert_eq!(
        follow(ann(), cat(), true, Some(&list), Some(1)),
        Ok((
            vec![ben(), ann()],
            FollowUser { follower: ann(), followed: cat(), follower_count: 2 }
        ))
    );
    assert_eq!(list, vec![ben()]);
}

#[test]
fn follow_rule_on_an_empty_list() {
    assert_eq!(
        follow(ann(), ben(), true, Some(&Vec::new()), Some(0)),
        Ok((vec![ann()], FollowUser { follower: ann(), followed: ben(), follower_count: 1 }))
    );
}

#[test]
fn follow_rule_does_not_look_for_duplicates() {
    assert_eq!(
        follow(ann(), ben(), true, Some(&vec![ann()]), Some(1)),
        Ok((
            vec![ann(), ann()],
            FollowUser { follower: ann(), followed: ben(), follower_count: 2 }
        ))
    );
}

#[test]
fn follow_rule_counts_from_the_count_not_the_list() {
    assert_eq!(
        follow(ann(), ben(), true, Some(&vec![cat(), cat()]), Some(7)),
        Ok((
            vec![cat(), cat(), ann()],
            FollowUser { follower: ann(), followed: ben(), follower_count: 8 }
        ))
    );
}

#[test]
fn follow_rule_up_to_the_largest_count() {
    assert_eq!(
        follow(ann(), ben(), true, Some(&Vec::new()), Some(u32::MAX - 1)).map(|w| w.1.follower_count),
        Ok(u32::MAX)
    );
}

#[test]
fn follow_rule_errors_in_order() {
    let list = vec![ben()];
    assert_eq!(follow(ann(), cat(), false, Some(&list), Some(1)), Err(FollowError::NotRegistered));
    assert_eq!(follow(ann(), cat(), false, None, None), Err(FollowError::NotRegistered));
    assert_eq!(follow(ann(), cat(), true, None, Some(1)), Err(FollowError::MissingFollowerList));
    assert_eq!(follow(ann(), cat(), true, None, None), Err(FollowError::MissingFollowerList));
    assert_eq!(follow(ann(), cat(), true, Some(&list), None), Err(FollowError::MissingCount));
}

#[test]
fn unfollow_rule_removes_every_occurrence() {
    let list = vec![ann(), ben(), ann(), cat(), ann()];
    assert_eq!(
        unfollow(ann(), cat(), Some(&list), Some(5)),
        Ok((
            vec![ben(), cat()],
            UnFollowUser { follower: ann(), followed: cat(), follower_count: 4 }
        ))
    );
    assert_eq!(list.len(), 5);
}

#[test]
fn unfollow_rule_keeps_the_order_of_the_others() {
    let list = vec![cat(), ann(), ben()];
    assert_eq!(
        unfollow(ann(), ben(), Some(&list), Some(3)).map(|w| w.0),
        Ok(vec![cat(), ben()])
    );
}

#[test]
fn unfollow_rule_lowers_the_count_for_a_stranger() {
    let list = vec![ben()];
    assert_eq!(
        unfollow(ann(), cat(), Some(&list), Some(1)),
        Ok((vec![ben()], UnFollowUser { follower: ann(), followed: cat(), follower_count: 0 }))
    );
}

#[test]
fn unfollow_rule_errors_in_order() {
    let list = vec![ann()];
    assert_eq!(unfollow(ann(), ben(), None, Some(1)), Err(UnfollowError::MissingFollowerList));
    assert_eq!(unfollow(ann(), ben(), None, None), Err(UnfollowError::MissingFollowerList));
    assert_eq!(unfollow(ann(), ben(), None, Some(0)), Err(UnfollowError::MissingFollowerList));
    assert_eq!(unfollow(ann(), ben(), Some(&list), None), Err(UnfollowError::MissingCount));
    assert_eq!(unfollow(ann(), ben(), Some(&list), Some(0)), Err(UnfollowError::Underflow));
    assert_eq!(unfollow(ann(), ben(), Some(&Vec::new()), Some(0)), Err(UnfollowError::Underflow));
}

#[test]
fn unfollow_rule_from_the_largest_count() {
    assert_eq!(
        unfollow(ann(), ben(), Some(&Vec::new()), Some(u32::MAX)).map(|w| w.1.follower_count),
        Ok(u32::MAX - 1)
    );
}
