use users::table::Table;
use users::{Account, Followers};

fn key(n: u8) -> Account {
    Account([n; 32])
}

#[test]
fn empty_table_has_no_entry() {
    let table: Table<u32> = Table::new();
    assert_eq!(table.get(&key(0)), None);
    assert_eq!(table.get(&key(1)), None);
}

#[test]
fn insert_then_get() {
    let mut table: Table<u32> = Table::new();
    table.insert(key(1), 10);
    table.insert(key(2), 20);
    assert_eq!(table.get(&key(1)), Some(&10));
    assert_eq!(table.get(&key(2)), Some(&20));
    assert_eq!(table.get(&key(3)), None);
}

#[test]
fn insert_replaces_the_value_of_a_key() {
    let mut table: Table<u32> = Table::new();
    table.insert(key(1), 10);
    table.insert(key(2), 20);
    table.insert(key(1), 11);
    assert_eq!(table.get(&key(1)), Some(&11));
    assert_eq!(table.get(&key(2)), Some(&20));
    table.insert(key(2), 22);
    table.insert(key(3), 30);
    assert_eq!(table.get(&key(1)), Some(&11));
    assert_eq!(table.get(&key(2)), Some(&22));
    assert_eq!(table.get(&key(3)), Some(&30));
}

#[test]
fn table_of_lists() {
    let mut table: Table<Vec<Account>> = Table::new();
    table.insert(key(1), vec![key(2), key(3)]);
    assert_eq!(table.get(&key(1)), Some(&vec![key(2), key(3)]));
    table.insert(key(1), Vec::new());
    assert_eq!(table.get(&key(1)), Some(&Vec::new()));
}

#[test]
fn followers_keep_lists_and_counts_apart() {
    let mut followers = Followers::new();
    assert!(followers.list_of(key(1)).is_none());
    assert_eq!(followers.count_of(key(1)), None);
    followers.set_count(key(1), 4);
    assert!(followers.list_of(key(1)).is_none());
    assert_eq!(followers.count_of(key(1)), Some(4));
    followers.set_list(key(2), vec![key(1)]);
    assert_eq!(followers.list_of(key(2)), Some(&vec![key(1)]));
    assert_eq!(followers.count_of(key(2)), None);
    followers.set_list(key(1), vec![key(2), key(2)]);
    assert_eq!(followers.list_of(key(1)), Some(&vec![key(2), key(2)]));
    assert_eq!(followers.count_of(key(1)), Some(4));
    followers.set_count(key(1), 0);
    assert_eq!(followers.count_of(key(1)), Some(0));
    assert_eq!(followers.list_of(key(1)), Some(&vec![key(2), key(2)]));
}
