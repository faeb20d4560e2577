use parsql_tutorials::table::{TableError, UserTable};
use parsql_tutorials::user::{
    DeleteUser, GetActiveUsers, GetUser, InsertUser, UpdateUser, UpdateUserState,
};

fn new_user(name: &str, email: &str, state: i16) -> InsertUser {
    InsertUser { name: name.to_string(), email: email.to_string(), state }
}

#[test]
fn insert_then_get_ali() {
    let mut t = UserTable::new();
    let (count, id) = t.insert(&new_user("Ali", "ali@veli", 0)).unwrap();
    assert_eq!(count, 1);
    let u = t.get(&GetUser::new(id)).unwrap();
    assert_eq!(u.id, id);
    assert_eq!(u.name, "Ali");
    assert_eq!(u.email, "ali@veli");
    assert_eq!(u.state, 0);
}

#[test]
fn inserts_get_distinct_ids() {
    let mut t = UserTable::new();
    let (_, a) = t.insert(&new_user("A", "a@x", 0)).unwrap();
    let (_, b) = t.insert(&new_user("B", "b@x", 1)).unwrap();
    assert_ne!(a, b);
    assert_eq!(t.get(&GetUser::new(a)).unwrap().name, "A");
    let got_b = t.get(&GetUser::new(b)).unwrap();
    assert_eq!(got_b.name, "B");
    assert_eq!(got_b.state, 1);
}

#[test]
fn state_update_keeps_name_and_email() {
    let mut t = UserTable::new();
    let (_, id) = t.insert(&new_user("Ali", "ali@veli", 0)).unwrap();
    let (_, other) = t.insert(&new_user("Ayse", "ayse@x", 0)).unwrap();
    assert!(t.update_state(&UpdateUserState::disabled(id)));
    let u = t.get(&GetUser::new(id)).unwrap();
    assert_eq!(u.name, "Ali");
    assert_eq!(u.email, "ali@veli");
    assert_eq!(u.state, 1);
    let o = t.get(&GetUser::new(other)).unwrap();
    assert_eq!(o.state, 0);
    assert!(t.update_state(&UpdateUserState::active(id)));
    assert_eq!(t.get(&GetUser::new(id)).unwrap().state, 0);
}

#[test]
fn update_of_missing_row_is_false() {
    let mut t = UserTable::new();
    assert!(!t.update_state(&UpdateUserState::active(7)));
    let u = UpdateUser { id: 7, name: "N".to_string(), email: "e".to_string(), state: 0 };
    assert!(!t.update(&u));
}

#[test]
fn profile_update_keeps_state() {
    let mut t = UserTable::new();
    let (_, id) = t.insert(&new_user("Ali", "ali@veli", 1)).unwrap();
    let u = UpdateUser { id, name: "Veli".to_string(), email: "veli@ali".to_string(), state: 0 };
    assert!(t.update(&u));
    let got = t.get(&GetUser::new(id)).unwrap();
    assert_eq!(got.name, "Veli");
    assert_eq!(got.email, "veli@ali");
    assert_eq!(got.state, 1);
}

#[test]
fn delete_then_get_finds_no_row() {
    let mut t = UserTable::new();
    let (_, id) = t.insert(&new_user("Ali", "ali@veli", 0)).unwrap();
    let (_, other) = t.insert(&new_user("Ayse", "ayse@x", 0)).unwrap();
    assert_eq!(t.delete(&DeleteUser { id }), 1);
    assert_eq!(t.get(&GetUser::new(id)).unwrap_err(), TableError::NoMatchingRow);
    assert_eq!(t.get(&GetUser::new(other)).unwrap().name, "Ayse");
    assert_eq!(t.delete(&DeleteUser { id }), 0);
}

#[test]
fn get_on_empty_table_finds_no_row() {
    let t = UserTable::new();
    assert_eq!(t.get(&GetUser::new(1)).unwrap_err(), TableError::NoMatchingRow);
}

#[test]
fn get_all_active_returns_only_active_rows() {
    let mut t = UserTable::new();
    let (_, a) = t.insert(&new_user("A", "a@x", 0)).unwrap();
    let (_, b) = t.insert(&new_user("B", "b@x", 1)).unwrap();
    let (_, c) = t.insert(&new_user("C", "c@x", 0)).unwrap();
    let all = t.get_all(&GetActiveUsers::new(0));
    assert_eq!(all.len(), 2);
    assert!(all.iter().all(|u| u.state == 0));
    let mut ids: Vec<i64> = all.iter().map(|u| u.id).collect();
    ids.sort();
    let mut expected = vec![a, c];
    expected.sort();
    assert_eq!(ids, expected);
    assert!(!ids.contains(&b));
}

#[test]
fn get_all_active_is_empty_without_active_rows() {
    let mut t = UserTable::new();
    assert!(t.get_all(&GetActiveUsers::new(0)).is_empty());
    let (_, id) = t.insert(&new_user("B", "b@x", 1)).unwrap();
    assert!(t.get_all(&GetActiveUsers::new(0)).is_empty());
    assert!(t.update_state(&UpdateUserState::active(id)));
    assert_eq!(t.get_all(&GetActiveUsers::new(0)).len(), 1);
}
