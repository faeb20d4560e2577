use parsql_tutorials::sql::{
    any_row_matched, assignment_list, column_list, decimal_string, delete_text, insert_text, placeholder_list,
    placeholder_string, select_text, update_text, SqlValue,
};
use parsql_tutorials::user::{
    DeleteUser, GetActiveUsers, GetUser, InsertUser, UpdateUser, UpdateUserState, UserState,
    ACTIVE_CODE, DISABLED_CODE,
};

#[test]
fn decimal_text_of_numbers() {
    assert_eq!(decimal_string(0), "0");
    assert_eq!(decimal_string(7), "7");
    assert_eq!(decimal_string(10), "10");
    assert_eq!(decimal_string(12345), "12345");
}

#[test]
fn placeholder_is_dollar_and_number() {
    assert_eq!(placeholder_string(1), "$1");
    assert_eq!(placeholder_string(12), "$12");
}

#[test]
fn lists_are_comma_separated() {
    assert_eq!(column_list(&vec![]), "");
    assert_eq!(column_list(&vec!["id"]), "id");
    assert_eq!(column_list(&vec!["id", "name", "email"]), "id, name, email");
    assert_eq!(placeholder_list(1, 0), "");
    assert_eq!(placeholder_list(1, 3), "$1, $2, $3");
    assert_eq!(placeholder_list(9, 2), "$9, $10");
    assert_eq!(assignment_list(&vec!["name", "email"], 1), "name = $1, email = $2");
    assert_eq!(assignment_list(&vec![], 1), "");
}

#[test]
fn generic_statement_texts() {
    assert_eq!(insert_text("t", &vec!["a", "b"]), "INSERT INTO t (a, b) VALUES ($1, $2)");
    assert_eq!(update_text("t", &vec!["a"], "k"), "UPDATE t SET a = $1 WHERE k = $2");
    assert_eq!(delete_text("t", "k"), "DELETE FROM t WHERE k = $1");
    assert_eq!(select_text("t", &vec!["a", "b"], "k"), "SELECT a, b FROM t WHERE k = $1");
}

#[test]
fn insert_user_statement() {
    let u = InsertUser { name: "Ali".to_string(), email: "ali@veli".to_string(), state: 0 };
    let st = u.statement();
    assert_eq!(st.sql, "INSERT INTO users (name, email, state) VALUES ($1, $2, $3)");
    assert_eq!(
        st.params,
        vec![
            SqlValue::Text("Ali".to_string()),
            SqlValue::Text("ali@veli".to_string()),
            SqlValue::SmallInt(0)
        ]
    );
}

#[test]
fn update_user_statement_writes_name_and_email() {
    let u = UpdateUser { id: 5, name: "Veli".to_string(), email: "v@x".to_string(), state: 1 };
    let st = u.statement();
    assert_eq!(st.sql, "UPDATE users SET name = $1, email = $2 WHERE id = $3");
    assert_eq!(
        st.params,
        vec![
            SqlValue::Text("Veli".to_string()),
            SqlValue::Text("v@x".to_string()),
            SqlValue::BigInt(5)
        ]
    );
}

#[test]
fn state_update_statements() {
    let active = UpdateUserState::active(3);
    assert_eq!(active.id, 3);
    assert_eq!(active.state, 0);
    let disabled = UpdateUserState::disabled(4);
    assert_eq!(disabled.id, 4);
    assert_eq!(disabled.state, 1);
    let st = disabled.statement();
    assert_eq!(st.sql, "UPDATE users SET state = $1 WHERE id = $2");
    assert_eq!(st.params, vec![SqlValue::SmallInt(1), SqlValue::BigInt(4)]);
}

#[test]
fn delete_user_statement() {
    let st = DeleteUser { id: 42 }.statement();
    assert_eq!(st.sql, "DELETE FROM users WHERE id = $1");
    assert_eq!(st.params, vec![SqlValue::BigInt(42)]);
}

#[test]
fn get_user_lookup() {
    let q = GetUser::new(9);
    assert_eq!(q.id, 9);
    assert_eq!(q.name, "");
    assert_eq!(q.email, "");
    assert_eq!(q.state, 0);
    let st = q.statement();
    assert_eq!(st.sql, "SELECT id, name, email, state FROM users WHERE id = $1");
    assert_eq!(st.params, vec![SqlValue::BigInt(9)]);
}

#[test]
fn get_active_users_lookup() {
    let q = GetActiveUsers::new(0);
    assert_eq!(q.state, 0);
    assert_eq!(q.id, 0);
    assert_eq!(q.name, "");
    let st = q.statement();
    assert_eq!(st.sql, "SELECT id, name, email, state FROM users WHERE state = $1");
    assert_eq!(st.params, vec![SqlValue::SmallInt(0)]);
}

#[test]
fn user_state_codes() {
    assert_eq!(UserState::Active.code(), ACTIVE_CODE);
    assert_eq!(UserState::Active.code(), 0);
    assert_eq!(UserState::Disabled.code(), DISABLED_CODE);
    assert_eq!(UserState::Disabled.code(), 1);
    assert_eq!(UserState::from_code(0), Some(UserState::Active));
    assert_eq!(UserState::from_code(1), Some(UserState::Disabled));
    assert_eq!(UserState::from_code(2), None);
    assert_eq!(UserState::from_code(-1), None);
}

#[test]
fn update_matches_when_rows_affected() {
    assert!(!any_row_matched(0));
    assert!(any_row_matched(1));
    assert!(any_row_matched(3));
}
