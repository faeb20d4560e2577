//! Entity descriptors for rows of the `users` table.
use vstd::prelude::*;

use crate::sql::{
    join, assignments, lemma_join_small, lemma_small_placeholders, list_sep, placeholders, delete_sql, delete_text, insert_sql, insert_text, names, select_sql, select_text, update_sql,
    update_text, SqlValue, Statement,
};

verus! {

/// Stored code of an active user.
pub const ACTIVE_CODE: i16 = 0;

/// Stored code of a disabled user.
pub const DISABLED_CODE: i16 = 1;

/// Account state of a user; stored as a small integer.
#[derive(Clone, Copy, Debug, PartialEq, Eq, Structural)]
pub enum UserState {
    Active,
    Disabled,
}

impl UserState {
    /// The small integer that the `state` column stores for this state.
    pub open spec fn spec_code(self) -> i16 {
        match self {
            UserState::Active => ACTIVE_CODE,
            UserState::Disabled => DISABLED_CODE,
        }
    }

    pub fn code(&self) -> (r: i16)
        ensures
            r == self.spec_code(),
    {
        match self {
            UserState::Active => ACTIVE_CODE,
            UserState::Disabled => DISABLED_CODE,
        }
    }

    /// Reads a stored code back; any code other than the two known ones is `None`.
    pub fn from_code(code: i16) -> (r: Option<UserState>)
        ensures
            r is Some <==> (code == ACTIVE_CODE || code == DISABLED_CODE),
            r matches Some(s) ==> s.spec_code() == code,
    {
        if code == ACTIVE_CODE {
            Some(UserState::Active)
        } else if code == DISABLED_CODE {
            Some(UserState::Disabled)
        } else {
            None
        }
    }
}

/// Values for a new row; the database assigns the identifier.
#[derive(Debug)]
pub struct InsertUser {
    pub name: String,
    pub email: String,
    pub state: i16,
}

/// Rewrites `name` and `email` of the row whose `id` matches.
#[derive(Debug)]
pub struct UpdateUser {
    pub id: i64,
    pub name: String,
    pub email: String,
    pub state: i16,
}

/// Rewrites only `state` of the row whose `id` matches.
#[derive(Debug)]
pub struct UpdateUserState {
    pub id: i64,
    pub state: i16,
}

/// Removes the row whose `id` matches.
#[derive(Debug)]
pub struct DeleteUser {
    pub id: i64,
}

/// Filter and result shape of a lookup by identifier.
#[derive(Debug)]
pub struct GetUser {
    pub id: i64,
    pub name: String,
    pub email: String,
    pub state: i16,
}

/// Filter and result shape of a lookup of every row in one state.
#[derive(Debug)]
pub struct GetActiveUsers {
    pub id: i64,
    pub name: String,
    pub email: String,
    pub state: i16,
}

impl UpdateUserState {
    /// Descriptor that marks user `id` active.
    pub fn active(id: i64) -> (r: UpdateUserState)
        ensures
            r.id == id,
            r.state == UserState::Active.spec_code(),
    {
        UpdateUserState { id, state: UserState::Active.code() }
    }

    /// Descriptor that marks user `id` disabled.
    pub fn disabled(id: i64) -> (r: UpdateUserState)
        ensures
            r.id == id,
            r.state == UserState::Disabled.spec_code(),
    {
        UpdateUserState { id, state: UserState::Disabled.code() }
    }
}

impl GetUser {
    /// A lookup of user `id`; the other fields are empty until a row fills them.
    pub fn new(id: i64) -> (r: GetUser)
        ensures
            r.id == id,
            r.name@ == Seq::<char>::empty(),
            r.email@ == Seq::<char>::empty(),
            r.state == 0,
    {
        GetUser { id, name: String::new(), email: String::new(), state: 0 }
    }
}

impl GetActiveUsers {
    /// A lookup of every user whose stored state is `state`.
    pub fn new(state: i16) -> (r: GetActiveUsers)
        ensures
            r.state == state,
            r.id == 0,
            r.name@ == Seq::<char>::empty(),
            r.email@ == Seq::<char>::empty(),
    {
        GetActiveUsers { id: 0, name: String::new(), email: String::new(), state }
    }
}

/// Name of the table that holds the users.
pub open spec fn users_table() -> Seq<char> {
    "users"@
}

/// The key column.
pub open spec fn id_column() -> Seq<char> {
    "id"@
}

/// The state column, the filter of a lookup by state.
pub open spec fn state_column() -> Seq<char> {
    "state"@
}

/// Columns written by an insert.
pub open spec fn insert_columns() -> Seq<Seq<char>> {
    seq!["name"@, "email"@, "state"@]
}

/// Columns rewritten by a profile update.
pub open spec fn profile_columns() -> Seq<Seq<char>> {
    seq!["name"@, "email"@]
}

/// Columns rewritten by a state update.
pub open spec fn state_columns() -> Seq<Seq<char>> {
    seq!["state"@]
}

/// Columns read by a lookup, in the order of the result row.
pub open spec fn row_columns() -> Seq<Seq<char>> {
    seq!["id"@, "name"@, "email"@, "state"@]
}

fn row_column_names() -> (r: Vec<&'static str>)
    ensures
        names(r@) == row_columns(),
{
    let mut cols: Vec<&'static str> = Vec::new();
    cols.push("id");
    cols.push("name");
    cols.push("email");
    cols.push("state");
    assert(names(cols@) =~= row_columns());
    cols
}

impl InsertUser {
    /// The insert of this row: its name, email and state bound to `$1`..`$3`.
    pub fn statement(&self) -> (r: Statement)
        ensures
            r.sql@ == insert_sql(users_table(), insert_columns()),
            r.sql@ == "INSERT INTO users (name, email, state) VALUES ($1, $2, $3)"@,
            r.params@ == seq![
                SqlValue::Text(self.name),
                SqlValue::Text(self.email),
                SqlValue::SmallInt(self.state),
            ],
    {
        let mut cols: Vec<&str> = Vec::new();
        cols.push("name");
        cols.push("email");
        cols.push("state");
        assert(names(cols@) =~= insert_columns());
        proof { lemma_insert_text(); }
        let sql = insert_text("users", &cols);
        let mut params: Vec<SqlValue> = Vec::new();
        params.push(SqlValue::Text(self.name.clone()));
        params.push(SqlValue::Text(self.email.clone()));
        params.push(SqlValue::SmallInt(self.state));
        assert(params@ =~= seq![
            SqlValue::Text(self.name),
            SqlValue::Text(self.email),
            SqlValue::SmallInt(self.state),
        ]);
        Statement { sql, params }
    }
}

impl UpdateUser {
    /// The update of name and email of row `id`; the `state` field is not written.
    pub fn statement(&self) -> (r: Statement)
        ensures
            r.sql@ == update_sql(users_table(), profile_columns(), id_column()),
            r.sql@ == "UPDATE users SET name = $1, email = $2 WHERE id = $3"@,
            r.params@ == seq![
                SqlValue::Text(self.name),
                SqlValue::Text(self.email),
                SqlValue::BigInt(self.id),
            ],
    {
        let mut cols: Vec<&str> = Vec::new();
        cols.push("name");
        cols.push("email");
        assert(names(cols@) =~= profile_columns());
        proof { lemma_update_text(); }
        let sql = update_text("users", &cols, "id");
        let mut params: Vec<SqlValue> = Vec::new();
        params.push(SqlValue::Text(self.name.clone()));
        params.push(SqlValue::Text(self.email.clone()));
        params.push(SqlValue::BigInt(self.id));
        assert(params@ =~= seq![
            SqlValue::Text(self.name),
            SqlValue::Text(self.email),
            SqlValue::BigInt(self.id),
        ]);
        Statement { sql, params }
    }
}

impl UpdateUserState {
    /// The update of the state of row `id`.
    pub fn statement(&self) -> (r: Statement)
        ensures
            r.sql@ == update_sql(users_table(), state_columns(), id_column()),
            r.sql@ == "UPDATE users SET state = $1 WHERE id = $2"@,
            r.params@ == seq![SqlValue::SmallInt(self.state), SqlValue::BigInt(self.id)],
    {
        let mut cols: Vec<&str> = Vec::new();
        cols.push("state");
        assert(names(cols@) =~= state_columns());
        proof { lemma_update_state_text(); }
        let sql = update_text("users", &cols, "id");
        let mut params: Vec<SqlValue> = Vec::new();
        params.push(SqlValue::SmallInt(self.state));
        params.push(SqlValue::BigInt(self.id));
        assert(params@ =~= seq![SqlValue::SmallInt(self.state), SqlValue::BigInt(self.id)]);
        Statement { sql, params }
    }
}

impl DeleteUser {
    /// The delete of row `id`.
    pub fn statement(&self) -> (r: Statement)
        ensures
            r.sql@ == delete_sql(users_table(), id_column()),
            r.sql@ == "DELETE FROM users WHERE id = $1"@,
            r.params@ == seq![SqlValue::BigInt(self.id)],
    {
        proof { lemma_delete_text(); }
        let sql = delete_text("users", "id");
        let mut params: Vec<SqlValue> = Vec::new();
        params.push(SqlValue::BigInt(self.id));
        assert(params@ =~= seq![SqlValue::BigInt(self.id)]);
        Statement { sql, params }
    }
}

impl GetUser {
    /// The select of row `id`, all four columns.
    pub fn statement(&self) -> (r: Statement)
        ensures
            r.sql@ == select_sql(users_table(), row_columns(), id_column()),
            r.sql@ == "SELECT id, name, email, state FROM users WHERE id = $1"@,
            r.params@ == seq![SqlValue::BigInt(self.id)],
    {
        let cols = row_column_names();
        proof { lemma_select_texts(); }
        let sql = select_text("users", &cols, "id");
        let mut params: Vec<SqlValue> = Vec::new();
        params.push(SqlValue::BigInt(self.id));
        assert(params@ =~= seq![SqlValue::BigInt(self.id)]);
        Statement { sql, params }
    }
}

impl GetActiveUsers {
    /// The select of every row whose state is `self.state`, all four columns.
    pub fn statement(&self) -> (r: Statement)
        ensures
            r.sql@ == select_sql(users_table(), row_columns(), state_column()),
            r.sql@ == "SELECT id, name, email, state FROM users WHERE state = $1"@,
            r.params@ == seq![SqlValue::SmallInt(self.state)],
    {
        let cols = row_column_names();
        proof { lemma_select_texts(); }
        let sql = select_text("users", &cols, "state");
        let mut params: Vec<SqlValue> = Vec::new();
        params.push(SqlValue::SmallInt(self.state));
        assert(params@ =~= seq![SqlValue::SmallInt(self.state)]);
        Statement { sql, params }
    }
}

/// The insert statement of a user, spelled out.
proof fn lemma_insert_text()
    ensures
        insert_sql(users_table(), insert_columns())
            == "INSERT INTO users (name, email, state) VALUES ($1, $2, $3)"@,
{
    reveal_strlit("users");
    reveal_strlit("id");
    reveal_strlit("name");
    reveal_strlit("email");
    reveal_strlit("state");
    reveal_strlit(", ");
    reveal_strlit(" = ");
    reveal_strlit(" WHERE ");
    reveal_strlit("INSERT INTO ");
    reveal_strlit(" (");
    reveal_strlit(") VALUES (");
    reveal_strlit(")");
    reveal_strlit("INSERT INTO users (name, email, state) VALUES ($1, $2, $3)");
    lemma_small_placeholders();
    let p = placeholders(1, 3);
    assert(p =~= seq![seq!['$', '1'], seq!['$', '2'], seq!['$', '3']]);
    lemma_join_small(seq!['$', '1'], seq!['$', '2'], seq!['$', '3'], seq![], list_sep());
    lemma_join_small("name"@, "email"@, "state"@, seq![], list_sep());
    assert(join(p, list_sep()) =~= "$1, $2, $3"@) by {
        reveal_strlit("$1, $2, $3");
    }
    assert(join(insert_columns(), list_sep()) =~= "name, email, state"@) by {
        reveal_strlit("name, email, state");
    }
    assert(insert_sql(users_table(), insert_columns())
        =~= "INSERT INTO users (name, email, state) VALUES ($1, $2, $3)"@);
}

/// The profile update statement of a user, spelled out.
proof fn lemma_update_text()
    ensures
        update_sql(users_table(), profile_columns(), id_column())
            == "UPDATE users SET name = $1, email = $2 WHERE id = $3"@,
{
    reveal_strlit("users");
    reveal_strlit("id");
    reveal_strlit("name");
    reveal_strlit("email");
    reveal_strlit("state");
    reveal_strlit(", ");
    reveal_strlit(" = ");
    reveal_strlit(" WHERE ");
    reveal_strlit("UPDATE ");
    reveal_strlit(" SET ");
    reveal_strlit("UPDATE users SET name = $1, email = $2 WHERE id = $3");
    lemma_small_placeholders();
    let a = assignments(profile_columns(), 1);
    let a1 = "name"@ + " = "@ + seq!['$', '1'];
    let a2 = "email"@ + " = "@ + seq!['$', '2'];
    assert(a =~= seq![a1, a2]);
    lemma_join_small(a1, a2, seq![], seq![], list_sep());
    assert(join(a, list_sep()) =~= "name = $1, email = $2"@) by {
        reveal_strlit("name = $1, email = $2");
    }
    assert(update_sql(users_table(), profile_columns(), id_column())
        =~= "UPDATE users SET name = $1, email = $2 WHERE id = $3"@);
}

/// The state update statement of a user, spelled out.
proof fn lemma_update_state_text()
    ensures
        update_sql(users_table(), state_columns(), id_column())
            == "UPDATE users SET state = $1 WHERE id = $2"@,
{
    reveal_strlit("users");
    reveal_strlit("id");
    reveal_strlit("name");
    reveal_strlit("email");
    reveal_strlit("state");
    reveal_strlit(", ");
    reveal_strlit(" = ");
    reveal_strlit(" WHERE ");
    reveal_strlit("UPDATE ");
    reveal_strlit(" SET ");
    reveal_strlit("UPDATE users SET state = $1 WHERE id = $2");
    lemma_small_placeholders();
    let a = assignments(state_columns(), 1);
    let a1 = "state"@ + " = "@ + seq!['$', '1'];
    assert(a =~= seq![a1]);
    lemma_join_small(a1, seq![], seq![], seq![], list_sep());
    assert(update_sql(users_table(), state_columns(), id_column())
        =~= "UPDATE users SET state = $1 WHERE id = $2"@);
}

/// The delete statement of a user, spelled out.
proof fn lemma_delete_text()
    ensures
        delete_sql(users_table(), id_column()) == "DELETE FROM users WHERE id = $1"@,
{
    reveal_strlit("users");
    reveal_strlit("id");
    reveal_strlit("name");
    reveal_strlit("email");
    reveal_strlit("state");
    reveal_strlit(", ");
    reveal_strlit(" = ");
    reveal_strlit(" WHERE ");
    reveal_strlit("DELETE FROM ");
    reveal_strlit("DELETE FROM users WHERE id = $1");
    lemma_small_placeholders();
    assert(delete_sql(users_table(), id_column()) =~= "DELETE FROM users WHERE id = $1"@);
}

/// The two lookup statements, spelled out.
proof fn lemma_select_texts()
    ensures
        select_sql(users_table(), row_columns(), id_column())
            == "SELECT id, name, email, state FROM users WHERE id = $1"@,
        select_sql(users_table(), row_columns(), state_column())
            == "SELECT id, name, email, state FROM users WHERE state = $1"@,
{
    reveal_strlit("users");
    reveal_strlit("id");
    reveal_strlit("name");
    reveal_strlit("email");
    reveal_strlit("state");
    reveal_strlit(", ");
    reveal_strlit(" = ");
    reveal_strlit(" WHERE ");
    reveal_strlit("SELECT ");
    reveal_strlit(" FROM ");
    reveal_strlit("SELECT id, name, email, state FROM users WHERE id = $1");
    reveal_strlit("SELECT id, name, email, state FROM users WHERE state = $1");
    lemma_small_placeholders();
    lemma_join_small("id"@, "name"@, "email"@, "state"@, list_sep());
    assert(join(row_columns(), list_sep()) =~= "id, name, email, state"@) by {
        reveal_strlit("id, name, email, state");
    }
    assert(select_sql(users_table(), row_columns(), id_column())
        =~= "SELECT id, name, email, state FROM users WHERE id = $1"@);
    assert(select_sql(users_table(), row_columns(), state_column())
        =~= "SELECT id, name, email, state FROM users WHERE state = $1"@);
}

} // verus!
