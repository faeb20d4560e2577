//! A reference model of the `users` table: what each statement of this
//! crate does to the rows, as a map from identifier to record, with an
//! in-memory table that carries it out.
use vstd::prelude::*;

use crate::user::{DeleteUser, GetActiveUsers, GetUser, InsertUser, UpdateUser, UpdateUserState};

verus! {

/// The columns of one row besides its identifier.
pub struct UserRecord {
    pub name: Seq<char>,
    pub email: Seq<char>,
    pub state: i16,
}

/// Contents of the table, keyed by identifier.
pub type Rows = Map<i64, UserRecord>;

/// The record that an insert of `u` stores.
pub open spec fn inserted_record(u: InsertUser) -> UserRecord {
    UserRecord { name: u.name@, email: u.email@, state: u.state }
}

/// The record of a row held as a lookup result.
pub open spec fn record_of(u: GetUser) -> UserRecord {
    UserRecord { name: u.name@, email: u.email@, state: u.state }
}

/// The record of a row held as a result of a lookup by state.
pub open spec fn listed_record(u: GetActiveUsers) -> UserRecord {
    UserRecord { name: u.name@, email: u.email@, state: u.state }
}

/// Insert of `rec` under the fresh identifier `id`.
pub open spec fn after_insert(t: Rows, id: i64, rec: UserRecord) -> Rows {
    t.insert(id, rec)
}

/// Update of name and email of row `id`; no change where no row has it.
pub open spec fn after_update_profile(t: Rows, id: i64, name: Seq<char>, email: Seq<char>) -> Rows {
    if t.contains_key(id) {
        t.insert(id, UserRecord { name, email, state: t[id].state })
    } else {
        t
    }
}

/// Update of the state of row `id`; no change where no row has it.
pub open spec fn after_update_state(t: Rows, id: i64, state: i16) -> Rows {
    if t.contains_key(id) {
        t.insert(id, UserRecord { name: t[id].name, email: t[id].email, state })
    } else {
        t
    }
}

/// Delete of row `id`.
pub open spec fn after_delete(t: Rows, id: i64) -> Rows {
    t.remove(id)
}

/// Lookup of row `id`.
pub open spec fn lookup(t: Rows, id: i64) -> Option<UserRecord> {
    if t.contains_key(id) {
        Some(t[id])
    } else {
        None
    }
}

/// Identifiers of the rows whose state is `state`.
pub open spec fn ids_in_state(t: Rows, state: i16) -> Set<i64> {
    t.dom().filter(|id: i64| t[id].state == state)
}

/// Why an operation on the table did not take place.
#[derive(Debug, PartialEq, Eq, Structural)]
pub enum TableError {
    /// No row has the requested identifier.
    NoMatchingRow,
    /// Every identifier has been handed out.
    IdsExhausted,
}

/// The rows of the table, each with a distinct identifier below `next_id`.
pub struct UserTable {
    rows: Vec<GetUser>,
    next_id: i64,
}

spec fn holds_id(rows: Seq<GetUser>, id: i64) -> bool {
    exists|i: int| 0 <= i < rows.len() && rows[i].id == id
}

spec fn index_of(rows: Seq<GetUser>, id: i64) -> int {
    choose|i: int| 0 <= i < rows.len() && rows[i].id == id
}

spec fn rows_view(rows: Seq<GetUser>) -> Rows {
    Map::new(|id: i64| holds_id(rows, id), |id: i64| record_of(rows[index_of(rows, id)]))
}

/// Some row among the first `n` has state `state` and holds what `u` holds.
spec fn witnessed(rows: Seq<GetUser>, n: int, state: i16, u: GetActiveUsers) -> bool {
    exists|k: int|
        0 <= k < n && rows[k].id == u.id && rows[k].state == state && record_of(rows[k])
            == listed_record(u)
}

spec fn ids_distinct(rows: Seq<GetUser>) -> bool {
    forall|i: int, j: int|
        0 <= i < rows.len() && 0 <= j < rows.len() && i != j ==> rows[i].id != rows[j].id
}

proof fn lemma_index_of(rows: Seq<GetUser>, i: int)
    requires
        ids_distinct(rows),
        0 <= i < rows.len(),
    ensures
        holds_id(rows, rows[i].id),
        index_of(rows, rows[i].id) == i,
        rows_view(rows).contains_key(rows[i].id),
        rows_view(rows)[rows[i].id] == record_of(rows[i]),
{
    assert(holds_id(rows, rows[i].id));
}

impl View for UserTable {
    type V = Rows;

    closed spec fn view(&self) -> Rows {
        rows_view(self.rows@)
    }
}

impl UserTable {
    /// Identifiers are distinct and below the next one to hand out.
    pub closed spec fn wf(&self) -> bool {
        &&& ids_distinct(self.rows@)
        &&& self.next_id >= 1
        &&& forall|i: int| 0 <= i < self.rows@.len() ==> 1 <= #[trigger] self.rows@[i].id < self.next_id
    }

    /// An empty table.
    pub fn new() -> (r: UserTable)
        ensures
            r.wf(),
            r@ == Map::<i64, UserRecord>::empty(),
            r.next_id() == 1,
    {
        let r = UserTable { rows: Vec::new(), next_id: 1 };
        assert(r@ =~= Map::<i64, UserRecord>::empty());
        r
    }

    fn find(&self, id: i64) -> (r: Option<usize>)
        requires
            self.wf(),
        ensures
            r matches Some(i) ==> i < self.rows@.len() && self.rows@[i as int].id == id,
            r is None ==> !self@.contains_key(id),
    {
        let mut i: usize = 0;
        while i < self.rows.len()
            invariant
                i <= self.rows@.len(),
                forall|j: int| 0 <= j < i ==> self.rows@[j].id != id,
            decreases self.rows@.len() - i,
        {
            if self.rows[i].id == id {
                return Some(i);
            }
            i = i + 1;
        }
        None
    }
    /// The identifier that the next insert hands out, as a serial column does.
    pub closed spec fn next_id(&self) -> i64 {
        self.next_id
    }

    /// Whether every identifier has been handed out, so that no insert can succeed.
    pub open spec fn ids_exhausted(&self) -> bool {
        self.next_id() == i64::MAX
    }

    /// Stores `u` under a fresh identifier; returns the count of rows
    /// written, which is one, and that identifier.
    pub fn insert(&mut self, u: &InsertUser) -> (r: Result<(u64, i64), TableError>)
        requires
            old(self).wf(),
        ensures
            final(self).wf(),
            r is Err <==> old(self).ids_exhausted(),
            match r {
                Ok((count, id)) => {
                    &&& count == 1
                    &&& id == old(self).next_id()
                    &&& final(self).next_id() == id + 1
                    &&& !old(self)@.contains_key(id)
                    &&& final(self)@ == after_insert(old(self)@, id, inserted_record(*u))
                },
                Err(e) => {
                    &&& e == TableError::IdsExhausted
                    &&& final(self)@ == old(self)@
                    &&& final(self).next_id() == old(self).next_id()
                },
            },
    {
        if self.next_id == i64::MAX {
            return Err(TableError::IdsExhausted);
        }
        let id = self.next_id;
        let ghost before = self.rows@;
        assert(!holds_id(before, id));
        self.rows.push(GetUser { id, name: u.name.clone(), email: u.email.clone(), state: u.state });
        self.next_id = id + 1;
        let ghost after = self.rows@;
        proof {
            assert forall|i: int| 0 <= i < before.len() implies after[i] == before[i] by {}
            lemma_index_of(after, before.len() as int);
            assert forall|k: i64| #[trigger] holds_id(after, k) == (holds_id(before, k) || k == id) by {
                if holds_id(after, k) {
                    let j = index_of(after, k);
                    if j < before.len() {
                        assert(before[j].id == k);
                    }
                }
                if holds_id(before, k) {
                    let j = index_of(before, k);
                    assert(after[j].id == k);
                }
            }
            assert forall|k: i64| holds_id(before, k) implies rows_view(after)[k] == rows_view(
                before,
            )[k] by {
                let j = index_of(before, k);
                lemma_index_of(before, j);
                lemma_index_of(after, j);
            }
            assert(rows_view(after) =~= after_insert(rows_view(before), id, inserted_record(*u)));
        }
        Ok((1, id))
    }

    /// Row `q.id`, or `NoMatchingRow` where no row has that identifier.
    pub fn get(&self, q: &GetUser) -> (r: Result<GetUser, TableError>)
        requires
            self.wf(),
        ensures
            match lookup(self@, q.id) {
                Some(rec) => r matches Ok(u) && u.id == q.id && record_of(u) == rec,
                None => r == Err::<GetUser, TableError>(TableError::NoMatchingRow),
            },
    {
        match self.find(q.id) {
            Some(i) => {
                proof { lemma_index_of(self.rows@, i as int); }
                let row = &self.rows[i];
                Ok(
                    GetUser {
                        id: row.id,
                        name: row.name.clone(),
                        email: row.email.clone(),
                        state: row.state,
                    },
                )
            },
            None => Err(TableError::NoMatchingRow),
        }
    }

    /// Replaces row `i` by `row`, which keeps its identifier.
    fn replace_row(&mut self, i: usize, row: GetUser)
        requires
            old(self).wf(),
            i < old(self).rows@.len(),
            row.id == old(self).rows@[i as int].id,
        ensures
            final(self).wf(),
            final(self).next_id == old(self).next_id,
            final(self)@ == old(self)@.insert(row.id, record_of(row)),
    {
        let ghost before = self.rows@;
        let id = row.id;
        self.rows.set(i, row);
        let ghost after = self.rows@;
        proof {
            assert(after == before.update(i as int, row));
            assert forall|k: i64| #[trigger] holds_id(after, k) == holds_id(before, k) by {
                if holds_id(after, k) {
                    let j = index_of(after, k);
                    assert(before[j].id == k);
                }
                if holds_id(before, k) {
                    let j = index_of(before, k);
                    assert(after[j].id == k);
                }
            }
            lemma_index_of(before, i as int);
            lemma_index_of(after, i as int);
            assert forall|k: i64| holds_id(before, k) && k != id implies rows_view(after)[k]
                == rows_view(before)[k] by {
                let j = index_of(before, k);
                lemma_index_of(before, j);
                lemma_index_of(after, j);
            }
            assert(rows_view(after) =~= rows_view(before).insert(id, record_of(row)));
        }
    }

    /// Rewrites name and email of row `u.id`; true where that row exists.
    pub fn update(&mut self, u: &UpdateUser) -> (r: bool)
        requires
            old(self).wf(),
        ensures
            final(self).wf(),
            final(self).next_id() == old(self).next_id(),
            r == old(self)@.contains_key(u.id),
            final(self)@ == after_update_profile(old(self)@, u.id, u.name@, u.email@),
    {
        match self.find(u.id) {
            Some(i) => {
                proof { lemma_index_of(self.rows@, i as int); }
                let state = self.rows[i].state;
                self.replace_row(
                    i,
                    GetUser { id: u.id, name: u.name.clone(), email: u.email.clone(), state },
                );
                true
            },
            None => false,
        }
    }

    /// Rewrites the state of row `u.id`; true where that row exists.
    pub fn update_state(&mut self, u: &UpdateUserState) -> (r: bool)
        requires
            old(self).wf(),
        ensures
            final(self).wf(),
            final(self).next_id() == old(self).next_id(),
            r == old(self)@.contains_key(u.id),
            final(self)@ == after_update_state(old(self)@, u.id, u.state),
    {
        match self.find(u.id) {
            Some(i) => {
                proof { lemma_index_of(self.rows@, i as int); }
                let name = self.rows[i].name.clone();
                let email = self.rows[i].email.clone();
                self.replace_row(i, GetUser { id: u.id, name, email, state: u.state });
                true
            },
            None => false,
        }
    }

    /// Removes row `d.id`; returns the count of rows removed.
    pub fn delete(&mut self, d: &DeleteUser) -> (r: u64)
        requires
            old(self).wf(),
        ensures
            final(self).wf(),
            final(self).next_id() == old(self).next_id(),
            r == if old(self)@.contains_key(d.id) { 1u64 } else { 0u64 },
            final(self)@ == after_delete(old(self)@, d.id),
    {
        match self.find(d.id) {
            Some(i) => {
                let ghost before = self.rows@;
                proof { lemma_index_of(before, i as int); }
                self.rows.remove(i);
                let ghost after = self.rows@;
                proof {
                    assert(after == before.remove(i as int));
                    assert forall|k: i64| #[trigger] holds_id(after, k) == (holds_id(before, k)
                        && k != d.id) by {
                        if holds_id(after, k) {
                            let j = index_of(after, k);
                            if j < i {
                                assert(before[j].id == k);
                            } else {
                                assert(before[j + 1].id == k);
                            }
                        }
                        if holds_id(before, k) && k != d.id {
                            let j = index_of(before, k);
                            if j < i {
                                assert(after[j].id == k);
                            } else {
                                assert(after[j - 1].id == k);
                            }
                        }
                    }
                    assert forall|k: i64| holds_id(before, k) && k != d.id implies rows_view(
                        after,
                    )[k] == rows_view(before)[k] by {
                        let j = index_of(before, k);
                        lemma_index_of(before, j);
                        if j < i {
                            lemma_index_of(after, j);
                        } else {
                            lemma_index_of(after, j - 1);
                        }
                    }
                    assert(rows_view(after) =~= rows_view(before).remove(d.id));
                }
                1
            },
            None => {
                assert(self@ =~= self@.remove(d.id));
                0
            },
        }
    }
    /// Every row whose state is `q.state`, each once, in no particular order;
    /// empty where no row has that state.
    pub fn get_all(&self, q: &GetActiveUsers) -> (r: Vec<GetActiveUsers>)
        requires
            self.wf(),
        ensures
            forall|j: int|
                0 <= j < r@.len() ==> {
                    &&& ids_in_state(self@, q.state).contains(#[trigger] r@[j].id)
                    &&& self@[r@[j].id] == listed_record(r@[j])
                },
            forall|id: i64|
                #[trigger] ids_in_state(self@, q.state).contains(id) ==> exists|j: int|
                    0 <= j < r@.len() && r@[j].id == id,
            forall|j1: int, j2: int|
                0 <= j1 < r@.len() && 0 <= j2 < r@.len() && j1 != j2 ==> r@[j1].id != r@[j2].id,
            r@.len() == 0 <==> ids_in_state(self@, q.state).is_empty(),
    {
        let ghost rows = self.rows@;
        let mut out: Vec<GetActiveUsers> = Vec::new();
        let mut i: usize = 0;
        while i < self.rows.len()
            invariant
                self.wf(),
                rows == self.rows@,
                i <= rows.len(),
                forall|j: int| 0 <= j < out@.len() ==> witnessed(rows, i as int, q.state, #[trigger] out@[j]),
                forall|k: int|
                    0 <= k < i && #[trigger] rows[k].state == q.state ==> exists|j: int|
                        0 <= j < out@.len() && out@[j].id == rows[k].id,
                forall|j1: int, j2: int|
                    0 <= j1 < out@.len() && 0 <= j2 < out@.len() && j1 != j2 ==> out@[j1].id
                        != out@[j2].id,
            decreases rows.len() - i,
        {
            let row = &self.rows[i];
            if row.state == q.state {
                let ghost prev = out@;
                proof {
                    assert forall|j: int| 0 <= j < prev.len() implies prev[j].id != rows[i as int].id by {
                        assert(witnessed(rows, i as int, q.state, prev[j]));
                        let k = choose|k: int|
                            0 <= k < i && rows[k].id == prev[j].id && rows[k].state == q.state
                                && record_of(rows[k]) == listed_record(prev[j]);
                    }
                }
                out.push(
                    GetActiveUsers {
                        id: row.id,
                        name: row.name.clone(),
                        email: row.email.clone(),
                        state: row.state,
                    },
                );
                proof {
                    assert forall|j: int| 0 <= j < out@.len() implies witnessed(
                        rows,
                        i + 1,
                        q.state,
                        #[trigger] out@[j],
                    ) by {
                        if j < prev.len() {
                            assert(out@[j] == prev[j]);
                            assert(witnessed(rows, i as int, q.state, prev[j]));
                            let k = choose|k: int|
                                0 <= k < i && rows[k].id == prev[j].id && rows[k].state == q.state
                                    && record_of(rows[k]) == listed_record(prev[j]);
                            assert(0 <= k < i + 1);
                        } else {
                            assert(rows[i as int].id == out@[j].id);
                            assert(record_of(rows[i as int]) == listed_record(out@[j]));
                        }
                    }
                    assert forall|k: int|
                        0 <= k < i + 1 && #[trigger] rows[k].state == q.state implies exists|j: int|
                        0 <= j < out@.len() && out@[j].id == rows[k].id by {
                        if k < i {
                            let j = choose|j: int| 0 <= j < prev.len() && prev[j].id == rows[k].id;
                            assert(out@[j] == prev[j]);
                        } else {
                            assert(out@[prev.len() as int].id == rows[k].id);
                        }
                    }
                }
            } else {
                assert forall|j: int| 0 <= j < out@.len() implies witnessed(
                    rows,
                    i + 1,
                    q.state,
                    #[trigger] out@[j],
                ) by {
                    assert(witnessed(rows, i as int, q.state, out@[j]));
                    let k = choose|k: int|
                        0 <= k < i && rows[k].id == out@[j].id && rows[k].state == q.state
                            && record_of(rows[k]) == listed_record(out@[j]);
                    assert(0 <= k < i + 1);
                }
            }
            i = i + 1;
        }
        proof {
            assert forall|j: int| 0 <= j < out@.len() implies {
                &&& ids_in_state(self@, q.state).contains(#[trigger] out@[j].id)
                &&& self@[out@[j].id] == listed_record(out@[j])
            } by {
                assert(witnessed(rows, rows.len() as int, q.state, out@[j]));
                let k = choose|k: int|
                    0 <= k < rows.len() && rows[k].id == out@[j].id && rows[k].state == q.state
                        && record_of(rows[k]) == listed_record(out@[j]);
                lemma_index_of(rows, k);
            }
            assert forall|id: i64| #[trigger] ids_in_state(self@, q.state).contains(id) implies exists|j: int|
                0 <= j < out@.len() && out@[j].id == id by {
                let k = index_of(rows, id);
                lemma_index_of(rows, k);
                assert(rows[k].state == q.state);
            }
            if out@.len() > 0 {
                assert(ids_in_state(self@, q.state).contains(out@[0].id));
            }
            if !ids_in_state(self@, q.state).is_empty() {
                let id = ids_in_state(self@, q.state).choose();
                assert(ids_in_state(self@, q.state).contains(id));
            }
        }
        out
    }
}

/// Fetching the identifier that an insert stored yields the inserted record:
/// the same name, email and state.
pub proof fn insert_then_get(t: Rows, id: i64, rec: UserRecord)
    ensures
        lookup(after_insert(t, id, rec), id) == Some(rec),
{
}

/// A state update changes only the state of its row: name and email stay,
/// and every other row is untouched.
pub proof fn state_update_keeps_profile(t: Rows, id: i64, state: i16)
    ensures
        t.contains_key(id) ==> lookup(after_update_state(t, id, state), id) == Some(
            UserRecord { name: t[id].name, email: t[id].email, state },
        ),
        !t.contains_key(id) ==> after_update_state(t, id, state) == t,
        forall|k: i64| k != id ==> lookup(after_update_state(t, id, state), k) == lookup(t, k),
{
}

/// After a delete of an identifier no row has it, so a lookup of it finds none.
pub proof fn delete_then_get(t: Rows, id: i64)
    ensures
        lookup(after_delete(t, id), id) is None,
        forall|k: i64| k != id ==> lookup(after_delete(t, id), k) == lookup(t, k),
{
}

} // verus!
