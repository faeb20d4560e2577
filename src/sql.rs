//! Text of the parametrised SQL statements, built from a table name and
//! column names, with numbered placeholders `$1`, `$2`, ...
use vstd::prelude::*;

verus! {

/// The decimal digit `d` as a character.
pub open spec fn digit_char(d: nat) -> char {
    seq!['0', '1', '2', '3', '4', '5', '6', '7', '8', '9'][d as int]
}

/// Decimal rendering of `n`, without leading zeros.
pub open spec fn decimal(n: nat) -> Seq<char>
    decreases n,
{
    if n < 10 {
        seq![digit_char(n)]
    } else {
        decimal(n / 10).push(digit_char(n % 10))
    }
}

/// The `n`-th positional placeholder, `$n`.
pub open spec fn placeholder(n: nat) -> Seq<char> {
    seq!['$'] + decimal(n)
}

/// The parts separated by `sep`; empty for no parts.
pub open spec fn join(parts: Seq<Seq<char>>, sep: Seq<char>) -> Seq<char>
    decreases parts.len(),
{
    if parts.len() == 0 {
        Seq::empty()
    } else if parts.len() == 1 {
        parts[0]
    } else {
        join(parts.drop_last(), sep) + sep + parts.last()
    }
}

/// The separator of every list in a statement.
pub open spec fn list_sep() -> Seq<char> {
    ", "@
}

/// Views of the column names.
pub open spec fn names(cols: Seq<&str>) -> Seq<Seq<char>> {
    Seq::new(cols.len(), |i: int| cols[i]@)
}

/// The placeholders `$first`, `$first+1`, ..., `n` of them.
pub open spec fn placeholders(first: nat, n: nat) -> Seq<Seq<char>> {
    Seq::new(n, |i: int| placeholder((first + i) as nat))
}

/// `col = $k` for each column, numbered from `first`.
pub open spec fn assignments(cols: Seq<Seq<char>>, first: nat) -> Seq<Seq<char>> {
    Seq::new(cols.len(), |i: int| cols[i] + " = "@ + placeholder((first + i) as nat))
}

/// `INSERT INTO t (c1, c2) VALUES ($1, $2)`
pub open spec fn insert_sql(table: Seq<char>, cols: Seq<Seq<char>>) -> Seq<char> {
    "INSERT INTO "@ + table + " ("@ + join(cols, list_sep()) + ") VALUES ("@ + join(
        placeholders(1, cols.len()),
        list_sep(),
    ) + ")"@
}

/// `UPDATE t SET c1 = $1, c2 = $2 WHERE key = $3`
pub open spec fn update_sql(table: Seq<char>, cols: Seq<Seq<char>>, key: Seq<char>) -> Seq<char> {
    "UPDATE "@ + table + " SET "@ + join(assignments(cols, 1), list_sep()) + " WHERE "@ + key
        + " = "@ + placeholder(cols.len() + 1)
}

/// `DELETE FROM t WHERE key = $1`
pub open spec fn delete_sql(table: Seq<char>, key: Seq<char>) -> Seq<char> {
    "DELETE FROM "@ + table + " WHERE "@ + key + " = "@ + placeholder(1)
}

/// `SELECT c1, c2 FROM t WHERE key = $1`
pub open spec fn select_sql(table: Seq<char>, cols: Seq<Seq<char>>, key: Seq<char>) -> Seq<char> {
    "SELECT "@ + join(cols, list_sep()) + " FROM "@ + table + " WHERE "@ + key + " = "@
        + placeholder(1)
}

proof fn lemma_join_push(parts: Seq<Seq<char>>, sep: Seq<char>, x: Seq<char>)
    ensures
        join(parts.push(x), sep) == if parts.len() == 0 {
            x
        } else {
            join(parts, sep) + sep + x
        },
{
    assert(parts.push(x).drop_last() =~= parts);
}

fn digit_str(d: usize) -> (r: &'static str)
    requires
        d < 10,
    ensures
        r@ == seq![digit_char(d as nat)],
{
    if d == 0 {
        proof { reveal_strlit("0"); }
        "0"
    } else if d == 1 {
        proof { reveal_strlit("1"); }
        "1"
    } else if d == 2 {
        proof { reveal_strlit("2"); }
        "2"
    } else if d == 3 {
        proof { reveal_strlit("3"); }
        "3"
    } else if d == 4 {
        proof { reveal_strlit("4"); }
        "4"
    } else if d == 5 {
        proof { reveal_strlit("5"); }
        "5"
    } else if d == 6 {
        proof { reveal_strlit("6"); }
        "6"
    } else if d == 7 {
        proof { reveal_strlit("7"); }
        "7"
    } else if d == 8 {
        proof { reveal_strlit("8"); }
        "8"
    } else {
        proof { reveal_strlit("9"); }
        "9"
    }
}

/// Decimal text of `n`.
pub fn decimal_string(n: usize) -> (r: String)
    ensures
        r@ == decimal(n as nat),
    decreases n,
{
    if n < 10 {
        String::from_str(digit_str(n))
    } else {
        let mut s = decimal_string(n / 10);
        s.append(digit_str(n % 10));
        s
    }
}

/// The placeholder `$n`.
pub fn placeholder_string(n: usize) -> (r: String)
    ensures
        r@ == placeholder(n as nat),
{
    proof { reveal_strlit("$"); }
    let mut s = String::from_str("$");
    let d = decimal_string(n);
    s.append(d.as_str());
    s
}

/// The column names separated by `, `.
pub fn column_list(cols: &Vec<&str>) -> (r: String)
    ensures
        r@ == join(names(cols@), list_sep()),
{
    let mut r = String::new();
    let mut i: usize = 0;
    while i < cols.len()
        invariant
            i <= cols@.len(),
            r@ == join(names(cols@).take(i as int), list_sep()),
        decreases cols@.len() - i,
    {
        proof {
            assert(names(cols@).take(i + 1) =~= names(cols@).take(i as int).push(cols@[i as int]@));
            lemma_join_push(names(cols@).take(i as int), list_sep(), cols@[i as int]@);
        }
        if i > 0 {
            r.append(", ");
        }
        r.append(cols[i]);
        i = i + 1;
    }
    assert(names(cols@).take(i as int) =~= names(cols@));
    r
}

/// The placeholders `$first` to `$first+n-1` separated by `, `.
pub fn placeholder_list(first: usize, n: usize) -> (r: String)
    requires
        first + n <= usize::MAX,
    ensures
        r@ == join(placeholders(first as nat, n as nat), list_sep()),
{
    let mut r = String::new();
    let mut i: usize = 0;
    while i < n
        invariant
            i <= n,
            first + n <= usize::MAX,
            r@ == join(placeholders(first as nat, i as nat), list_sep()),
        decreases n - i,
    {
        let p = placeholder_string(first + i);
        proof {
            assert(placeholders(first as nat, (i + 1) as nat) =~= placeholders(
                first as nat,
                i as nat,
            ).push(p@));
            lemma_join_push(placeholders(first as nat, i as nat), list_sep(), p@);
        }
        if i > 0 {
            r.append(", ");
        }
        r.append(p.as_str());
        i = i + 1;
    }
    r
}

/// `col = $k` for each column, numbered from `first`, separated by `, `.
pub fn assignment_list(cols: &Vec<&str>, first: usize) -> (r: String)
    requires
        first + cols@.len() <= usize::MAX,
    ensures
        r@ == join(assignments(names(cols@), first as nat), list_sep()),
{
    let ghost all = assignments(names(cols@), first as nat);
    let mut r = String::new();
    let mut i: usize = 0;
    while i < cols.len()
        invariant
            i <= cols@.len(),
            first + cols@.len() <= usize::MAX,
            all == assignments(names(cols@), first as nat),
            r@ == join(all.take(i as int), list_sep()),
        decreases cols@.len() - i,
    {
        let p = placeholder_string(first + i);
        proof {
            assert(all.take(i + 1) =~= all.take(i as int).push(all[i as int]));
            lemma_join_push(all.take(i as int), list_sep(), all[i as int]);
        }
        if i > 0 {
            r.append(", ");
        }
        r.append(cols[i]);
        r.append(" = ");
        r.append(p.as_str());
        i = i + 1;
    }
    assert(all.take(i as int) =~= all);
    r
}

/// Text of an insert of one row into `table`.
pub fn insert_text(table: &str, cols: &Vec<&str>) -> (r: String)
    requires
        1 + cols@.len() <= usize::MAX,
    ensures
        r@ == insert_sql(table@, names(cols@)),
{
    let mut r = String::from_str("INSERT INTO ");
    r.append(table);
    r.append(" (");
    let c = column_list(cols);
    r.append(c.as_str());
    r.append(") VALUES (");
    let p = placeholder_list(1, cols.len());
    r.append(p.as_str());
    r.append(")");
    r
}

/// Text of an update of `cols` in the rows whose `key` matches.
pub fn update_text(table: &str, cols: &Vec<&str>, key: &str) -> (r: String)
    requires
        2 + cols@.len() <= usize::MAX,
    ensures
        r@ == update_sql(table@, names(cols@), key@),
{
    let mut r = String::from_str("UPDATE ");
    r.append(table);
    r.append(" SET ");
    let a = assignment_list(cols, 1);
    r.append(a.as_str());
    r.append(" WHERE ");
    r.append(key);
    r.append(" = ");
    let p = placeholder_string(cols.len() + 1);
    r.append(p.as_str());
    r
}

/// Text of a delete of the rows whose `key` matches.
pub fn delete_text(table: &str, key: &str) -> (r: String)
    ensures
        r@ == delete_sql(table@, key@),
{
    let mut r = String::from_str("DELETE FROM ");
    r.append(table);
    r.append(" WHERE ");
    r.append(key);
    r.append(" = ");
    let p = placeholder_string(1);
    r.append(p.as_str());
    r
}

/// Text of a select of `cols` from the rows whose `key` matches.
pub fn select_text(table: &str, cols: &Vec<&str>, key: &str) -> (r: String)
    ensures
        r@ == select_sql(table@, names(cols@), key@),
{
    let mut r = String::from_str("SELECT ");
    let c = column_list(cols);
    r.append(c.as_str());
    r.append(" FROM ");
    r.append(table);
    r.append(" WHERE ");
    r.append(key);
    r.append(" = ");
    let p = placeholder_string(1);
    r.append(p.as_str());
    r
}

/// A value bound to a placeholder.
#[derive(Debug, PartialEq, Eq)]
pub enum SqlValue {
    BigInt(i64),
    SmallInt(i16),
    Text(String),
}

/// Statement text with the values of its placeholders, in placeholder order.
#[derive(Debug)]
pub struct Statement {
    pub sql: String,
    pub params: Vec<SqlValue>,
}

/// Whether an update matched a row, from the count of rows it affected.
pub fn any_row_matched(affected: u64) -> (r: bool)
    ensures
        r == (affected > 0),
{
    affected > 0
}

/// `join` of one to four parts, spelled out.
pub proof fn lemma_join_small(a: Seq<char>, b: Seq<char>, c: Seq<char>, d: Seq<char>, sep: Seq<char>)
    ensures
        join(seq![a], sep) == a,
        join(seq![a, b], sep) == a + sep + b,
        join(seq![a, b, c], sep) == a + sep + b + sep + c,
        join(seq![a, b, c, d], sep) == a + sep + b + sep + c + sep + d,
{
    assert(join(seq![a], sep) == a);
    assert(seq![a, b].drop_last() =~= seq![a]);
    assert(seq![a, b].last() == b);
    assert(join(seq![a, b], sep) == join(seq![a], sep) + sep + b);
    assert(seq![a, b, c].drop_last() =~= seq![a, b]);
    assert(join(seq![a, b, c], sep) == a + sep + b + sep + c);
    assert(seq![a, b, c, d].drop_last() =~= seq![a, b, c]);
}

/// The placeholders `$1` to `$4`, spelled out.
pub proof fn lemma_small_placeholders()
    ensures
        placeholder(1) == seq!['$', '1'],
        placeholder(2) == seq!['$', '2'],
        placeholder(3) == seq!['$', '3'],
        placeholder(4) == seq!['$', '4'],
{
    assert(placeholder(1) =~= seq!['$', '1']);
    assert(placeholder(2) =~= seq!['$', '2']);
    assert(placeholder(3) =~= seq!['$', '3']);
    assert(placeholder(4) =~= seq!['$', '4']);
}

} // verus!
