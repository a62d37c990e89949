use vstd::prelude::*;

use crate::column::TableColumn;
use crate::text::same_text;

verus! {

/// One predicate of a `WHERE` clause.
#[derive(Debug, Clone, Copy, PartialEq, Eq)]
pub enum Conditional<'a> {
    /// Two columns are equal.
    Eq(TableColumn<'a>, TableColumn<'a>),
    /// A column equals a literal, written between single quotes as it is.
    EqVal(TableColumn<'a>, &'a str),
    /// A column contains a literal: `LIKE '%<literal>%'`, the literal as it is.
    Like(TableColumn<'a>, &'a str),
}

impl<'a> Conditional<'a> {
    /// The predicate as SQL text.
    pub open spec fn text_spec(self) -> Seq<char> {
        match self {
            Conditional::Eq(a, b) => a.qualified_spec() + " = "@ + b.qualified_spec(),
            Conditional::EqVal(a, v) => a.qualified_spec() + " = '"@ + v@ + "'"@,
            Conditional::Like(a, v) => a.qualified_spec() + " LIKE '%"@ + v@ + "%'"@,
        }
    }

    /// Renders the predicate as SQL text.
    pub fn to_string(&self) -> (r: String)
        ensures
            r@ == self.text_spec(),
    {
        match self {
            Conditional::Eq(a, b) => {
                let mut r = a.to_string();
                r.append(" = ");
                let q = b.to_string();
                r.append(q.as_str());
                r
            },
            Conditional::EqVal(a, v) => {
                let mut r = a.to_string();
                r.append(" = '");
                r.append(v);
                r.append("'");
                r
            },
            Conditional::Like(a, v) => {
                let mut r = a.to_string();
                r.append(" LIKE '%");
                r.append(v);
                r.append("%'");
                r
            },
        }
    }
}

/// The parts, in order, with `sep` between each two neighbours.
pub open spec fn join(parts: Seq<Seq<char>>, sep: Seq<char>) -> Seq<char>
    decreases parts.len(),
{
    if parts.len() == 0 {
        Seq::empty()
    } else if parts.len() == 1 {
        parts[0]
    } else {
        join(parts.drop_last(), sep) + sep + parts.last()
    }
}

/// Each distinct element once, at the place of its first occurrence.
pub open spec fn first_occurrences(s: Seq<Seq<char>>) -> Seq<Seq<char>>
    decreases s.len(),
{
    if s.len() == 0 {
        s
    } else {
        let d = first_occurrences(s.drop_last());
        if d.contains(s.last()) {
            d
        } else {
            d.push(s.last())
        }
    }
}

/// The owning table of each column, in the order of the columns.
pub open spec fn table_names(columns: Seq<TableColumn>) -> Seq<Seq<char>> {
    columns.map_values(|c: TableColumn| c.table_spec())
}

/// The qualified name of each column, in the order of the columns.
pub open spec fn qualified_names(columns: Seq<TableColumn>) -> Seq<Seq<char>> {
    columns.map_values(|c: TableColumn| c.qualified_spec())
}

/// The text of each predicate, in the order of the predicates.
pub open spec fn conditional_texts(conditionals: Seq<Conditional>) -> Seq<Seq<char>> {
    conditionals.map_values(|k: Conditional| k.text_spec())
}

/// The tables of the `FROM` clause: each owning table once, in the order in
/// which the columns first name it.
pub open spec fn from_tables(columns: Seq<TableColumn>) -> Seq<Seq<char>> {
    first_occurrences(table_names(columns))
}

/// The list after `SELECT`: every qualified name, no column dropped.
pub open spec fn select_clause(columns: Seq<TableColumn>) -> Seq<char> {
    join(qualified_names(columns), ", "@)
}

/// The list after `FROM`.
pub open spec fn from_clause(columns: Seq<TableColumn>) -> Seq<char> {
    join(from_tables(columns), ", "@)
}

/// The conjunction after `WHERE`.
pub open spec fn where_clause(conditionals: Seq<Conditional>) -> Seq<char> {
    join(conditional_texts(conditionals), " AND "@)
}

/// The whole statement. A `WHERE` clause is written exactly when there is at
/// least one predicate.
pub open spec fn select_text(columns: Seq<TableColumn>, conditionals: Seq<Conditional>) -> Seq<
    char,
> {
    if conditionals.len() == 0 {
        "SELECT "@ + select_clause(columns) + " FROM "@ + from_clause(columns)
    } else {
        "SELECT "@ + select_clause(columns) + " FROM "@ + from_clause(columns) + " WHERE "@
            + where_clause(conditionals)
    }
}

/// Whether one of the strings has the same text as `t`.
fn holds_text(seen: &Vec<&str>, t: &str) -> (r: bool)
    ensures
        r == seen@.map_values(|s: &str| s@).contains(t@),
{
    let mut i: usize = 0;
    while i < seen.len()
        invariant
            i <= seen@.len(),
            forall|k: int| 0 <= k < i ==> seen@[k]@ != t@,
        decreases seen@.len() - i,
    {
        if same_text(seen[i], t) {
            assert(seen@.map_values(|s: &str| s@)[i as int] == t@);
            return true;
        }
        i += 1;
    }
    false
}

/// The `FROM` list: each owning table once, in order of first occurrence,
/// separated by `", "`.
pub fn get_tables_from_columns(columns: &[TableColumn]) -> (r: String)
    ensures
        r@ == from_clause(columns@),
{
    let mut tables = String::new();
    let mut used: Vec<&str> = Vec::new();
    let mut i: usize = 0;
    while i < columns.len()
        invariant
            i <= columns@.len(),
            used@.map_values(|s: &str| s@) == first_occurrences(
                table_names(columns@).take(i as int),
            ),
            tables@ == join(used@.map_values(|s: &str| s@), ", "@),
        decreases columns@.len() - i,
    {
        let ghost before = used@.map_values(|s: &str| s@);
        let t = columns[i].as_table();
        proof {
            assert(table_names(columns@).take(i + 1).drop_last() =~= table_names(columns@).take(
                i as int,
            ));
            assert(table_names(columns@).take(i + 1).last() == t@);
        }
        if !holds_text(&used, t) {
            if used.len() > 0 {
                tables.append(", ");
            }
            tables.append(t);
            used.push(t);
            proof {
                assert(used@.map_values(|s: &str| s@) =~= before.push(t@));
                assert(used@.map_values(|s: &str| s@).drop_last() =~= before);
            }
        }
        i += 1;
    }
    proof {
        assert(table_names(columns@).take(columns@.len() as int) =~= table_names(columns@));
    }
    tables
}

/// Joins the texts of the predicates with `" AND "`.
fn conditionals_text(conditionals: &[Conditional]) -> (r: String)
    ensures
        r@ == where_clause(conditionals@),
{
    let mut out = String::new();
    let mut i: usize = 0;
    while i < conditionals.len()
        invariant
            i <= conditionals@.len(),
            out@ == join(conditional_texts(conditionals@).take(i as int), " AND "@),
        decreases conditionals@.len() - i,
    {
        if i > 0 {
            out.append(" AND ");
        }
        let c = conditionals[i].to_string();
        out.append(c.as_str());
        proof {
            assert(conditional_texts(conditionals@).take(i + 1).drop_last()
                =~= conditional_texts(conditionals@).take(i as int));
        }
        i += 1;
    }
    proof {
        assert(conditional_texts(conditionals@).take(conditionals@.len() as int)
            =~= conditional_texts(conditionals@));
    }
    out
}

/// Joins the qualified names of the columns with `", "`.
fn columns_text(columns: &[TableColumn]) -> (r: String)
    ensures
        r@ == select_clause(columns@),
{
    let mut out = String::new();
    let mut i: usize = 0;
    while i < columns.len()
        invariant
            i <= columns@.len(),
            out@ == join(qualified_names(columns@).take(i as int), ", "@),
        decreases columns@.len() - i,
    {
        if i > 0 {
            out.append(", ");
        }
        let c = columns[i].to_string();
        out.append(c.as_str());
        proof {
            assert(qualified_names(columns@).take(i + 1).drop_last() =~= qualified_names(
                columns@,
            ).take(i as int));
        }
        i += 1;
    }
    proof {
        assert(qualified_names(columns@).take(columns@.len() as int) =~= qualified_names(columns@));
    }
    out
}

/// Builds `SELECT <columns> FROM <tables> [WHERE <predicates>]`.
///
/// Columns keep their order and are never merged; tables appear once each, in
/// the order in which the columns first name them; predicates are joined with
/// `AND`, and the `WHERE` clause is left out when there are none. Literals are
/// written as they are, with no escaping, and an empty column list gives an
/// empty list after `SELECT`.
pub fn select(columns: &[TableColumn], conditionals: &[Conditional]) -> (r: String)
    ensures
        r@ == select_text(columns@, conditionals@),
        conditionals@.len() == 0 ==> r@ == "SELECT "@ + select_clause(columns@) + " FROM "@
            + from_clause(columns@),
        conditionals@.len() > 0 ==> r@ == "SELECT "@ + select_clause(columns@) + " FROM "@
            + from_clause(columns@) + " WHERE "@ + where_clause(conditionals@),
{
    let mut query = String::from_str("SELECT ");
    let cols = columns_text(columns);
    query.append(cols.as_str());
    query.append(" FROM ");
    let tables = get_tables_from_columns(columns);
    query.append(tables.as_str());
    if conditionals.len() > 0 {
        query.append(" WHERE ");
        let conds = conditionals_text(conditionals);
        query.append(conds.as_str());
    }
    query
}

/// The `FROM` list names each owning table exactly once and no other table,
/// in the order in which the columns first name the tables: whenever the
/// first `n` columns name a table of the list, they also name every table
/// that stands before it in the list.
pub proof fn lemma_from_tables_first_occurrence(columns: Seq<TableColumn>)
    ensures
        from_tables(columns).no_duplicates(),
        forall|t: Seq<char>|
            #![trigger from_tables(columns).contains(t)]
            #![trigger table_names(columns).contains(t)]
            from_tables(columns).contains(t) <==> table_names(columns).contains(t),
        forall|i: int, j: int, n: int|
            0 <= i < j < from_tables(columns).len() && 0 <= n <= columns.len()
                && #[trigger] table_names(columns).take(n).contains(from_tables(columns)[j])
                ==> table_names(columns).take(n).contains(#[trigger] from_tables(columns)[i]),
{
    lemma_first_occurrences(table_names(columns));
}

proof fn lemma_first_occurrences(s: Seq<Seq<char>>)
    ensures
        first_occurrences(s).no_duplicates(),
        forall|t: Seq<char>|
            #![trigger first_occurrences(s).contains(t)]
            #![trigger s.contains(t)]
            first_occurrences(s).contains(t) <==> s.contains(t),
        forall|i: int, j: int, n: int|
            0 <= i < j < first_occurrences(s).len() && 0 <= n <= s.len()
                && #[trigger] s.take(n).contains(first_occurrences(s)[j])
                ==> s.take(n).contains(#[trigger] first_occurrences(s)[i]),
    decreases s.len(),
{
    if s.len() > 0 {
        let p = s.drop_last();
        let x = s.last();
        let dp = first_occurrences(p);
        let d = first_occurrences(s);
        lemma_first_occurrences(p);
        assert(s =~= p.push(x));
        assert(d.contains(x)) by {
            if !dp.contains(x) {
                assert(d[dp.len() as int] == x);
            }
        }
        assert forall|t: Seq<char>| d.contains(t) <==> s.contains(t) by {
            if s.contains(t) {
                let k = choose|k: int| 0 <= k < s.len() && s[k] == t;
                if k < p.len() {
                    assert(p[k] == t);
                    assert(dp.contains(t));
                    let m = choose|m: int| 0 <= m < dp.len() && dp[m] == t;
                    assert(d[m] == t);
                }
            }
            if d.contains(t) {
                let m = choose|m: int| 0 <= m < d.len() && d[m] == t;
                if m < dp.len() {
                    assert(dp[m] == t);
                    assert(p.contains(t));
                    let k = choose|k: int| 0 <= k < p.len() && p[k] == t;
                    assert(s[k] == t);
                } else {
                    assert(t == x);
                    assert(s[s.len() - 1] == t);
                }
            }
        }
        assert forall|i: int, j: int, n: int|
            0 <= i < j < d.len() && 0 <= n <= s.len() && #[trigger] s.take(n).contains(d[j])
            implies s.take(n).contains(#[trigger] d[i]) by {
            if n == s.len() {
                assert(s.take(n) =~= s);
                assert(d.contains(d[i]));
            } else {
                assert(s.take(n) =~= p.take(n));
                if j < dp.len() {
                    assert(d[i] == dp[i]);
                    assert(d[j] == dp[j]);
                } else {
                    assert(d[j] == x);
                    assert(!dp.contains(x));
                    let k = choose|k: int| 0 <= k < n && p.take(n)[k] == x;
                    assert(p[k] == x);
                    assert(p.contains(x));
                }
            }
        }
    }
}

/// Building the statement twice from equal inputs gives the same text.
pub proof fn lemma_select_deterministic(
    columns1: Seq<TableColumn>,
    conditionals1: Seq<Conditional>,
    columns2: Seq<TableColumn>,
    conditionals2: Seq<Conditional>,
)
    requires
        columns1 == columns2,
        conditionals1 == conditionals2,
    ensures
        select_text(columns1, conditionals1) == select_text(columns2, conditionals2),
{
}

} // verus!
