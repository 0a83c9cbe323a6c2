//! Multi-row `insert` statements whose slots are bound parameters or the
//! column default.
use crate::expr::ToSql;
use crate::query::Table;
use crate::text::{decimal, push_decimal};
use vstd::prelude::*;

verus! {

/// A value, or the column's default in its place.
pub enum WithDefault<T> {
    Value(T),
    Default,
}

/// Tells whether a value stands for the column default.
pub trait IsDefault {
    spec fn is_default_spec(&self) -> bool;

    fn is_default(&self) -> (r: bool)
        ensures
            r == self.is_default_spec(),
    ;
}

impl<T> IsDefault for WithDefault<T> {
    open spec fn is_default_spec(&self) -> bool {
        self is Default
    }

    fn is_default(&self) -> (r: bool) {
        match self {
            WithDefault::Value(_) => false,
            WithDefault::Default => true,
        }
    }
}

/// A string is never the default.
impl IsDefault for String {
    open spec fn is_default_spec(&self) -> bool {
        false
    }

    fn is_default(&self) -> (r: bool) {
        false
    }
}

/// An option is never the default: `None` is an explicit null.
impl<T> IsDefault for Option<T> {
    open spec fn is_default_spec(&self) -> bool {
        false
    }

    fn is_default(&self) -> (r: bool) {
        false
    }
}

/// One slot of an inserted row: a value of type `V` to bind, or the column
/// default.
pub struct Param<V>(pub WithDefault<V>);

impl<V> IsDefault for Param<V> {
    open spec fn is_default_spec(&self) -> bool {
        self.0 is Default
    }

    fn is_default(&self) -> (r: bool) {
        self.0.is_default()
    }
}

impl<V> Param<V> {
    /// A slot bound to `value`.
    pub fn value(value: V) -> (r: Param<V>)
        ensures
            r.0 == WithDefault::Value(value),
    {
        Param(WithDefault::Value(value))
    }

    /// A slot that takes the column default.
    pub fn use_default() -> (r: Param<V>)
        ensures
            r.0 is Default,
    {
        Param(WithDefault::Default)
    }
}

/// Turns a row value into one slot per column, in the table's column order.
pub trait ToSqlParams<V> {
    /// The slots that the row value turns into. Implementations state it;
    /// the default is for rows with no slots.
    open spec fn params_spec(&self) -> Seq<Param<V>> {
        Seq::empty()
    }

    fn to_sql_params(self) -> (r: Vec<Param<V>>)
        ensures
            r@ == self.params_spec(),
    ;
}

/// A row given directly as its slots.
impl<V> ToSqlParams<V> for Vec<Param<V>> {
    open spec fn params_spec(&self) -> Seq<Param<V>> {
        self@
    }

    fn to_sql_params(self) -> (r: Vec<Param<V>>) {
        self
    }
}

/// The values bound by a row, in column order; default slots bind nothing.
pub open spec fn row_bound<V>(row: Seq<Param<V>>) -> Seq<V>
    decreases row.len(),
{
    if row.len() == 0 {
        Seq::empty()
    } else {
        let p = row.last();
        row_bound(row.drop_last()) + match p.0 {
            WithDefault::Value(v) => seq![v],
            WithDefault::Default => Seq::empty(),
        }
    }
}

/// The values bound by rows, row after row.
pub open spec fn rows_bound<V>(rows: Seq<Seq<Param<V>>>) -> Seq<V>
    decreases rows.len(),
{
    if rows.len() == 0 {
        Seq::empty()
    } else {
        rows_bound(rows.drop_last()) + row_bound(rows.last())
    }
}

/// The text of one slot: `default`, or the marker `$n`.
pub open spec fn slot_sql<V>(p: Param<V>, n: nat) -> Seq<char> {
    if p.0 is Default {
        "default"@
    } else {
        "$"@ + decimal(n)
    }
}

/// The comma-separated slots of a row whose first bound slot is numbered
/// `first`.
pub open spec fn row_sql<V>(row: Seq<Param<V>>, first: nat) -> Seq<char>
    decreases row.len(),
{
    if row.len() == 0 {
        Seq::empty()
    } else {
        let prev = row.drop_last();
        row_sql(prev, first) + (if prev.len() > 0 {
            ", "@
        } else {
            Seq::empty()
        }) + slot_sql(row.last(), first + row_bound(prev).len())
    }
}

/// The comma-separated, parenthesised rows, numbered from `$1` on.
pub open spec fn rows_sql<V>(rows: Seq<Seq<Param<V>>>) -> Seq<char>
    decreases rows.len(),
{
    if rows.len() == 0 {
        Seq::empty()
    } else {
        let prev = rows.drop_last();
        rows_sql(prev) + (if prev.len() > 0 {
            ", "@
        } else {
            Seq::empty()
        }) + "("@ + row_sql(rows.last(), 1 + rows_bound(prev).len()) + ")"@
    }
}

/// The values that a sequence of references points to.
pub open spec fn values_of<V>(s: Seq<&V>) -> Seq<V> {
    Seq::new(s.len(), |k: int| *s[k])
}

/// The rows of an insert, each a sequence of slots.
pub struct InsertParams<V>(pub Vec<Vec<Param<V>>>);

impl<V> InsertParams<V> {
    pub open spec fn rows(&self) -> Seq<Seq<Param<V>>> {
        self.0@.map_values(|r: Vec<Param<V>>| r@)
    }

    /// The slots' text and the values to bind, in one row-major pass, so
    /// that the `n`-th marker always names the `n`-th bound value.
    pub fn render(&self) -> (r: (String, Vec<&V>))
        ensures
            r.0@ == rows_sql(self.rows()),
            values_of(r.1@) == rows_bound(self.rows()),
    {
        let rows = &self.0;
        let ghost all = self.rows();
        let mut sql = String::new();
        let mut bound: Vec<&V> = Vec::new();
        let mut i: usize = 0;
        while i < rows.len()
            invariant
                i <= rows.len(),
                all == self.rows(),
                rows == &self.0,
                sql@ == rows_sql(all.take(i as int)),
                values_of(bound@) == rows_bound(all.take(i as int)),
            decreases rows.len() - i,
        {
            let ghost sql0 = sql@;
            let ghost prev = all.take(i as int);
            if i > 0 {
                sql.append(", ");
            }
            sql.append("(");
            let ghost head = sql@;
            let row = &rows[i];
            let ghost first: nat = 1 + rows_bound(prev).len();
            let mut j: usize = 0;
            while j < row.len()
                invariant
                    j <= row.len(),
                    row == &rows[i as int],
                    all == self.rows(),
                    rows == &self.0,
                    i < rows.len(),
                    prev == all.take(i as int),
                    first == 1 + rows_bound(prev).len(),
                    sql@ == head + row_sql(row@.take(j as int), first),
                    values_of(bound@) == rows_bound(prev) + row_bound(
                        row@.take(j as int),
                    ),
                decreases row.len() - j,
            {
                let ghost before = row@.take(j as int);
                assert(row@.take(j as int + 1).drop_last() == before);
                if j > 0 {
                    sql.append(", ");
                }
                let p = &row[j];
                match &p.0 {
                    WithDefault::Value(v) => {
                        let ghost b0 = bound@;
                        bound.push(v);
                        assert(values_of(bound@) =~= values_of(b0).push(*v));
                        sql.append("$");
                        let n = bound.len();
                        assert(values_of(bound@) =~= rows_bound(prev) + row_bound(
                            before,
                        ).push(*v));
                        push_decimal(&mut sql, n as u64);
                    },
                    WithDefault::Default => {
                        sql.append("default");
                    },
                }
                j += 1;
                assert(values_of(bound@) == rows_bound(prev) + row_bound(
                    row@.take(j as int),
                ));
                assert(sql@ == head + row_sql(row@.take(j as int), first));
            }
            sql.append(")");
            assert(row@.take(j as int) == row@);
            assert(all.take(i as int + 1).drop_last() == prev);
            assert(all[i as int] == row@);
            i += 1;
            assert(sql@ == rows_sql(all.take(i as int)));
            assert(values_of(bound@) == rows_bound(all.take(i as int)));
        }
        assert(all.take(i as int) == all);
        (sql, bound)
    }
}

impl<V> ToSql for InsertParams<V> {
    open spec fn sql(&self) -> Seq<char> {
        rows_sql(self.rows())
    }

    fn to_sql(&self) -> (r: String) {
        let (sql, _) = self.render();
        sql
    }
}

/// A pending multi-row insert into a table.
pub struct Insert<C, R, V> {
    pub table: Table<C, R>,
    pub values: InsertParams<V>,
}

/// Begins an insert into `table`, with no rows yet.
pub fn insert_into<C, R, V>(table: Table<C, R>) -> (r: Insert<C, R, V>)
    ensures
        r.table == table,
        r.values.rows() == Seq::<Seq<Param<V>>>::empty(),
{
    let r = Insert { table, values: InsertParams(Vec::new()) };
    assert(r.values.rows() =~= Seq::<Seq<Param<V>>>::empty());
    r
}

/// The SQL text of an insert into the table named `name`.
pub open spec fn insert_sql<V>(name: Seq<char>, rows: Seq<Seq<Param<V>>>) -> Seq<char> {
    "insert into "@ + name + " values "@ + rows_sql(rows)
}

impl<C, R, V> Insert<C, R, V> {
    /// Adds one row, the slots that `v` turns into.
    pub fn values<T: ToSqlParams<V>>(self, v: T) -> (r: Self)
        ensures
            r.table == self.table,
            r.values.rows() == self.values.rows().push(v.params_spec()),
    {
        let row = v.to_sql_params();
        self.with_row(row)
    }

    /// Adds one row of slots.
    pub fn with_row(self, row: Vec<Param<V>>) -> (r: Self)
        ensures
            r.table == self.table,
            r.values.rows() == self.values.rows().push(row@),
    {
        let ghost old_rows = self.values.rows();
        let Insert { table, values } = self;
        let InsertParams(mut rows) = values;
        rows.push(row);
        let r = Insert { table, values: InsertParams(rows) };
        assert(r.values.rows() =~= old_rows.push(row@));
        r
    }

    /// The values to bind, row after row and within a row in column order;
    /// default slots bind nothing.
    pub fn params(&self) -> (r: Vec<&V>)
        ensures
            values_of(r@) == rows_bound(self.values.rows()),
    {
        let (_, bound) = self.values.render();
        bound
    }
}

impl<C, R, V> ToSql for Insert<C, R, V> {
    open spec fn sql(&self) -> Seq<char> {
        insert_sql(self.table.name@, self.values.rows())
    }

    fn to_sql(&self) -> (r: String) {
        let mut s = String::from_str("insert into ");
        s.append(self.table.name);
        s.append(" values ");
        let rows = self.values.to_sql();
        s.append(rows.as_str());
        s
    }
}

} // verus!
