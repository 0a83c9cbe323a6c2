//! Properties that relate several operations of the library.
use crate::expr::{direction_sql, Direction, Field, Operand, Order, Predicate, PredicateView, ToSql};
use crate::insert::{row_bound, row_sql, rows_bound, rows_sql, values_of, Insert, Param};
use crate::query::{query_sql, Query, Table};
use vstd::prelude::*;

verus! {

/// Rendering a query is a function of the query alone: two renderings of one
/// query give the same text.
pub proof fn query_rendering_is_deterministic<C, R>(q: Query<C, R>, a: String, b: String)
    requires
        call_ensures(Query::<C, R>::to_sql, (&q,), a),
        call_ensures(Query::<C, R>::to_sql, (&q,), b),
    ensures
        a@ == b@,
{
}

/// Rendering an insert, and collecting its bound values, are functions of the
/// insert alone: doing either twice gives the same result.
pub proof fn insert_rendering_is_deterministic<C, R, V>(
    ins: Insert<C, R, V>,
    a: String,
    b: String,
    p: Vec<&V>,
    q: Vec<&V>,
)
    requires
        call_ensures(Insert::<C, R, V>::to_sql, (&ins,), a),
        call_ensures(Insert::<C, R, V>::to_sql, (&ins,), b),
        call_ensures(Insert::<C, R, V>::params, (&ins,), p),
        call_ensures(Insert::<C, R, V>::params, (&ins,), q),
    ensures
        a@ == b@,
        values_of(p@) == values_of(q@),
{
}

/// However deep the filters and sorts, a query's columns are those of the
/// table it was started from.
pub proof fn columns_survive_wrapping<C, R>(
    q: Query<C, R>,
    table: Table<C, R>,
    predicate: Predicate,
    order: Order,
)
    requires
        q.base() == table,
    ensures
        (Query::Where { query: Box::new(q), predicate }).base().columns == table.columns,
        (Query::Order { query: Box::new(q), order }).base().columns == table.columns,
{
}

/// Filtering a table scan by `field = value` renders as
/// `select * from (select * from <table>) t where <field> = <value>`.
pub proof fn filter_rendering<C, R, T: ToSql>(
    q: Query<C, R>,
    table: Table<C, R>,
    field: Field<T>,
    value: T,
)
    requires
        q matches Query::Where { query, predicate } && *query == (Query::Table { table })
            && predicate@ == PredicateView::Eq(
            Operand::Column(field.name@),
            Operand::Literal(value.sql()),
        ),
    ensures
        query_sql(&q) == "select * from (select * from "@ + table.name@ + ") t where "@
            + field.name@ + " = "@ + value.sql(),
{
    reveal_strlit("select * from (");
    reveal_strlit("select * from ");
    reveal_strlit("select * from (select * from ");
    let inner = Query::<C, R>::Table { table };
    assert(query_sql(&inner) == "select * from "@ + table.name@);
    let pre = "select * from ("@ + ("select * from "@ + table.name@);
    assert(pre =~= "select * from (select * from "@ + table.name@);
    assert(query_sql(&q) =~= "select * from (select * from "@ + table.name@ + ") t where "@
        + field.name@ + " = "@ + value.sql());
}

/// Sorting a table scan by a column renders as
/// `select * from (select * from <table>) t order by <field> asc` (or `desc`).
pub proof fn sort_rendering<C, R, T>(
    q: Query<C, R>,
    table: Table<C, R>,
    field: Field<T>,
    direction: Direction,
)
    requires
        q matches Query::Order { query, order } && *query == (Query::Table { table })
            && order.by@ == Operand::Column(field.name@) && order.direction == direction,
    ensures
        query_sql(&q) == "select * from (select * from "@ + table.name@ + ") t order by "@
            + field.name@ + " "@ + direction_sql(direction),
        direction == Direction::Ascending ==> direction_sql(direction) == "asc"@,
        direction == Direction::Descending ==> direction_sql(direction) == "desc"@,
{
    reveal_strlit("select * from (");
    reveal_strlit("select * from ");
    reveal_strlit("select * from (select * from ");
    let inner = Query::<C, R>::Table { table };
    assert(query_sql(&inner) == "select * from "@ + table.name@);
    let pre = "select * from ("@ + ("select * from "@ + table.name@);
    assert(pre =~= "select * from (select * from "@ + table.name@);
    assert(query_sql(&q) =~= "select * from (select * from "@ + table.name@ + ") t order by "@
        + field.name@ + " "@ + direction_sql(direction));
}

/// Whether a slot binds a value.
pub open spec fn binds<V>() -> spec_fn(Param<V>) -> bool {
    |p: Param<V>| p.0 is Value
}

/// The number of slots, over all rows, that bind a value.
pub open spec fn bound_slot_count<V>(rows: Seq<Seq<Param<V>>>) -> nat
    decreases rows.len(),
{
    if rows.len() == 0 {
        0
    } else {
        bound_slot_count(rows.drop_last()) + rows.last().filter(binds()).len()
    }
}

/// The marker number of the slot at `(i, j)`: one more than the number of
/// binding slots before it, row after row and within a row column after
/// column.
pub open spec fn marker_number<V>(rows: Seq<Seq<Param<V>>>, i: int, j: int) -> nat {
    1 + rows_bound(rows.take(i)).len() + row_bound(rows[i].take(j)).len()
}

proof fn row_bound_len<V>(row: Seq<Param<V>>)
    ensures
        row_bound(row).len() == row.filter(binds()).len(),
    decreases row.len(),
{
    reveal(Seq::filter);
    if row.len() > 0 {
        row_bound_len(row.drop_last());
    }
}

proof fn row_bound_prefix<V>(row: Seq<Param<V>>, k: int)
    requires
        0 <= k <= row.len(),
    ensures
        row_bound(row.take(k)).len() <= row_bound(row).len(),
        forall|n: int|
            0 <= n < row_bound(row.take(k)).len() ==> row_bound(row.take(k))[n] == row_bound(
                row,
            )[n],
    decreases row.len(),
{
    if k == row.len() {
        assert(row.take(k) =~= row);
    } else {
        assert(row.take(k) =~= row.drop_last().take(k));
        row_bound_prefix(row.drop_last(), k);
    }
}

proof fn rows_bound_prefix<V>(rows: Seq<Seq<Param<V>>>, k: int)
    requires
        0 <= k <= rows.len(),
    ensures
        rows_bound(rows.take(k)).len() <= rows_bound(rows).len(),
        forall|n: int|
            0 <= n < rows_bound(rows.take(k)).len() ==> rows_bound(rows.take(k))[n] == rows_bound(
                rows,
            )[n],
    decreases rows.len(),
{
    if k == rows.len() {
        assert(rows.take(k) =~= rows);
    } else {
        assert(rows.take(k) =~= rows.drop_last().take(k));
        rows_bound_prefix(rows.drop_last(), k);
    }
}

/// The values bound to an insert are exactly as many as its slots that are
/// not the default, over all rows.
pub proof fn bound_values_skip_defaults<V>(rows: Seq<Seq<Param<V>>>)
    ensures
        rows_bound(rows).len() == bound_slot_count(rows),
    decreases rows.len(),
{
    if rows.len() > 0 {
        bound_values_skip_defaults(rows.drop_last());
        row_bound_len(rows.last());
    }
}

/// The marker of each binding slot names the bound value of that slot: the
/// numbering of markers and the order of bound values walk the slots in the
/// same order, row after row and column after column.
pub proof fn markers_name_bound_values<V>(rows: Seq<Seq<Param<V>>>, i: int, j: int)
    requires
        0 <= i < rows.len(),
        0 <= j < rows[i].len(),
        rows[i][j].0 is Value,
    ensures
        marker_number(rows, i, j) <= rows_bound(rows).len(),
        rows_bound(rows)[marker_number(rows, i, j) - 1] == rows[i][j].0->Value_0,
{
    let row = rows[i];
    assert(row.take(j + 1).drop_last() =~= row.take(j));
    assert(row.take(j + 1).last() == row[j]);
    let n = row_bound(row.take(j)).len();
    assert(row_bound(row.take(j + 1))[n as int] == row[j].0->Value_0);
    row_bound_prefix(row, j + 1);
    assert(rows.take(i + 1).drop_last() =~= rows.take(i));
    assert(rows.take(i + 1).last() == row);
    let m = rows_bound(rows.take(i)).len();
    assert(rows_bound(rows.take(i + 1))[(m + n) as int] == row[j].0->Value_0);
    rows_bound_prefix(rows, i + 1);
}

/// Appending a row appends its slots to the text, numbered on from the
/// values bound by the earlier rows, and appends its values to those bound.
pub proof fn appended_row_continues_numbering<V>(rows: Seq<Seq<Param<V>>>, row: Seq<Param<V>>)
    ensures
        rows_sql(rows.push(row)) == rows_sql(rows) + (if rows.len() > 0 {
            ", "@
        } else {
            Seq::empty()
        }) + "("@ + row_sql(row, 1 + rows_bound(rows).len()) + ")"@,
        rows_bound(rows.push(row)) == rows_bound(rows) + row_bound(row),
{
    assert(rows.push(row).drop_last() =~= rows);
}

} // verus!
