//! Tables and the `select` expression tree built over them.
use crate::expr::{order_sql, predicate_sql, Order, Predicate, ToSql};
use std::marker::PhantomData;
use vstd::prelude::*;

verus! {

/// A named relation whose columns are described by the record `C` and whose
/// rows read as `R`.
pub struct Table<C, R> {
    pub name: &'static str,
    pub columns: C,
    pub phantom: PhantomData<R>,
}

impl<C, R> ToSql for Table<C, R> {
    open spec fn sql(&self) -> Seq<char> {
        self.name@
    }

    fn to_sql(&self) -> (r: String) {
        String::from_str(self.name)
    }
}

/// A `select` statement: a table scan, wrapped by any number of filters and
/// sorts.
pub enum Query<C, R> {
    Table { table: Table<C, R> },
    Where { query: Box<Query<C, R>>, predicate: Predicate },
    Order { query: Box<Query<C, R>>, order: Order },
}

/// Builds the scan of a whole table.
pub fn from<C, R>(table: Table<C, R>) -> (r: Query<C, R>)
    ensures
        r == (Query::Table { table }),
{
    Query::Table { table }
}

impl<C, R> Query<C, R> {
    /// The table at the bottom of the tree.
    pub open spec fn base(&self) -> &Table<C, R>
        decreases self,
    {
        match self {
            Query::Table { table } => table,
            Query::Where { query, predicate: _ } => query.base(),
            Query::Order { query, order: _ } => query.base(),
        }
    }

    /// The column record of the table at the bottom of the tree.
    pub fn columns(&self) -> (r: &C)
        ensures
            r == &self.base().columns,
        decreases self,
    {
        match self {
            Query::Table { table } => &table.columns,
            Query::Where { query, predicate: _ } => query.columns(),
            Query::Order { query, order: _ } => query.columns(),
        }
    }

    /// Filters the query by the predicate that `condition` builds from its
    /// columns.
    pub fn where_<F>(self, condition: F) -> (r: Query<C, R>)
        where
            F: FnOnce(&C) -> Predicate,
        requires
            condition.requires((&self.base().columns,)),
        ensures
            r.base() == self.base(),
            r matches Query::Where { query, predicate } && *query == self && condition.ensures(
                (&self.base().columns,),
                predicate,
            ),
    {
        let predicate = condition(self.columns());
        Query::Where { query: Box::new(self), predicate }
    }

    /// Sorts the query by the key that `make_order` builds from its columns.
    pub fn order_by<F>(self, make_order: F) -> (r: Query<C, R>)
        where
            F: FnOnce(&C) -> Order,
        requires
            make_order.requires((&self.base().columns,)),
        ensures
            r.base() == self.base(),
            r matches Query::Order { query, order } && *query == self && make_order.ensures(
                (&self.base().columns,),
                order,
            ),
    {
        let order = make_order(self.columns());
        Query::Order { query: Box::new(self), order }
    }

    /// Filters the query by `predicate`.
    pub fn filter(self, predicate: Predicate) -> (r: Query<C, R>)
        ensures
            r == (Query::Where { query: Box::new(self), predicate }),
            r.base() == self.base(),
    {
        Query::Where { query: Box::new(self), predicate }
    }

    /// Sorts the query by `order`.
    pub fn sort(self, order: Order) -> (r: Query<C, R>)
        ensures
            r == (Query::Order { query: Box::new(self), order }),
            r.base() == self.base(),
    {
        Query::Order { query: Box::new(self), order }
    }
}

/// The SQL text of a query: each filter or sort wraps the text of the query
/// inside it as a derived table named `t`.
pub open spec fn query_sql<C, R>(q: &Query<C, R>) -> Seq<char>
    decreases q,
{
    match q {
        Query::Table { table } => "select * from "@ + table.name@,
        Query::Where { query, predicate } => "select * from ("@ + query_sql(query)
            + ") t where "@ + predicate_sql(predicate@),
        Query::Order { query, order } => "select * from ("@ + query_sql(query) + ") t order by "@
            + order_sql(order.by@, order.direction),
    }
}

impl<C, R> ToSql for Query<C, R> {
    open spec fn sql(&self) -> Seq<char> {
        query_sql(self)
    }

    fn to_sql(&self) -> (r: String)
        decreases self,
    {
        match self {
            Query::Table { table } => {
                let mut s = String::from_str("select * from ");
                s.append(table.name);
                s
            },
            Query::Where { query, predicate } => {
                let mut s = String::from_str("select * from (");
                let inner = query.to_sql();
                s.append(inner.as_str());
                s.append(") t where ");
                let p = predicate.to_sql();
                s.append(p.as_str());
                s
            },
            Query::Order { query, order } => {
                let mut s = String::from_str("select * from (");
                let inner = query.to_sql();
                s.append(inner.as_str());
                s.append(") t order by ");
                let o = order.to_sql();
                s.append(o.as_str());
                s
            },
        }
    }
}

} // verus!
