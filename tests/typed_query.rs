use std::marker::PhantomData;
use todo_rust::expr::{asc, desc, Constant, Direction, Field, FieldLike, Predicate, SomeField, ToSql};
use todo_rust::insert::{insert_into, IsDefault, Param, ToSqlParams, WithDefault};
use todo_rust::query::{from, Query, Table};
use todo_rust::text::{i64_to_text, u64_to_text};

struct TodoColumns {
    id: Field<i32>,
    name: Field<String>,
    created_time: Field<i64>,
    completed: Field<bool>,
    completed_time: Field<i64>,
}

struct TodoRecord;

fn field<T>(name: &'static str) -> Field<T> {
    Field { name, phantom: PhantomData }
}

fn todo_table() -> Table<TodoColumns, TodoRecord> {
    Table {
        name: "todo",
        columns: TodoColumns {
            id: field("id"),
            name: field("name"),
            created_time: field("created_time"),
            completed: field("completed"),
            completed_time: field("completed_time"),
        },
        phantom: PhantomData,
    }
}

struct ThreeColumns;

fn three_table() -> Table<ThreeColumns, ()> {
    Table { name: "t", columns: ThreeColumns, phantom: PhantomData }
}

#[test]
fn table_scan_renders_select_star() {
    let q = from(todo_table());
    assert_eq!(q.to_sql(), "select * from todo");
}

#[test]
fn where_constant_false_renders_derived_table() {
    let q = from(todo_table()).where_(|c| c.completed.clone().eq(Constant { value: false }));
    assert_eq!(q.to_sql(), "select * from (select * from todo) t where completed = false");
}

#[test]
fn where_between_two_columns() {
    let q = from(todo_table()).where_(|c| c.created_time.clone().eq(field::<i64>("completed_time")));
    assert_eq!(
        q.to_sql(),
        "select * from (select * from todo) t where created_time = completed_time"
    );
}

#[test]
fn where_integer_and_string_constants() {
    let q = from(todo_table()).where_(|c| c.id.clone().eq(Constant { value: -42 }));
    assert_eq!(q.to_sql(), "select * from (select * from todo) t where id = -42");
    let q = from(todo_table())
        .where_(|c| c.name.clone().eq(Constant { value: "buy milk".to_string() }));
    assert_eq!(q.to_sql(), "select * from (select * from todo) t where name = buy milk");
}

#[test]
fn order_by_ascending() {
    let q = from(todo_table()).order_by(|c| asc(&c.created_time));
    assert_eq!(q.to_sql(), "select * from (select * from todo) t order by created_time asc");
}

#[test]
fn order_by_descending() {
    let q = from(todo_table()).order_by(|c| desc(&c.id));
    assert_eq!(q.to_sql(), "select * from (select * from todo) t order by id desc");
}

#[test]
fn order_by_twice_nests_two_sorts() {
    let q = from(todo_table())
        .order_by(|c| asc(&c.id))
        .order_by(|c| desc(&c.created_time));
    assert_eq!(
        q.to_sql(),
        "select * from (select * from (select * from todo) t order by id asc) t order by created_time desc"
    );
}

#[test]
fn todo_list_query() {
    let q = from(todo_table())
        .where_(|t| t.completed.clone().eq(Constant { value: false }))
        .order_by(|t| asc(&t.created_time));
    assert_eq!(
        q.to_sql(),
        "select * from (select * from (select * from todo) t where completed = false) t order by created_time asc"
    );
}

#[test]
fn columns_survive_filters_and_sorts() {
    let q = from(todo_table())
        .where_(|t| t.completed.clone().eq(Constant { value: true }))
        .order_by(|t| desc(&t.id))
        .where_(|t| t.id.clone().eq(Constant { value: 7 }));
    let c = q.columns();
    assert_eq!(c.id.name, "id");
    assert_eq!(c.name.name, "name");
    assert_eq!(c.created_time.name, "created_time");
    assert_eq!(c.completed.name, "completed");
    assert_eq!(c.completed_time.name, "completed_time");
}

#[test]
fn filter_and_sort_take_built_values() {
    let p = todo_table().columns.completed.eq(Constant { value: true });
    let q = from(todo_table()).filter(p).sort(asc(&field::<i32>("id")));
    assert_eq!(
        q.to_sql(),
        "select * from (select * from (select * from todo) t where completed = true) t order by id asc"
    );
    assert!(matches!(q, Query::Order { .. }));
}

#[test]
fn rendering_twice_gives_the_same_text() {
    let q = from(todo_table())
        .where_(|t| t.completed.clone().eq(Constant { value: false }))
        .order_by(|t| asc(&t.created_time));
    assert_eq!(q.to_sql(), q.to_sql());
    let ins = insert_into::<_, _, i32>(three_table())
        .with_row(vec![Param::value(1), Param::use_default(), Param::value(3)]);
    assert_eq!(ins.to_sql(), ins.to_sql());
    assert_eq!(ins.params(), ins.params());
}

#[test]
fn predicate_and_order_render_alone() {
    let p = field::<bool>("completed").eq(Constant { value: false });
    assert_eq!(p.to_sql(), "completed = false");
    assert!(matches!(p, Predicate::Eq { .. }));
    let o = desc(&Constant { value: 3i32 });
    assert_eq!(o.to_sql(), "3 desc");
    assert_eq!(Direction::Ascending.to_sql(), "asc");
    assert_eq!(Direction::Descending.to_sql(), "desc");
    assert_eq!(field::<i32>("id").to_sql(), "id");
    assert_eq!(Constant { value: true }.to_sql(), "true");
    assert_eq!(todo_table().to_sql(), "todo");
}

#[test]
fn field_like_copies_the_operand() {
    let f = field::<i32>("id");
    assert!(matches!(f.field_like(), FieldLike::Column(c) if c.name == "id"));
    let k = Constant { value: 12i64 };
    assert!(matches!(SomeField::<i64>::field_like(&k), FieldLike::Literal(t) if t == "12"));
    let g = f.clone();
    assert_eq!(g.name, "id");
}

#[test]
fn insert_placeholders_skip_defaults() {
    let ins = insert_into::<_, _, i32>(three_table())
        .with_row(vec![Param::value(1), Param::use_default(), Param::value(3)])
        .with_row(vec![Param::use_default(), Param::value(5), Param::value(6)]);
    assert_eq!(ins.to_sql(), "insert into t values ($1, default, $2), (default, $3, $4)");
    let bound: Vec<i32> = ins.params().into_iter().copied().collect();
    assert_eq!(bound, vec![1, 3, 5, 6]);
}

#[test]
fn bound_values_count_non_default_slots() {
    let ins = insert_into::<_, _, i32>(three_table())
        .with_row(vec![Param::use_default(), Param::use_default(), Param::use_default()])
        .with_row(vec![Param::value(8), Param::use_default(), Param::use_default()]);
    assert_eq!(ins.to_sql(), "insert into t values (default, default, default), ($1, default, default)");
    assert_eq!(ins.params().len(), 1);
    assert_eq!(*ins.params()[0], 8);
}

#[test]
fn insert_with_no_rows() {
    let ins = insert_into::<_, _, i32>(three_table());
    assert_eq!(ins.to_sql(), "insert into t values ");
    assert!(ins.params().is_empty());
}

#[test]
fn markers_reach_two_digits() {
    let mut row = Vec::new();
    for k in 0..12 {
        row.push(Param::value(k));
    }
    let ins = insert_into::<_, _, i32>(three_table()).with_row(row);
    assert_eq!(
        ins.to_sql(),
        "insert into t values ($1, $2, $3, $4, $5, $6, $7, $8, $9, $10, $11, $12)"
    );
    assert_eq!(ins.params().len(), 12);
    assert_eq!(*ins.params()[11], 11);
}

enum Value {
    Int(i32),
    Text(String),
}

struct NewTodo {
    name: String,
}

impl ToSqlParams<Value> for NewTodo {
    fn to_sql_params(self) -> Vec<Param<Value>> {
        vec![
            Param::use_default(),
            Param::value(Value::Text(self.name)),
            Param::use_default(),
            Param::use_default(),
            Param::use_default(),
        ]
    }
}

struct Pair(WithDefault<i32>, WithDefault<i32>);

impl ToSqlParams<Value> for Pair {
    fn to_sql_params(self) -> Vec<Param<Value>> {
        let f = |w: WithDefault<i32>| match w {
            WithDefault::Value(v) => Param::value(Value::Int(v)),
            WithDefault::Default => Param::use_default(),
        };
        vec![f(self.0), f(self.1)]
    }
}

#[test]
fn inserting_one_named_todo() {
    let ins = insert_into(todo_table()).values(NewTodo { name: "buy milk".to_string() });
    assert_eq!(ins.to_sql(), "insert into todo values (default, $1, default, default, default)");
    let bound = ins.params();
    assert_eq!(bound.len(), 1);
    assert!(matches!(bound[0], Value::Text(s) if s == "buy milk"));
}

#[test]
fn values_appends_rows_in_order() {
    let ins = insert_into(three_table())
        .values(Pair(WithDefault::Value(4), WithDefault::Default))
        .values(Pair(WithDefault::Default, WithDefault::Value(9)));
    assert_eq!(ins.to_sql(), "insert into t values ($1, default), (default, $2)");
    let bound: Vec<i32> = ins
        .params()
        .into_iter()
        .map(|v| match v {
            Value::Int(i) => *i,
            Value::Text(_) => -1,
        })
        .collect();
    assert_eq!(bound, vec![4, 9]);
}

#[test]
fn only_the_default_marker_is_default() {
    assert!(WithDefault::<i32>::Default.is_default());
    assert!(!WithDefault::Value(3).is_default());
    assert!(!"x".to_string().is_default());
    assert!(!None::<i32>.is_default());
    assert!(!Some(1).is_default());
    assert!(Param::<i32>::use_default().is_default());
    assert!(!Param::value(0).is_default());
}

#[test]
fn decimal_text_of_integers() {
    assert_eq!(u64_to_text(0), "0");
    assert_eq!(u64_to_text(1234567890), "1234567890");
    assert_eq!(u64_to_text(u64::MAX), "18446744073709551615");
    assert_eq!(i64_to_text(-7), "-7");
    assert_eq!(i64_to_text(i64::MIN), "-9223372036854775808");
    assert_eq!(i64_to_text(i64::MAX), "9223372036854775807");
    assert_eq!(Constant { value: i32::MIN }.to_sql(), "-2147483648");
}

#[test]
fn borrowed_field_is_an_operand() {
    let t = todo_table();
    let p = field::<i64>("created_time").eq(&t.columns.completed_time);
    assert_eq!(p.to_sql(), "created_time = completed_time");
    let o = asc(&&t.columns.id);
    assert_eq!(o.to_sql(), "id asc");
}

#[test]
fn more_literal_types_render() {
    assert_eq!(Constant { value: "done" }.to_sql(), "done");
    assert_eq!(Constant { value: 255u8 }.to_sql(), "255");
    assert_eq!(Constant { value: -128i8 }.to_sql(), "-128");
    assert_eq!(Constant { value: 65535u16 }.to_sql(), "65535");
    assert_eq!(Constant { value: -32768i16 }.to_sql(), "-32768");
    assert_eq!(Constant { value: 4000000000u32 }.to_sql(), "4000000000");
    assert_eq!(Constant { value: u64::MAX }.to_sql(), "18446744073709551615");
    let q = from(todo_table()).where_(|_c| field::<&str>("name").eq(Constant { value: "x" }));
    assert_eq!(q.to_sql(), "select * from (select * from todo) t where name = x");
    let _ = q.columns().id.name;
}

struct Triple(WithDefault<i32>, WithDefault<i32>, WithDefault<i32>);

impl ToSqlParams<i32> for Triple {
    fn to_sql_params(self) -> Vec<Param<i32>> {
        let f = |w: WithDefault<i32>| match w {
            WithDefault::Value(v) => Param::value(v),
            WithDefault::Default => Param::use_default(),
        };
        vec![f(self.0), f(self.1), f(self.2)]
    }
}

#[test]
fn values_rows_number_on_from_earlier_rows() {
    let ins = insert_into(Table { name: "nums", columns: ThreeColumns, phantom: PhantomData::<()> })
        .values(Triple(WithDefault::Value(1), WithDefault::Default, WithDefault::Value(3)))
        .values(Triple(WithDefault::Default, WithDefault::Value(5), WithDefault::Value(6)));
    assert_eq!(ins.to_sql(), "insert into nums values ($1, default, $2), (default, $3, $4)");
    let bound: Vec<i32> = ins.params().into_iter().copied().collect();
    assert_eq!(bound, vec![1, 3, 5, 6]);
}
