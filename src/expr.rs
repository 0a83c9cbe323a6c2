//! Column handles, literal constants, and the equality predicates and sort
//! keys built from them.
use crate::text::{decimal, i64_to_text, signed_decimal, u64_to_text};
use std::marker::PhantomData;
use vstd::prelude::*;

verus! {

/// Something that renders as SQL text.
pub trait ToSql {
    /// The SQL text of the value.
    spec fn sql(&self) -> Seq<char>;

    fn to_sql(&self) -> (r: String)
        ensures
            r@ == self.sql(),
    ;
}

impl ToSql for bool {
    open spec fn sql(&self) -> Seq<char> {
        if *self {
            "true"@
        } else {
            "false"@
        }
    }

    fn to_sql(&self) -> (r: String) {
        if *self {
            String::from_str("true")
        } else {
            String::from_str("false")
        }
    }
}

impl ToSql for i32 {
    open spec fn sql(&self) -> Seq<char> {
        signed_decimal(*self as int)
    }

    fn to_sql(&self) -> (r: String) {
        i64_to_text(*self as i64)
    }
}

impl ToSql for i64 {
    open spec fn sql(&self) -> Seq<char> {
        signed_decimal(*self as int)
    }

    fn to_sql(&self) -> (r: String) {
        i64_to_text(*self)
    }
}

impl ToSql for i8 {
    open spec fn sql(&self) -> Seq<char> {
        signed_decimal(*self as int)
    }

    fn to_sql(&self) -> (r: String) {
        i64_to_text(*self as i64)
    }
}

impl ToSql for i16 {
    open spec fn sql(&self) -> Seq<char> {
        signed_decimal(*self as int)
    }

    fn to_sql(&self) -> (r: String) {
        i64_to_text(*self as i64)
    }
}

impl ToSql for u8 {
    open spec fn sql(&self) -> Seq<char> {
        decimal(*self as nat)
    }

    fn to_sql(&self) -> (r: String) {
        u64_to_text(*self as u64)
    }
}

impl ToSql for u16 {
    open spec fn sql(&self) -> Seq<char> {
        decimal(*self as nat)
    }

    fn to_sql(&self) -> (r: String) {
        u64_to_text(*self as u64)
    }
}

impl ToSql for u32 {
    open spec fn sql(&self) -> Seq<char> {
        decimal(*self as nat)
    }

    fn to_sql(&self) -> (r: String) {
        u64_to_text(*self as u64)
    }
}

impl ToSql for u64 {
    open spec fn sql(&self) -> Seq<char> {
        decimal(*self as nat)
    }

    fn to_sql(&self) -> (r: String) {
        u64_to_text(*self as u64)
    }
}

/// A string slice renders as its own characters, with no quoting or
/// escaping.
impl<'a> ToSql for &'a str {
    open spec fn sql(&self) -> Seq<char> {
        self@
    }

    fn to_sql(&self) -> (r: String) {
        String::from_str(*self)
    }
}

/// A string renders as its own characters, with no quoting or escaping.
impl ToSql for String {
    open spec fn sql(&self) -> Seq<char> {
        self@
    }

    fn to_sql(&self) -> (r: String) {
        self.clone()
    }
}

/// A typed handle to one column of a table; `T` is the column's value type.
pub struct Field<T> {
    pub name: &'static str,
    pub phantom: PhantomData<T>,
}

/// An untyped column reference.
pub struct Column {
    pub name: &'static str,
}

/// A typed literal value, usable where a column is.
pub struct Constant<T> {
    pub value: T,
}

/// What a field-like operand is: a column named by its text, or a literal
/// given by its text.
pub enum Operand {
    Column(Seq<char>),
    Literal(Seq<char>),
}

impl Operand {
    pub open spec fn text(self) -> Seq<char> {
        match self {
            Operand::Column(n) => n,
            Operand::Literal(t) => t,
        }
    }
}

/// One side of a predicate or the key of an order: a column or a literal.
pub enum FieldLike {
    Column(Column),
    Literal(String),
}

impl View for FieldLike {
    type V = Operand;

    open spec fn view(&self) -> Operand {
        match self {
            FieldLike::Column(c) => Operand::Column(c.name@),
            FieldLike::Literal(t) => Operand::Literal(t@),
        }
    }
}

impl ToSql for FieldLike {
    open spec fn sql(&self) -> Seq<char> {
        self@.text()
    }

    fn to_sql(&self) -> (r: String) {
        match self {
            FieldLike::Column(c) => String::from_str(c.name),
            FieldLike::Literal(t) => t.clone(),
        }
    }
}

/// An operand usable beside a column of value type `T`.
pub trait SomeField<T> {
    /// The operand this stands for.
    spec fn operand(&self) -> Operand;

    fn field_like(&self) -> (r: FieldLike)
        ensures
            r@ == self.operand(),
    ;
}

impl<T> SomeField<T> for Field<T> {
    open spec fn operand(&self) -> Operand {
        Operand::Column(self.name@)
    }

    fn field_like(&self) -> (r: FieldLike) {
        FieldLike::Column(Column { name: self.name })
    }
}

impl<'a, T> SomeField<T> for &'a Field<T> {
    open spec fn operand(&self) -> Operand {
        Operand::Column(self.name@)
    }

    fn field_like(&self) -> (r: FieldLike) {
        FieldLike::Column(Column { name: self.name })
    }
}

impl<T: ToSql> SomeField<T> for Constant<T> {
    open spec fn operand(&self) -> Operand {
        Operand::Literal(self.value.sql())
    }

    fn field_like(&self) -> (r: FieldLike) {
        FieldLike::Literal(self.value.to_sql())
    }
}

impl<T> ToSql for Field<T> {
    open spec fn sql(&self) -> Seq<char> {
        self.name@
    }

    fn to_sql(&self) -> (r: String) {
        String::from_str(self.name)
    }
}

impl<T: ToSql> ToSql for Constant<T> {
    open spec fn sql(&self) -> Seq<char> {
        self.value.sql()
    }

    fn to_sql(&self) -> (r: String) {
        self.value.to_sql()
    }
}

impl<T> Clone for Field<T> {
    fn clone(&self) -> (r: Self)
        ensures
            r.name == self.name,
    {
        Field { name: self.name, phantom: PhantomData }
    }
}

/// What a predicate is: equality of two operands.
pub enum PredicateView {
    Eq(Operand, Operand),
}

/// A boolean SQL condition.
pub enum Predicate {
    Eq { field1: FieldLike, field2: FieldLike },
}

impl View for Predicate {
    type V = PredicateView;

    open spec fn view(&self) -> PredicateView {
        match self {
            Predicate::Eq { field1, field2 } => PredicateView::Eq(field1@, field2@),
        }
    }
}

/// The SQL text of a predicate: `<left> = <right>`.
pub open spec fn predicate_sql(p: PredicateView) -> Seq<char> {
    match p {
        PredicateView::Eq(a, b) => a.text() + " = "@ + b.text(),
    }
}

impl ToSql for Predicate {
    open spec fn sql(&self) -> Seq<char> {
        predicate_sql(self@)
    }

    fn to_sql(&self) -> (r: String) {
        match self {
            Predicate::Eq { field1, field2 } => {
                let mut s = field1.to_sql();
                s.append(" = ");
                let right = field2.to_sql();
                s.append(right.as_str());
                s
            },
        }
    }
}

impl<T> Field<T> {
    /// The predicate that this column equals `other`.
    pub fn eq<O: SomeField<T>>(self, other: O) -> (r: Predicate)
        ensures
            r@ == PredicateView::Eq(Operand::Column(self.name@), other.operand()),
    {
        Predicate::Eq { field1: self.field_like(), field2: other.field_like() }
    }
}

/// The direction of a sort.
#[derive(PartialEq, Eq, Structural, Clone, Copy, Debug)]
pub enum Direction {
    Ascending,
    Descending,
}

/// The SQL keyword of a direction.
pub open spec fn direction_sql(d: Direction) -> Seq<char> {
    match d {
        Direction::Ascending => "asc"@,
        Direction::Descending => "desc"@,
    }
}

impl ToSql for Direction {
    open spec fn sql(&self) -> Seq<char> {
        direction_sql(*self)
    }

    fn to_sql(&self) -> (r: String) {
        match self {
            Direction::Ascending => String::from_str("asc"),
            Direction::Descending => String::from_str("desc"),
        }
    }
}

/// One sort key and its direction.
pub struct Order {
    pub by: FieldLike,
    pub direction: Direction,
}

/// The SQL text of a sort key: `<operand> asc` or `<operand> desc`.
pub open spec fn order_sql(by: Operand, direction: Direction) -> Seq<char> {
    by.text() + " "@ + direction_sql(direction)
}

impl ToSql for Order {
    open spec fn sql(&self) -> Seq<char> {
        order_sql(self.by@, self.direction)
    }

    fn to_sql(&self) -> (r: String) {
        let mut s = self.by.to_sql();
        s.append(" ");
        let d = self.direction.to_sql();
        s.append(d.as_str());
        s
    }
}

/// An ascending sort on a copy of `field`.
pub fn asc<T, F: SomeField<T>>(field: &F) -> (r: Order)
    ensures
        r.by@ == field.operand(),
        r.direction == Direction::Ascending,
{
    Order { by: field.field_like(), direction: Direction::Ascending }
}

/// A descending sort on a copy of `field`.
pub fn desc<T, F: SomeField<T>>(field: &F) -> (r: Order)
    ensures
        r.by@ == field.operand(),
        r.direction == Direction::Descending,
{
    Order { by: field.field_like(), direction: Direction::Descending }
}

} // verus!
