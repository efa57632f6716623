//! Fixed SQL statements with their positional values.
use vstd::prelude::*;

use crate::bytes;
use crate::bytes::{copy_bytes, copy_optional_bytes, id_vec};
use crate::numeric;
use crate::numeric::encode_u64;
use crate::text::copy_text;

verus! {

/// One positional value of a statement; an absent value is `NULL`.
#[derive(Clone, Debug, PartialEq, Eq)]
pub enum SqlValue<B = Vec<u8>, T = String, L = Vec<String>> {
    /// Byte string.
    Bytes(Option<B>),
    /// Text.
    Text(Option<T>),
    /// Two-byte integer.
    Int2(Option<i16>),
    /// Four-byte integer.
    Int4(Option<i32>),
    /// Eight-byte integer.
    Int8(Option<i64>),
    /// Truth value.
    Bool(bool),
    /// List of texts.
    Texts(L),
}

/// A positional value as contracts speak of it.
pub type ValueView = SqlValue<Seq<u8>, Seq<char>, Seq<Seq<char>>>;

/// Texts as contracts speak of them.
pub open spec fn text_views(texts: Seq<String>) -> Seq<Seq<char>> {
    texts.map_values(|text: String| text@)
}

impl View for SqlValue<Vec<u8>, String, Vec<String>> {
    type V = SqlValue<Seq<u8>, Seq<char>, Seq<Seq<char>>>;

    open spec fn view(&self) -> SqlValue<Seq<u8>, Seq<char>, Seq<Seq<char>>> {
        match self {
            SqlValue::Bytes(value) => SqlValue::Bytes(bytes::optional_bytes(*value)),
            SqlValue::Text(value) => SqlValue::Text(bytes::optional_text(*value)),
            SqlValue::Int2(value) => SqlValue::Int2(*value),
            SqlValue::Int4(value) => SqlValue::Int4(*value),
            SqlValue::Int8(value) => SqlValue::Int8(*value),
            SqlValue::Bool(value) => SqlValue::Bool(*value),
            SqlValue::Texts(value) => SqlValue::Texts(text_views(value@)),
        }
    }
}

/// Values as contracts speak of them.
pub open spec fn value_views(values: Seq<SqlValue>) -> Seq<ValueView> {
    values.map_values(|value: SqlValue| value@)
}

/// The value of a 128-bit identity.
pub open spec fn id_value(id: u128) -> ValueView {
    SqlValue::Bytes(Some(bytes::id_bytes(id)))
}

/// The value of a full-range unsigned number.
pub open spec fn number_value(value: u64) -> ValueView {
    SqlValue::Text(Some(numeric::decimal(value as nat)))
}

/// The value of a nullable full-range unsigned number.
pub open spec fn optional_number_value(value: Option<u64>) -> ValueView {
    match value {
        Some(value) => number_value(value),
        None => SqlValue::Text(None),
    }
}

/// The value of a nullable 128-bit identity.
pub open spec fn optional_id_value(id: Option<u128>) -> ValueView {
    match id {
        Some(id) => id_value(id),
        None => SqlValue::Bytes(None),
    }
}

/// Mathematical content of a statement.
#[verifier::ext_equal]
pub struct StatementView {
    /// Statement text.
    pub sql: Seq<char>,
    /// Positional values.
    pub values: Seq<ValueView>,
}

/// A statement without values.
pub open spec fn text_only(sql: Seq<char>) -> StatementView {
    StatementView { sql, values: Seq::empty() }
}

impl StatementView {
    /// The statement with one more value.
    pub open spec fn with(self, value: ValueView) -> StatementView {
        StatementView { sql: self.sql, values: self.values.push(value) }
    }

    /// The statement with one more identity.
    pub open spec fn with_id(self, id: u128) -> StatementView {
        self.with(id_value(id))
    }

    /// The statement with one more number.
    pub open spec fn with_number(self, value: u64) -> StatementView {
        self.with(number_value(value))
    }
}

/// A statement and its positional values.
#[derive(Clone, Debug, PartialEq, Eq)]
pub struct PostgresQuery {
    /// Statement text.
    pub sql: String,
    /// Positional values.
    pub values: Vec<SqlValue>,
}

impl View for PostgresQuery {
    type V = StatementView;

    open spec fn view(&self) -> StatementView {
        StatementView { sql: self.sql@, values: value_views(self.values@) }
    }
}

/// Starts a statement.
pub fn query(sql: &str) -> (result: PostgresQuery)
    ensures
        result@ == text_only(sql@),
{
    let result = PostgresQuery { sql: String::from_str(sql), values: Vec::new() };
    assert(result@ =~= text_only(sql@));
    result
}

pub(crate) fn copy_value(value: &SqlValue) -> (result: SqlValue)
    ensures
        result@ == value@,
{
    match value {
        SqlValue::Bytes(value) => SqlValue::Bytes(copy_optional_bytes(value)),
        SqlValue::Text(Some(value)) => SqlValue::Text(Some(copy_text(value.as_str()))),
        SqlValue::Text(None) => SqlValue::Text(None),
        SqlValue::Int2(value) => SqlValue::Int2(*value),
        SqlValue::Int4(value) => SqlValue::Int4(*value),
        SqlValue::Int8(value) => SqlValue::Int8(*value),
        SqlValue::Bool(value) => SqlValue::Bool(*value),
        SqlValue::Texts(value) => SqlValue::Texts(copy_texts(value)),
    }
}

fn copy_texts(texts: &Vec<String>) -> (result: Vec<String>)
    ensures
        text_views(result@) == text_views(texts@),
{
    let mut result: Vec<String> = Vec::new();
    let mut index: usize = 0;
    while index < texts.len()
        invariant
            index <= texts@.len(),
            result@.len() == index,
            forall|i: int| 0 <= i < index ==> (#[trigger] result@[i])@ == texts@[i]@,
        decreases texts@.len() - index,
    {
        result.push(copy_text(texts[index].as_str()));
        index = index + 1;
    }
    assert(text_views(result@) =~= text_views(texts@));
    result
}

impl PostgresQuery {
    /// A copy of the statement.
    pub fn copied(&self) -> (result: Self)
        ensures
            result@ == self@,
    {
        let mut values: Vec<SqlValue> = Vec::new();
        let mut index: usize = 0;
        while index < self.values.len()
            invariant
                index <= self.values@.len(),
                values@.len() == index,
                forall|i: int| 0 <= i < index ==> (#[trigger] values@[i])@ == self.values@[i]@,
            decreases self.values@.len() - index,
        {
            values.push(copy_value(&self.values[index]));
            index = index + 1;
        }
        assert(value_views(values@) =~= value_views(self.values@));
        PostgresQuery { sql: copy_text(self.sql.as_str()), values }
    }

    /// Adds one positional value.
    pub fn bind(self, value: SqlValue) -> (result: Self)
        ensures
            result@ == self@.with(value@),
    {
        let ghost before = self@;
        let ghost added = value@;
        let mut result = self;
        result.values.push(value);
        assert(result@.values =~= before.values.push(added));
        result
    }

    /// Adds a 128-bit identity.
    pub fn bind_id(self, id: u128) -> (result: Self)
        ensures
            result@ == self@.with_id(id),
    {
        self.bind(SqlValue::Bytes(Some(id_vec(id))))
    }

    /// Adds a nullable 128-bit identity.
    pub fn bind_optional_id(self, id: Option<u128>) -> (result: Self)
        ensures
            result@ == self@.with(optional_id_value(id)),
    {
        match id {
            Some(id) => self.bind_id(id),
            None => self.bind(SqlValue::Bytes(None)),
        }
    }

    /// Adds a byte string.
    pub fn bind_bytes(self, value: &Vec<u8>) -> (result: Self)
        ensures
            result@ == self@.with(SqlValue::Bytes(Some(value@))),
    {
        self.bind(SqlValue::Bytes(Some(copy_bytes(value))))
    }

    /// Adds a full-range unsigned number as decimal text.
    pub fn bind_number(self, value: u64) -> (result: Self)
        ensures
            result@ == self@.with_number(value),
    {
        self.bind(SqlValue::Text(Some(encode_u64(value))))
    }

    /// Adds a nullable full-range unsigned number as decimal text.
    pub fn bind_optional_number(self, value: Option<u64>) -> (result: Self)
        ensures
            result@ == self@.with(optional_number_value(value)),
    {
        match value {
            Some(value) => self.bind_number(value),
            None => self.bind(SqlValue::Text(None)),
        }
    }
}

} // verus!
