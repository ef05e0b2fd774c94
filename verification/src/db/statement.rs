//! SQL statements as plain data: the text sent to PostgreSQL and the values
//! bound to its placeholders `$1`, `$2`, ... in order.

use vstd::prelude::*;
use vstd::string::*;

verus! {

/// One value bound to a placeholder of a statement.
#[derive(Clone, Debug, PartialEq)]
pub enum SqlParam {
    /// An `INTEGER` value.
    Int(i32),
    /// A `TEXT` value.
    Text(String),
    /// A nullable `TEXT` value; `None` binds SQL `NULL`.
    OptionalText(Option<String>),
    /// A nullable `INTEGER` value; `None` binds SQL `NULL`.
    OptionalInt(Option<i32>),
}

/// The text of an optional string, if there is one.
pub open spec fn optional_text_view(value: Option<String>) -> Option<Seq<char>> {
    match value {
        Some(s) => Some(s@),
        None => None,
    }
}

/// The mathematical value of a [`SqlParam`].
pub enum SqlValue {
    Int(i32),
    Text(Seq<char>),
    OptionalText(Option<Seq<char>>),
    OptionalInt(Option<i32>),
}

impl View for SqlParam {
    type V = SqlValue;

    open spec fn view(&self) -> SqlValue {
        match self {
            SqlParam::Int(i) => SqlValue::Int(*i),
            SqlParam::Text(s) => SqlValue::Text(s@),
            SqlParam::OptionalText(s) => SqlValue::OptionalText(optional_text_view(*s)),
            SqlParam::OptionalInt(i) => SqlValue::OptionalInt(*i),
        }
    }
}

impl SqlParam {
    /// Binds a copy of `value` as `TEXT`.
    pub fn text(value: &String) -> (p: SqlParam)
        ensures
            p@ == SqlValue::Text(value@),
    {
        SqlParam::Text(value.clone())
    }

    /// Binds a copy of `value` as nullable `TEXT`.
    pub fn optional_text(value: &Option<String>) -> (p: SqlParam)
        ensures
            p@ == SqlValue::OptionalText(optional_text_view(*value)),
    {
        match value {
            Some(s) => SqlParam::OptionalText(Some(s.clone())),
            None => SqlParam::OptionalText(None),
        }
    }
}

/// A statement ready to be prepared: its text and the values for its
/// placeholders, the value for `$k` at index `k - 1`.
#[derive(Clone, Debug)]
pub struct Statement {
    pub sql: String,
    pub params: Vec<SqlParam>,
}

/// The mathematical value of a [`Statement`].
pub struct StatementView {
    pub sql: Seq<char>,
    pub params: Seq<SqlValue>,
}

impl View for Statement {
    type V = StatementView;

    open spec fn view(&self) -> StatementView {
        StatementView { sql: self.sql@, params: self.params@.map_values(|p: SqlParam| p@) }
    }
}

/// The pattern that `LIKE` matches against names containing `name`.
pub open spec fn contains_pattern(name: Seq<char>) -> Seq<char> {
    seq!['%'] + name + seq!['%']
}

/// Builds the `LIKE` pattern `%name%`, which matches every text that holds
/// `name` somewhere in it.
pub fn like_pattern(name: &str) -> (pattern: String)
    ensures
        pattern@ == contains_pattern(name@),
        pattern@.len() == name@.len() + 2,
        pattern@.subrange(1, name@.len() as int + 1) == name@,
{
    let mut pattern = String::from_str("%");
    pattern.append(name);
    pattern.append("%");
    proof {
        reveal_strlit("%");
        assert(pattern@.subrange(1, name@.len() as int + 1) =~= name@);
    }
    pattern
}

} // verus!
