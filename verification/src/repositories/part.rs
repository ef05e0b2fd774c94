//! The part repository: which statement each of its operations sends, and
//! with which values.

use std::sync::Arc;

use crate::app::state::IsState;
use crate::db::postgres::Db;
use crate::db::statement::{contains_pattern, like_pattern, SqlParam, SqlValue, Statement, StatementView};
use crate::models::part::{NewPart, NewPartView, Part, PartQuery, PartView};
use vstd::prelude::*;
use vstd::string::*;

verus! {

/// The statement that lists the parts, all of them or those whose name holds
/// `name`.
pub open spec fn find_all_parts_statement(name: Option<Seq<char>>) -> StatementView {
    match name {
        None => StatementView { sql: "SELECT * FROM parts"@, params: seq![] },
        Some(n) => StatementView {
            sql: "SELECT * FROM parts WHERE NAME LIKE $1"@,
            params: seq![SqlValue::Text(contains_pattern(n))],
        },
    }
}

/// The statement that stores a new part and returns the stored row.
pub open spec fn insert_part_statement(part: NewPartView) -> StatementView {
    StatementView {
        sql: "\n            INSERT INTO parts (name, car_id)\n            VALUES ($1, $2)\n            RETURNING id, name, car_id\n            "@,
        params: seq![SqlValue::Text(part.name), SqlValue::OptionalInt(part.car_id)],
    }
}

/// The statement that overwrites the row of `part.id` with the data of
/// `part` and returns the stored row.
pub open spec fn update_part_statement(part: PartView) -> StatementView {
    StatementView {
        sql: "\n            UPDATE parts\n            SET name = $2, car_id = $3\n            WHERE id = $1\n            RETURNING id, name, car_id\n            "@,
        params: seq![
            SqlValue::Int(part.id),
            SqlValue::Text(part.name),
            SqlValue::OptionalInt(part.car_id),
        ],
    }
}

/// The statement that removes the row of the part `id`.
pub open spec fn delete_part_statement(id: i32) -> StatementView {
    StatementView { sql: "DELETE FROM parts WHERE id = $1"@, params: seq![SqlValue::Int(id)] }
}

/// The statement that reads the row of the part `id`.
pub open spec fn find_part_by_id_statement(id: i32) -> StatementView {
    StatementView { sql: "SELECT * FROM parts WHERE id = $1"@, params: seq![SqlValue::Int(id)] }
}

/// The repository of parts, backed by the `parts` table of a PostgreSQL pool.
pub struct PartRepositoryImpl {
    pool: Db,
}

impl PartRepositoryImpl {
    /// The pool this repository sends its statements to.
    pub closed spec fn spec_pool(&self) -> Db {
        self.pool
    }

    /// A repository over `pool`.
    pub fn new(pool: Db) -> (repo: Self)
        ensures
            repo.spec_pool() == pool,
    {
        Self { pool }
    }

    /// The pool this repository sends its statements to.
    pub fn pool(&self) -> (pool: &Db)
        ensures
            *pool == self.spec_pool(),
    {
        &self.pool
    }

    /// The statement behind `find_all`: every part, or, with a name in
    /// `conditions`, the parts whose name holds it (`NAME LIKE '%name%'`).
    pub fn find_all_statement(conditions: &PartQuery) -> (st: Statement)
        ensures
            st@ == find_all_parts_statement(conditions@),
    {
        match &conditions.name {
            None => {
                let st = Statement { sql: String::from_str("SELECT * FROM parts"), params: Vec::new() };
                assert(st@.params =~= find_all_parts_statement(conditions@).params);
                st
            },
            Some(name) => {
                let pattern = like_pattern(name.as_str());
                let st = Statement {
                    sql: String::from_str("SELECT * FROM parts WHERE NAME LIKE $1"),
                    params: vec![SqlParam::Text(pattern)],
                };
                assert(st@.params =~= find_all_parts_statement(conditions@).params);
                st
            },
        }
    }

    /// The statement behind `create`: stores `part_data` and returns the new
    /// row.
    pub fn create_statement(part_data: &NewPart) -> (st: Statement)
        ensures
            st@ == insert_part_statement(part_data@),
    {
        let st = Statement {
            sql: String::from_str(
                "\n            INSERT INTO parts (name, car_id)\n            VALUES ($1, $2)\n            RETURNING id, name, car_id\n            ",
            ),
            params: vec![SqlParam::text(&part_data.name), SqlParam::OptionalInt(part_data.car_id)],
        };
        assert(st@.params =~= insert_part_statement(part_data@).params);
        st
    }

    /// The statement behind `update`: overwrites the row of `part_data.id`
    /// with its data and returns the stored row.
    pub fn update_statement(part_data: &Part) -> (st: Statement)
        ensures
            st@ == update_part_statement(part_data@),
    {
        let st = Statement {
            sql: String::from_str(
                "\n            UPDATE parts\n            SET name = $2, car_id = $3\n            WHERE id = $1\n            RETURNING id, name, car_id\n            ",
            ),
            params: vec![
                SqlParam::Int(part_data.id),
                SqlParam::text(&part_data.name),
                SqlParam::OptionalInt(part_data.car_id),
            ],
        };
        assert(st@.params =~= update_part_statement(part_data@).params);
        st
    }

    /// The statement behind `delete`: removes the row of `part_id`.
    pub fn delete_statement(part_id: i32) -> (st: Statement)
        ensures
            st@ == delete_part_statement(part_id),
    {
        let st = Statement {
            sql: String::from_str("DELETE FROM parts WHERE id = $1"),
            params: vec![SqlParam::Int(part_id)],
        };
        assert(st@.params =~= delete_part_statement(part_id).params);
        st
    }

    /// The statement behind `find_by_id`: reads the row of `part_id`.
    pub fn find_by_id_statement(part_id: i32) -> (st: Statement)
        ensures
            st@ == find_part_by_id_statement(part_id),
    {
        let st = Statement {
            sql: String::from_str("SELECT * FROM parts WHERE id = $1"),
            params: vec![SqlParam::Int(part_id)],
        };
        assert(st@.params =~= find_part_by_id_statement(part_id).params);
        st
    }
}

/// What gives access to a part repository: the application state, or a test
/// state around a repository of the test's choice.
pub trait HasPartRepo: IsState {
    type PartRepo: Send + Sync;

    fn part_repo(&self) -> Arc<Self::PartRepo>;
}

/// A search with a name binds one value, that name between two `%`
/// wildcards, so that it keeps the names that hold it; a search without a
/// name binds nothing and keeps every part.
pub proof fn part_search_binds_name_pattern(name: Option<Seq<char>>)
    ensures
        match name {
            None => find_all_parts_statement(name).params.len() == 0,
            Some(n) => {
                &&& find_all_parts_statement(name).params.len() == 1
                &&& find_all_parts_statement(name).params[0] matches SqlValue::Text(p)
                &&& p.len() == n.len() + 2
                &&& p[0] == '%'
                &&& p[p.len() - 1] == '%'
                &&& p.subrange(1, n.len() as int + 1) == n
            },
        },
{
    if let Some(n) = name {
        let p = contains_pattern(n);
        assert(p.subrange(1, n.len() as int + 1) =~= n);
    }
}

/// Updating a part writes the columns that creating its data writes, with
/// the same values, and finds its row by the part's id, bound first.
pub proof fn part_update_writes_what_create_writes(part: PartView)
    ensures
        update_part_statement(part).params == seq![SqlValue::Int(part.id)] + insert_part_statement(
            part.data(),
        ).params,
{
    assert(update_part_statement(part).params =~= seq![SqlValue::Int(part.id)]
        + insert_part_statement(part.data()).params);
}

/// Deleting a part and finding it by id pick the row by the same key: each
/// binds the id alone.
pub proof fn part_delete_and_find_share_key(id: i32)
    ensures
        delete_part_statement(id).params == find_part_by_id_statement(id).params,
        delete_part_statement(id).params == seq![SqlValue::Int(id)],
{
}

/// A search's SQL text depends only on whether a name is given, never on the
/// name itself: with any name it is the one `LIKE` query on `NAME`, whose
/// pattern is the bound value; without a name it lists the whole table.
pub proof fn part_search_sql_is_fixed(n: Seq<char>, m: Seq<char>)
    ensures
        find_all_parts_statement(Some(n)).sql == find_all_parts_statement(Some(m)).sql,
        find_all_parts_statement(Some(n)).sql == "SELECT * FROM parts WHERE NAME LIKE $1"@,
        find_all_parts_statement(None).sql == "SELECT * FROM parts"@,
{
}

/// Creating writes every column of the part's data, whatever the data: the
/// SQL text is the same for all new parts, and it inserts name and car_id from
/// `$1`, `$2`, ... in that order, which are the bound values in that order.
pub proof fn part_insert_sql_is_fixed(a: NewPartView, b: NewPartView)
    ensures
        insert_part_statement(a).sql == insert_part_statement(b).sql,
        insert_part_statement(a).sql == "\n            INSERT INTO parts (name, car_id)\n            VALUES ($1, $2)\n            RETURNING id, name, car_id\n            "@,
{
}

/// Updating writes every column of the part's data on the row of its id,
/// whatever the data: the SQL text is the same for all parts, and it sets the
/// data columns from `$2`, ... and picks the row by `id = $1`.
pub proof fn part_update_sql_is_fixed(a: PartView, b: PartView)
    ensures
        update_part_statement(a).sql == update_part_statement(b).sql,
        update_part_statement(a).sql == "\n            UPDATE parts\n            SET name = $2, car_id = $3\n            WHERE id = $1\n            RETURNING id, name, car_id\n            "@,
{
}

/// Deleting and finding by id pick the row by its `id` column, with one SQL
/// text each for all ids: only the bound id varies.
pub proof fn part_by_id_sql_is_fixed(i: i32, j: i32)
    ensures
        delete_part_statement(i).sql == delete_part_statement(j).sql,
        find_part_by_id_statement(i).sql == find_part_by_id_statement(j).sql,
        delete_part_statement(i).sql == "DELETE FROM parts WHERE id = $1"@,
        find_part_by_id_statement(i).sql == "SELECT * FROM parts WHERE id = $1"@,
{
}

} // verus!
