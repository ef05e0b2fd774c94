//! The car repository: which statement each of its operations sends, and
//! with which values.

use std::sync::Arc;

use crate::app::state::IsState;
use crate::db::postgres::Db;
use crate::db::statement::{contains_pattern, like_pattern, SqlParam, SqlValue, Statement, StatementView};
use crate::models::car::{Car, CarQuery, CarView, NewCar, NewCarView};
use vstd::prelude::*;
use vstd::string::*;

verus! {

/// The statement that lists the cars, all of them or those whose name holds
/// `name`.
pub open spec fn find_all_cars_statement(name: Option<Seq<char>>) -> StatementView {
    match name {
        None => StatementView { sql: "SELECT * FROM cars"@, params: seq![] },
        Some(n) => StatementView {
            sql: "SELECT * FROM cars WHERE NAME LIKE $1"@,
            params: seq![SqlValue::Text(contains_pattern(n))],
        },
    }
}

/// The statement that stores a new car and returns the stored row.
pub open spec fn insert_car_statement(car: NewCarView) -> StatementView {
    StatementView {
        sql: "\n            INSERT INTO cars (name, color, year)\n            VALUES ($1, $2, $3)\n            RETURNING id, name, color, year\n            "@,
        params: seq![
            SqlValue::Text(car.name),
            SqlValue::OptionalText(car.color),
            SqlValue::OptionalInt(car.year),
        ],
    }
}

/// The statement that overwrites the row of `car.id` with the data of `car`
/// and returns the stored row.
pub open spec fn update_car_statement(car: CarView) -> StatementView {
    StatementView {
        sql: "\n            UPDATE cars\n            SET name = $2, color = $3, year = $4\n            WHERE id = $1\n            RETURNING id, name, color, year\n            "@,
        params: seq![
            SqlValue::Int(car.id),
            SqlValue::Text(car.name),
            SqlValue::OptionalText(car.color),
            SqlValue::OptionalInt(car.year),
        ],
    }
}

/// The statement that removes the row of the car `id`.
pub open spec fn delete_car_statement(id: i32) -> StatementView {
    StatementView { sql: "DELETE FROM cars WHERE id = $1"@, params: seq![SqlValue::Int(id)] }
}

/// The statement that reads the row of the car `id`.
pub open spec fn find_car_by_id_statement(id: i32) -> StatementView {
    StatementView { sql: "SELECT * FROM cars WHERE id = $1"@, params: seq![SqlValue::Int(id)] }
}

/// The repository of cars, backed by the `cars` table of a PostgreSQL pool.
#[derive(Clone)]
pub struct CarRepositoryImpl {
    pool: Db,
}

impl CarRepositoryImpl {
    /// The pool this repository sends its statements to.
    pub closed spec fn spec_pool(&self) -> Db {
        self.pool
    }

    /// A repository over `pool`.
    pub fn new(pool: Db) -> (repo: Self)
        ensures
            repo.spec_pool() == pool,
    {
        Self { pool }
    }

    /// The pool this repository sends its statements to.
    pub fn pool(&self) -> (pool: &Db)
        ensures
            *pool == self.spec_pool(),
    {
        &self.pool
    }

    /// The statement behind `find_all`: every car, or, with a name in
    /// `conditions`, the cars whose name holds it (`NAME LIKE '%name%'`).
    pub fn find_all_statement(conditions: &CarQuery) -> (st: Statement)
        ensures
            st@ == find_all_cars_statement(conditions@),
    {
        match &conditions.name {
            None => {
                let st = Statement { sql: String::from_str("SELECT * FROM cars"), params: Vec::new() };
                assert(st@.params =~= find_all_cars_statement(conditions@).params);
                st
            },
            Some(name) => {
                let pattern = like_pattern(name.as_str());
                let st = Statement {
                    sql: String::from_str("SELECT * FROM cars WHERE NAME LIKE $1"),
                    params: vec![SqlParam::Text(pattern)],
                };
                assert(st@.params =~= find_all_cars_statement(conditions@).params);
                st
            },
        }
    }

    /// The statement behind `create`: stores `car_data` and returns the new row.
    pub fn create_statement(car_data: &NewCar) -> (st: Statement)
        ensures
            st@ == insert_car_statement(car_data@),
    {
        let st = Statement {
            sql: String::from_str(
                "\n            INSERT INTO cars (name, color, year)\n            VALUES ($1, $2, $3)\n            RETURNING id, name, color, year\n            ",
            ),
            params: vec![
                SqlParam::text(&car_data.name),
                SqlParam::optional_text(&car_data.color),
                SqlParam::OptionalInt(car_data.year),
            ],
        };
        assert(st@.params =~= insert_car_statement(car_data@).params);
        st
    }

    /// The statement behind `update`: overwrites the row of `car_data.id`
    /// with its data and returns the stored row.
    pub fn update_statement(car_data: &Car) -> (st: Statement)
        ensures
            st@ == update_car_statement(car_data@),
    {
        let st = Statement {
            sql: String::from_str(
                "\n            UPDATE cars\n            SET name = $2, color = $3, year = $4\n            WHERE id = $1\n            RETURNING id, name, color, year\n            ",
            ),
            params: vec![
                SqlParam::Int(car_data.id),
                SqlParam::text(&car_data.name),
                SqlParam::optional_text(&car_data.color),
                SqlParam::OptionalInt(car_data.year),
            ],
        };
        assert(st@.params =~= update_car_statement(car_data@).params);
        st
    }

    /// The statement behind `delete`: removes the row of `car_id`.
    pub fn delete_statement(car_id: i32) -> (st: Statement)
        ensures
            st@ == delete_car_statement(car_id),
    {
        let st = Statement {
            sql: String::from_str("DELETE FROM cars WHERE id = $1"),
            params: vec![SqlParam::Int(car_id)],
        };
        assert(st@.params =~= delete_car_statement(car_id).params);
        st
    }

    /// The statement behind `find_by_id`: reads the row of `car_id`.
    pub fn find_by_id_statement(car_id: i32) -> (st: Statement)
        ensures
            st@ == find_car_by_id_statement(car_id),
    {
        let st = Statement {
            sql: String::from_str("SELECT * FROM cars WHERE id = $1"),
            params: vec![SqlParam::Int(car_id)],
        };
        assert(st@.params =~= find_car_by_id_statement(car_id).params);
        st
    }
}

/// What gives access to a car repository: the application state, or a test
/// state around a repository of the test's choice.
pub trait HasCarRepo: IsState {
    type CarRepo: Send + Sync;

    fn car_repo(&self) -> Arc<Self::CarRepo>;
}

/// A search with a name binds one value, that name between two `%`
/// wildcards, so that it keeps the names that hold it; a search without a
/// name binds nothing and keeps every car.
pub proof fn car_search_binds_name_pattern(name: Option<Seq<char>>)
    ensures
        match name {
            None => find_all_cars_statement(name).params.len() == 0,
            Some(n) => {
                &&& find_all_cars_statement(name).params.len() == 1
                &&& find_all_cars_statement(name).params[0] matches SqlValue::Text(p)
                &&& p.len() == n.len() + 2
                &&& p[0] == '%'
                &&& p[p.len() - 1] == '%'
                &&& p.subrange(1, n.len() as int + 1) == n
            },
        },
{
    if let Some(n) = name {
        let p = contains_pattern(n);
        assert(p.subrange(1, n.len() as int + 1) =~= n);
    }
}

/// Updating a car writes the columns that creating its data writes, with the
/// same values, and finds its row by the car's id, bound first.
pub proof fn car_update_writes_what_create_writes(car: CarView)
    ensures
        update_car_statement(car).params == seq![SqlValue::Int(car.id)] + insert_car_statement(
            car.data(),
        ).params,
{
    assert(update_car_statement(car).params =~= seq![SqlValue::Int(car.id)]
        + insert_car_statement(car.data()).params);
}

/// Deleting a car and finding it by id pick the row by the same key: each
/// binds the id alone.
pub proof fn car_delete_and_find_share_key(id: i32)
    ensures
        delete_car_statement(id).params == find_car_by_id_statement(id).params,
        delete_car_statement(id).params == seq![SqlValue::Int(id)],
{
}

/// A search's SQL text depends only on whether a name is given, never on the
/// name itself: with any name it is the one `LIKE` query on `NAME`, whose
/// pattern is the bound value; without a name it lists the whole table.
pub proof fn car_search_sql_is_fixed(n: Seq<char>, m: Seq<char>)
    ensures
        find_all_cars_statement(Some(n)).sql == find_all_cars_statement(Some(m)).sql,
        find_all_cars_statement(Some(n)).sql == "SELECT * FROM cars WHERE NAME LIKE $1"@,
        find_all_cars_statement(None).sql == "SELECT * FROM cars"@,
{
}

/// Creating writes every column of the car's data, whatever the data: the
/// SQL text is the same for all new cars, and it inserts name, color and year from
/// `$1`, `$2`, ... in that order, which are the bound values in that order.
pub proof fn car_insert_sql_is_fixed(a: NewCarView, b: NewCarView)
    ensures
        insert_car_statement(a).sql == insert_car_statement(b).sql,
        insert_car_statement(a).sql == "\n            INSERT INTO cars (name, color, year)\n            VALUES ($1, $2, $3)\n            RETURNING id, name, color, year\n            "@,
{
}

/// Updating writes every column of the car's data on the row of its id,
/// whatever the data: the SQL text is the same for all cars, and it sets the
/// data columns from `$2`, ... and picks the row by `id = $1`.
pub proof fn car_update_sql_is_fixed(a: CarView, b: CarView)
    ensures
        update_car_statement(a).sql == update_car_statement(b).sql,
        update_car_statement(a).sql == "\n            UPDATE cars\n            SET name = $2, color = $3, year = $4\n            WHERE id = $1\n            RETURNING id, name, color, year\n            "@,
{
}

/// Deleting and finding by id pick the row by its `id` column, with one SQL
/// text each for all ids: only the bound id varies.
pub proof fn car_by_id_sql_is_fixed(i: i32, j: i32)
    ensures
        delete_car_statement(i).sql == delete_car_statement(j).sql,
        find_car_by_id_statement(i).sql == find_car_by_id_statement(j).sql,
        delete_car_statement(i).sql == "DELETE FROM cars WHERE id = $1"@,
        find_car_by_id_statement(i).sql == "SELECT * FROM cars WHERE id = $1"@,
{
}

} // verus!
