//! Cars as the `cars` table stores them.

use crate::db::statement::optional_text_view;
use vstd::prelude::*;

verus! {

/// A row of the `cars` table.
#[derive(Clone, Debug, PartialEq)]
pub struct Car {
    pub id: i32,
    pub name: String,
    pub color: Option<String>,
    pub year: Option<i32>,
}

/// The data of a car that is not stored yet; the database picks its id.
#[derive(Clone, Debug, PartialEq)]
pub struct NewCar {
    pub name: String,
    pub color: Option<String>,
    pub year: Option<i32>,
}

/// The conditions of a car search; `name` keeps the cars whose name holds it.
#[derive(Clone, Debug, PartialEq)]
pub struct CarQuery {
    pub name: Option<String>,
}

/// A list of cars, in the order the database returned them.
pub type CarList = Vec<Car>;

/// The mathematical value of a [`Car`].
pub struct CarView {
    pub id: i32,
    pub name: Seq<char>,
    pub color: Option<Seq<char>>,
    pub year: Option<i32>,
}

/// The mathematical value of a [`NewCar`].
pub struct NewCarView {
    pub name: Seq<char>,
    pub color: Option<Seq<char>>,
    pub year: Option<i32>,
}

impl View for Car {
    type V = CarView;

    open spec fn view(&self) -> CarView {
        CarView {
            id: self.id,
            name: self.name@,
            color: optional_text_view(self.color),
            year: self.year,
        }
    }
}

impl View for NewCar {
    type V = NewCarView;

    open spec fn view(&self) -> NewCarView {
        NewCarView { name: self.name@, color: optional_text_view(self.color), year: self.year }
    }
}

impl View for CarQuery {
    type V = Option<Seq<char>>;

    open spec fn view(&self) -> Option<Seq<char>> {
        optional_text_view(self.name)
    }
}

impl CarView {
    /// The stored data of this car, without its id.
    pub open spec fn data(self) -> NewCarView {
        NewCarView { name: self.name, color: self.color, year: self.year }
    }
}

} // verus!
