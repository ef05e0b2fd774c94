//! Parts as the `parts` table stores them.

use crate::db::statement::optional_text_view;
use vstd::prelude::*;

verus! {

/// A row of the `parts` table; `car_id` names the car the part belongs to.
#[derive(Clone, Debug, PartialEq)]
pub struct Part {
    pub id: i32,
    pub name: String,
    pub car_id: Option<i32>,
}

/// The data of a part that is not stored yet; the database picks its id.
#[derive(Clone, Debug, PartialEq)]
pub struct NewPart {
    pub name: String,
    pub car_id: Option<i32>,
}

/// The conditions of a part search; `name` keeps the parts whose name holds it.
#[derive(Clone, Debug, PartialEq)]
pub struct PartQuery {
    pub name: Option<String>,
}

/// A list of parts, in the order the database returned them.
pub type PartList = Vec<Part>;

/// The mathematical value of a [`Part`].
pub struct PartView {
    pub id: i32,
    pub name: Seq<char>,
    pub car_id: Option<i32>,
}

/// The mathematical value of a [`NewPart`].
pub struct NewPartView {
    pub name: Seq<char>,
    pub car_id: Option<i32>,
}

impl View for Part {
    type V = PartView;

    open spec fn view(&self) -> PartView {
        PartView { id: self.id, name: self.name@, car_id: self.car_id }
    }
}

impl View for NewPart {
    type V = NewPartView;

    open spec fn view(&self) -> NewPartView {
        NewPartView { name: self.name@, car_id: self.car_id }
    }
}

impl View for PartQuery {
    type V = Option<Seq<char>>;

    open spec fn view(&self) -> Option<Seq<char>> {
        optional_text_view(self.name)
    }
}

impl PartView {
    /// The stored data of this part, without its id.
    pub open spec fn data(self) -> NewPartView {
        NewPartView { name: self.name, car_id: self.car_id }
    }
}

} // verus!
