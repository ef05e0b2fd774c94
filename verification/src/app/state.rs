//! The state that the request handlers get: the repositories, shared.

use std::sync::Arc;

use crate::repositories::car::{CarRepositoryImpl, HasCarRepo};
use crate::repositories::part::{HasPartRepo, PartRepositoryImpl};
use crate::shared::share;
use vstd::prelude::*;

verus! {

/// What a state handed to the request handlers must be: cheap to clone and
/// safe to share between the threads that serve requests.
pub trait IsState: Clone + Send + Sync + 'static {}

impl<A: Clone + Send + Sync + 'static> IsState for A {}

/// The state of the running application: one repository per table.
#[derive(Clone)]
pub struct AppState {
    pub car_repository: Arc<CarRepositoryImpl>,
    pub part_repository: Arc<PartRepositoryImpl>,
}

/// The application state over the two repositories.
pub fn init_state(
    car_repository: Arc<CarRepositoryImpl>,
    part_repository: Arc<PartRepositoryImpl>,
) -> (state: AppState)
    ensures
        state.car_repository == car_repository,
        state.part_repository == part_repository,
{
    AppState { car_repository, part_repository }
}

impl HasCarRepo for AppState {
    type CarRepo = CarRepositoryImpl;

    fn car_repo(&self) -> (repo: Arc<CarRepositoryImpl>)
        ensures
            repo == self.car_repository,
    {
        share(&self.car_repository)
    }
}

impl HasPartRepo for AppState {
    type PartRepo = PartRepositoryImpl;

    fn part_repo(&self) -> (repo: Arc<PartRepositoryImpl>)
        ensures
            repo == self.part_repository,
    {
        share(&self.part_repository)
    }
}

/// A state around one repository of a test's choice, which serves as the car
/// repository or as the part repository.
pub struct TestState<A>(pub Arc<A>);

/// The test state around `state`.
pub fn test_state<A>(state: A) -> (test: TestState<A>)
    ensures
        *test.0 == state,
{
    TestState(Arc::new(state))
}

impl<A> AsRef<Arc<A>> for TestState<A> {
    /// The repository inside.
    fn as_ref(&self) -> (inner: &Arc<A>)
        ensures
            *inner == self.0,
    {
        &self.0
    }
}

impl<A> Clone for TestState<A> {
    fn clone(&self) -> (copy: Self)
        ensures
            copy.0 == self.0,
    {
        TestState(share(&self.0))
    }
}

impl<A: Send + Sync + 'static> HasCarRepo for TestState<A> {
    type CarRepo = A;

    fn car_repo(&self) -> (repo: Arc<A>)
        ensures
            repo == self.0,
    {
        share(&self.0)
    }
}

impl<A: Send + Sync + 'static> HasPartRepo for TestState<A> {
    type PartRepo = A;

    fn part_repo(&self) -> (repo: Arc<A>)
        ensures
            repo == self.0,
    {
        share(&self.0)
    }
}

} // verus!
