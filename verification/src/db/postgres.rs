//! The connection pool that the repositories share.

use std::sync::Arc;

use crate::shared::share;
use vstd::prelude::*;

verus! {

/// A shared handle to the PostgreSQL connection pool of sqlx.
///
/// The pool is only carried to the code that runs the statements; nothing
/// here reads it. The handle is opaque: sqlx's `Pool<DB: Database>` cannot be
/// declared as a type of its own, since its bound names sqlx's `Database`.
#[verifier::external_body]
pub struct Db(pub Arc<sqlx::PgPool>);

impl Clone for Db {
    /// Another handle to the same pool: the inner `Arc` shared by `share`,
    /// wrapped again. The contract says the copy is the same handle.
    #[verifier::external_body]
    fn clone(&self) -> (copy: Self)
        ensures
            copy == *self,
    {
        Db(share(&self.0))
    }
}

} // verus!
