//! The context that every handler is given.

use vstd::prelude::*;
use crate::envelope::{ResError, ResErrorView};

verus! {

/// Process-wide context, filled once at startup and only read afterwards.
///
/// `D` is the database handle. It is optional: a process that could not
/// reach its database still starts, and answers with an error where a
/// handler needs the database.
#[derive(Debug)]
pub struct AppState<D> {
    pub version: String,
    pub mon_db: Option<D>,
}

impl<D> AppState<D> {
    /// The database handle, or the error to answer with when there is none.
    pub fn database(&self) -> (r: Result<&D, ResError>)
        ensures
            match self.mon_db {
                Some(db) => r == Ok::<&D, ResError>(&db),
                None => r matches Err(e) && e@ == ResErrorView::no_database(),
            },
    {
        match &self.mon_db {
            Some(db) => Ok(db),
            None => Err(ResError::no_database()),
        }
    }
}

} // verus!
