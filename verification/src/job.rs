//! A job: one accepted connection and what is needed to answer it.

use crate::catalog::{CatalogView, ResponseCatalog};
use crate::handler::{respond, response_for, route_of, Reply};
use std::sync::Arc;
use vstd::prelude::*;

verus! {

/// The abstract value of a job.
pub struct JobView<C> {
    /// The connection to answer.
    pub connection: C,
    /// The payloads to answer it with.
    pub catalog: CatalogView,
}

/// An accepted connection bound to the catalog it is answered from. It is
/// made by the listener and taken apart by the one worker that serves it.
pub struct Job<C> {
    connection: C,
    catalog: Arc<ResponseCatalog>,
}

impl<C> View for Job<C> {
    type V = JobView<C>;

    closed spec fn view(&self) -> JobView<C> {
        JobView { connection: self.connection, catalog: self.catalog@ }
    }
}

impl<C> Job<C> {
    /// Binds `connection` to `catalog`.
    pub fn new(connection: C, catalog: Arc<ResponseCatalog>) -> (job: Job<C>)
        ensures
            job@ == (JobView { connection, catalog: catalog@ }),
    {
        Job { connection, catalog }
    }

    /// The connection to answer.
    pub fn connection(&self) -> (connection: &C)
        ensures
            *connection == self@.connection,
    {
        &self.connection
    }

    /// The reply to this job's connection, from the one line read from it;
    /// `None` stands for a connection that gave no line.
    pub fn respond(&self, line: Option<&str>) -> (reply: Reply)
        ensures
            line is None ==> reply is Close,
            line matches Some(l) ==> reply matches Reply::Send { delay_secs, bytes }
                && delay_secs == route_of(l@).spec_delay_secs()
                && bytes@ == response_for(l@, self@.catalog),
    {
        respond(line, &self.catalog)
    }

    /// Takes the job apart.
    pub fn into_parts(self) -> (parts: (C, Arc<ResponseCatalog>))
        ensures
            parts.0 == self@.connection,
            parts.1@ == self@.catalog,
    {
        (self.connection, self.catalog)
    }
}

} // verus!
