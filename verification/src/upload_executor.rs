//! The mediator of one upload.

use crate::adapter_trait::{outcome_view, Adapter, AdapterTrait, PutReply, PutRequest};
use crate::custom_error::Error;
use std::sync::Arc;
use vstd::prelude::*;

verus! {

/// Runs uploads through the one backend it was made with.
pub struct Executor {
    client: Arc<Adapter>,
}

impl Executor {
    /// The backend every upload goes through.
    pub closed spec fn adapter(&self) -> Adapter {
        *self.client
    }

    pub fn new(client: Arc<Adapter>) -> (executor: Self)
        ensures
            executor.adapter() == *client,
    {
        Self { client }
    }

    /// Begins the upload of `reader` under `filename`: whatever the backend
    /// makes of it, unchanged.
    pub fn execute<R>(&self, filename: &str, reader: R) -> (r: Result<PutRequest<R>, Error>)
        ensures
            self.adapter().put_planned(filename@, reader, r),
    {
        self.client.put_file(filename, reader)
    }

    /// Ends the upload with the backend's reply: what the reply means,
    /// unchanged.
    pub fn finish(&self, reply: PutReply) -> (r: Result<(), Error>)
        ensures
            outcome_view(r) == reply.outcome(),
    {
        reply.into_result()
    }
}

} // verus!
