//! The mediator of one download.

use crate::adapter_trait::{Adapter, AdapterTrait, GetReply, GetRequest};
use crate::custom_error::{Error, ErrorView};
use std::sync::Arc;
use vstd::prelude::*;

verus! {

/// The result of a download for what the backend's reply means: a found
/// stream as a present value, an error as it is. An absent value stands for
/// an object without content, which no reply reports.
pub open spec fn found<S>(outcome: Result<S, ErrorView>, r: Result<Option<S>, Error>) -> bool {
    match outcome {
        Ok(stream) => r == Ok::<Option<S>, Error>(Some(stream)),
        Err(error) => r matches Err(e) && e@ == error,
    }
}

/// Runs downloads through the one backend it was made with.
pub struct Executor {
    client: Arc<Adapter>,
}

impl Executor {
    /// The backend every download goes through.
    pub closed spec fn adapter(&self) -> Adapter {
        *self.client
    }

    pub fn new(client: Arc<Adapter>) -> (executor: Self)
        ensures
            executor.adapter() == *client,
    {
        Self { client }
    }

    /// Begins the download of `filename`: whatever the backend makes of it,
    /// unchanged.
    pub fn execute(&self, filename: &str) -> (r: Result<GetRequest, Error>)
        ensures
            self.adapter().get_planned(filename@, r),
    {
        self.client.get_file(filename)
    }

    /// Ends the download with the backend's reply: the stream the reply
    /// brought, as a present value, or the error the reply means.
    pub fn finish<S>(&self, reply: GetReply<S>) -> (r: Result<Option<S>, Error>)
        ensures
            found(reply.outcome(), r),
    {
        match reply.into_result() {
            Ok(stream) => Ok(Some(stream)),
            Err(error) => Err(error),
        }
    }
}

} // verus!
