//! The per-connection service: one for each accepted connection, bound to the
//! peer's address, through which no handler failure leaves as anything but a
//! response.

use vstd::prelude::*;
use crate::handler::error::{HandlerError, Response};

verus! {

/// The dispatch unit of one accepted connection. `A` is the type of a remote
/// address.
#[derive(Debug)]
pub struct ConnectionService<A> {
    remote: A,
}

impl<A> ConnectionService<A> {
    /// The address of the peer that this service answers.
    pub closed spec fn spec_remote(&self) -> A {
        self.remote
    }

    /// The service for a connection accepted from `remote`.
    pub fn connect(remote: A) -> (service: Self)
        ensures
            service.spec_remote() == remote,
    {
        ConnectionService { remote }
    }

    /// The address of the peer that this service answers.
    pub fn remote(&self) -> (remote: &A)
        ensures
            *remote == self.spec_remote(),
    {
        &self.remote
    }

    /// What goes back to the protocol driver for one request: the handler's
    /// response where it gave one, the rendering of its error where it failed.
    pub fn respond(&self, outcome: Result<Response, HandlerError>, request_id: &str) -> (response:
        Response)
        ensures
            match outcome {
                Ok(made) => response == made,
                Err(error) => response@ == error.response(request_id@),
            },
    {
        match outcome {
            Ok(made) => made,
            Err(error) => error.into_response(request_id),
        }
    }
}

} // verus!
