use vstd::prelude::*;
use crate::message::Request;

verus! {

/// The place where a client's credentials are put on a request. It holds none
/// yet, and hands every request on as it came.
#[derive(Debug, Clone, Copy, Default)]
pub struct AuthMiddleware;

impl AuthMiddleware {
    /// Returns the request unchanged.
    pub fn handle(&self, req: Request) -> (out: Request)
        ensures
            out == req,
    {
        req
    }
}

} // verus!
