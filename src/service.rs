use vstd::prelude::*;

use std::future::Future;

use futures_channel::oneshot;

verus! {

/// Executes calls on the serving side, inline or as a suspendable computation,
/// and tells up front which of the two a request needs.
pub trait Service {
    type Request;
    type Response;
    /// The suspendable computation of one call.
    type Execution: Future<Output = (usize, Option<Self::Response>)>;

    /// Whether `request` must run on the suspendable path.
    spec fn needs_async(request: &Self::Request) -> bool;

    /// Runs a call that may be abandoned: once `abort_rx` fires it stops and
    /// reports no response.
    fn execute_async(
        &self,
        seq_id: usize,
        abort_rx: oneshot::Receiver<()>,
        request: Self::Request,
    ) -> Self::Execution
        requires
            Self::needs_async(&request),
    ;

    /// Runs a call to completion on the calling thread.
    fn execute(&self, seq_id: usize, request: Self::Request) -> (r: (usize, Option<Self::Response>))
        requires
            !Self::needs_async(&request),
        ensures
            r.0 == seq_id,
    ;

    /// Classifies a request without executing it.
    fn is_async_request(request: &Self::Request) -> (r: bool)
        ensures
            r == Self::needs_async(request),
    ;
}

/// Where a dispatched call stands: finished inline with its identifier and
/// response, or started as a suspendable computation still to be driven.
pub enum Dispatch<R, E> {
    Done(usize, Option<R>),
    Suspended(E),
}

/// Runs one call on the path its request needs: inline, finished before this
/// returns, or started on the suspendable path with `abort_rx` to watch.
pub fn dispatch<S: Service>(
    service: &S,
    seq_id: usize,
    abort_rx: oneshot::Receiver<()>,
    request: S::Request,
) -> (r: Dispatch<S::Response, S::Execution>)
    ensures
        r is Done <==> !S::needs_async(&request),
        r matches Dispatch::Done(id, _) ==> id == seq_id,
        r matches Dispatch::Done(id, resp) ==> call_ensures(
            S::execute,
            (service, seq_id, request),
            (id, resp),
        ),
        r matches Dispatch::Suspended(e) ==> call_ensures(
            S::execute_async,
            (service, seq_id, abort_rx, request),
            e,
        ),
{
    if S::is_async_request(&request) {
        Dispatch::Suspended(service.execute_async(seq_id, abort_rx, request))
    } else {
        let (id, response) = service.execute(seq_id, request);
        Dispatch::Done(id, response)
    }
}

/// The path of a request is a function of the request alone: two equal
/// requests are classified alike, whenever and however often it is asked.
pub proof fn classification_is_deterministic<S: Service>(a: &S::Request, b: &S::Request)
    requires
        a == b,
    ensures
        S::needs_async(a) == S::needs_async(b),
{
}

} // verus!
