use vstd::prelude::*;

pub mod abort;
pub mod channel;
pub mod service;
pub mod table;

verus! {

/// The request and response types that a generated client speaks.
pub trait Client {
    type Request;
    type Response;
}

} // verus!
