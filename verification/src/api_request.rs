use vstd::prelude::*;

verus! {

/// The HTTP method of a vendor API request, with the request body for PUT.
#[derive(Debug)]
pub enum Method {
    Get,
    /// contains the request body
    Put(String),
}

} // verus!
