//! The service-client example: the blocking half of the pair of clients
//! that dual-mode emission produces from one logical API.
//!
//! `InnerClientSync` is the blocking variant of the inner client trait;
//! `ServiceClientSync` implements it and offers the bucket operations on
//! top.  `ServiceClientAsync` is the suspension-capable sibling's anchor
//! type; its suspending methods live with the embedding program, outside
//! the verified library.

use vstd::prelude::*;

verus! {

/// A service response.
pub type Response = String;

/// A request target.
pub type Url = &'static str;

/// A request method name.
pub type Method = String;

/// The blocking inner client: one required transport method, and the two
/// convenience wrappers every client shares.
pub trait InnerClientSync {
    /// What a request returns, per implementation.
    spec fn request_spec(method: Seq<char>, url: Seq<char>, data: Seq<char>) -> Seq<char>;

    /// Send one request and return the response.
    fn request(method: Method, url: Url, data: String) -> (r: Response)
        ensures
            r@ == Self::request_spec(method@, url@, data@),
    ;

    /// Send a `post` request.
    fn post(url: Url, data: String) -> (r: Response)
        ensures
            r@ == Self::request_spec("post"@, url@, data@),
    {
        Self::request(String::from_str("post"), url, data)
    }

    /// Send a `delete` request.
    fn delete(url: Url, data: String) -> (r: Response)
        ensures
            r@ == Self::request_spec("delete"@, url@, data@),
    {
        Self::request(String::from_str("delete"), url, data)
    }
}

/// The blocking service client.
pub struct ServiceClientSync;

/// The suspension-capable service client's anchor: its suspending methods
/// belong to the embedding program, not to the verified library.
pub struct ServiceClientAsync;

/// What every pretend request of the example client answers.
pub open spec fn canned_response() -> Seq<char> {
    "pretend we have a response"@
}

impl InnerClientSync for ServiceClientSync {
    open spec fn request_spec(method: Seq<char>, url: Seq<char>, data: Seq<char>) -> Seq<char> {
        canned_response()
    }

    #[allow(unused_variables)]
    fn request(method: Method, url: Url, data: String) -> (r: Response) {
        String::from_str("pretend we have a response")
    }
}

impl ServiceClientSync {
    /// Create a bucket, blocking until the service answers.
    #[allow(unused_variables)]
    pub fn create_bucket(name: String) -> (r: Response)
        ensures
            r@ == canned_response(),
    {
        Self::post("http://correct_url4create", String::from_str("my_bucket"))
    }

    /// Delete a bucket, blocking until the service answers.
    #[allow(unused_variables)]
    pub fn delete_bucket(name: String) -> (r: Response)
        ensures
            r@ == canned_response(),
    {
        Self::delete("http://correct_url4delete", String::from_str("my_bucket"))
    }
}

} // verus!
