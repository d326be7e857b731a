//! A plain client: a key, and retrievals and submissions to full addresses.

use vstd::prelude::*;
use vstd::string::*;
use crate::json::Json;
use crate::openai::bearer;
use crate::request::{request_view, Body, BodyView, Method, Request};

verus! {

/// A key under which requests are made.
pub struct RequestClient {
    pub api_key: String,
}

impl RequestClient {
    /// A client for the key `api_key`.
    pub fn new(api_key: &str) -> (r: Self)
        ensures
            r.api_key@ == api_key@,
    {
        RequestClient { api_key: String::from_str(api_key) }
    }

    fn authorization(&self) -> (r: String)
        ensures
            r@ == bearer(self.api_key@),
    {
        let mut value = String::from_str("Bearer ");
        value.append(self.api_key.as_str());
        value
    }

    /// A retrieval of the address `url`, with the key as credential.
    pub fn get(&self, url: &str) -> (r: Request)
        ensures
            r@ == request_view(Method::Get, url@, bearer(self.api_key@), BodyView::Empty),
    {
        let authorization = self.authorization();
        Request::new(Method::Get, String::from_str(url), authorization.as_str(), Body::Empty)
    }

    /// A submission of the JSON value `body` to the address `url`, with the
    /// key as credential.
    pub fn post(&self, url: &str, body: &Json) -> (r: Request)
        ensures
            r@ == request_view(Method::Post, url@, bearer(self.api_key@), BodyView::Json(body@)),
    {
        let authorization = self.authorization();
        Request::new(
            Method::Post,
            String::from_str(url),
            authorization.as_str(),
            Body::Json(String::from_str(body.as_str())),
        )
    }
}

} // verus!
