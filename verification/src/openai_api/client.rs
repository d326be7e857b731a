//! The request of the models endpoint.

use vstd::prelude::*;
use crate::openai::OpenAI;
use crate::request::{BodyView, Method, Request};

verus! {

/// The endpoints that list models.
pub struct ClientApi<'a>(pub &'a OpenAI);

impl<'a> ClientApi<'a> {
    /// A retrieval of the list of available models.
    pub fn get_models(&self) -> (r: Request)
        ensures
            r@ == self.0.spec_request(Method::Get, "/models"@, BodyView::Empty),
    {
        self.0.get("/models")
    }
}

} // verus!
