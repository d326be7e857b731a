//! The request of the embeddings endpoint.

use vstd::prelude::*;
use crate::json::json_quoted;
use crate::openai::OpenAI;
use crate::payload::{maybe, object_text, one, opt_decimal, opt_quoted, ObjectWriter};
use crate::request::{BodyView, Method, Request};

verus! {

/// The embeddings endpoint.
pub struct EmbeddingsApi<'a>(pub &'a OpenAI);

impl<'a> EmbeddingsApi<'a> {
    /// A submission of `input` to be embedded by `model`. The encoding
    /// format, the number of dimensions and the user are sent where they are
    /// given.
    pub fn create(
        &self,
        input: &str,
        model: &str,
        encoding_format: Option<&str>,
        dimensions: Option<u64>,
        user: Option<&str>,
    ) -> (r: Request)
        ensures
            r@ == self.0.spec_request(
                Method::Post,
                "/embeddings"@,
                BodyView::Json(
                    object_text(
                        one("input"@, json_quoted(input@))
                        + one("model"@, json_quoted(model@))
                        + maybe("encoding_format"@, opt_quoted(encoding_format.deep_view()))
                        + maybe("dimensions"@, opt_decimal(dimensions))
                        + maybe("user"@, opt_quoted(user.deep_view())),
                    ),
                ),
            ),
    {
        let w = ObjectWriter::new();
        let w = w.string("input", input);
        let w = w.string("model", model);
        let w = w.opt_str("encoding_format", encoding_format);
        let w = w.opt_unsigned("dimensions", dimensions);
        let w = w.opt_str("user", user);
        assert(w.members() =~= one("input"@, json_quoted(input@))
            + one("model"@, json_quoted(model@))
            + maybe("encoding_format"@, opt_quoted(encoding_format.deep_view()))
            + maybe("dimensions"@, opt_decimal(dimensions))
            + maybe("user"@, opt_quoted(user.deep_view())));
        self.0.post_json("/embeddings", w.finish())
    }
}

} // verus!
