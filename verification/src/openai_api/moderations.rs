//! The request of the moderation endpoint.

use vstd::prelude::*;
use crate::json::json_quoted;
use crate::openai::OpenAI;
use crate::payload::{maybe, object_text, one, opt_quoted, ObjectWriter};
use crate::request::{BodyView, Method, Request};

verus! {

/// The moderation endpoint.
pub struct ModerationApi<'a>(pub &'a OpenAI);

impl<'a> ModerationApi<'a> {
    /// A submission of `input` to be moderated. The model is sent where it is
    /// given.
    pub fn moderate(&self, input: &str, model: Option<&str>) -> (r: Request)
        ensures
            r@ == self.0.spec_request(
                Method::Post,
                "/moderations"@,
                BodyView::Json(
                    object_text(
                        one("input"@, json_quoted(input@))
                        + maybe("model"@, opt_quoted(model.deep_view())),
                    ),
                ),
            ),
    {
        let w = ObjectWriter::new();
        let w = w.string("input", input);
        let w = w.opt_str("model", model);
        assert(w.members() =~= one("input"@, json_quoted(input@))
            + maybe("model"@, opt_quoted(model.deep_view())));
        self.0.post_json("/moderations", w.finish())
    }
}

} // verus!
