//! The requests of the image endpoints. Generation sends a JSON body; editing
//! and variation upload files in a multipart form.

use vstd::prelude::*;
use crate::json::json_quoted;
use crate::openai::OpenAI;
use crate::payload::{maybe, object_text, one, opt_decimal, opt_quoted, ObjectWriter};
use crate::request::{maybe_text, BodyView, Method, MultipartForm, PartView, Request};

verus! {

/// The image generation, editing and variation endpoints.
pub struct ImagesApi<'a>(pub &'a OpenAI);

impl<'a> ImagesApi<'a> {
    /// A submission of `prompt` for `model` to draw. The size, the response
    /// format, the number of images and the user are sent where they are
    /// given.
    pub fn generate(
        &self,
        prompt: &str,
        model: &str,
        size: Option<&str>,
        response_format: Option<&str>,
        n: Option<u64>,
        user: Option<&str>,
    ) -> (r: Request)
        ensures
            r@ == self.0.spec_request(
                Method::Post,
                "/images/generations"@,
                BodyView::Json(
                    object_text(
                        one("prompt"@, json_quoted(prompt@))
                        + one("model"@, json_quoted(model@))
                        + maybe("size"@, opt_quoted(size.deep_view()))
                        + maybe("response_format"@, opt_quoted(response_format.deep_view()))
                        + maybe("n"@, opt_decimal(n))
                        + maybe("user"@, opt_quoted(user.deep_view())),
                    ),
                ),
            ),
    {
        let w = ObjectWriter::new();
        let w = w.string("prompt", prompt);
        let w = w.string("model", model);
        let w = w.opt_str("size", size);
        let w = w.opt_str("response_format", response_format);
        let w = w.opt_unsigned("n", n);
        let w = w.opt_str("user", user);
        assert(w.members() =~= one("prompt"@, json_quoted(prompt@))
            + one("model"@, json_quoted(model@))
            + maybe("size"@, opt_quoted(size.deep_view()))
            + maybe("response_format"@, opt_quoted(response_format.deep_view()))
            + maybe("n"@, opt_decimal(n))
            + maybe("user"@, opt_quoted(user.deep_view())));
        self.0.post_json("/images/generations", w.finish())
    }

    /// An upload of an image and a mask to edit by `prompt`. `image` and
    /// `mask` are the contents of the files at `image_path` and `mask_path`,
    /// which are sent under those paths as their file names. The form holds
    /// the model, the image, the mask and the prompt, then one text part for
    /// each optional parameter that is given.
    pub fn edit(
        &self,
        model: &str,
        image_path: &str,
        image: Vec<u8>,
        mask_path: &str,
        mask: Vec<u8>,
        prompt: &str,
        size: Option<&str>,
        response_format: Option<&str>,
        n: Option<u64>,
        user: Option<&str>,
    ) -> (r: Request)
        ensures
            r@ == self.0.spec_request(
                Method::Post,
                "/images/edits"@,
                BodyView::Multipart(
                    seq![PartView::Text { name: "model"@, value: model@ }]
                        + seq![
                        PartView::File {
                            name: "image"@,
                            file_name: image_path@,
                            mime: "image/png"@,
                            bytes: image@,
                        },
                    ]
                        + seq![
                        PartView::File {
                            name: "mask"@,
                            file_name: mask_path@,
                            mime: "image/png"@,
                            bytes: mask@,
                        },
                    ]
                        + seq![PartView::Text { name: "prompt"@, value: prompt@ }]
                        + maybe_text("size"@, size.deep_view())
                        + maybe_text("response_format"@, response_format.deep_view())
                        + maybe_text("n"@, opt_decimal(n))
                        + maybe_text("user"@, user.deep_view()),
                ),
            ),
    {
        let ghost parts = seq![PartView::Text { name: "model"@, value: model@ }]
            + seq![
                PartView::File {
                    name: "image"@,
                    file_name: image_path@,
                    mime: "image/png"@,
                    bytes: image@,
                },
            ]
            + seq![
                PartView::File {
                    name: "mask"@,
                    file_name: mask_path@,
                    mime: "image/png"@,
                    bytes: mask@,
                },
            ]
            + seq![PartView::Text { name: "prompt"@, value: prompt@ }]
            + maybe_text("size"@, size.deep_view())
            + maybe_text("response_format"@, response_format.deep_view())
            + maybe_text("n"@, opt_decimal(n))
            + maybe_text("user"@, user.deep_view());
        let form = MultipartForm::new();
        let form = form.text("model", model);
        let form = form.file("image", image_path, "image/png", image);
        let form = form.file("mask", mask_path, "image/png", mask);
        let form = form.text("prompt", prompt);
        let form = form.opt_text("size", size);
        let form = form.opt_text("response_format", response_format);
        let form = form.opt_unsigned("n", n);
        let form = form.opt_text("user", user);
        assert(form@ =~= parts);
        self.0.post_form("/images/edits", form)
    }

    /// An upload of an image to make variations of. `image` is the content of
    /// the file at `image_path`, which is sent under that path as its file
    /// name. The form holds the model and the image, then one text part for
    /// each optional parameter that is given.
    pub fn variation(
        &self,
        model: &str,
        image_path: &str,
        image: Vec<u8>,
        size: Option<&str>,
        response_format: Option<&str>,
        n: Option<u64>,
        user: Option<&str>,
    ) -> (r: Request)
        ensures
            r@ == self.0.spec_request(
                Method::Post,
                "/images/variations"@,
                BodyView::Multipart(
                    seq![PartView::Text { name: "model"@, value: model@ }]
                        + seq![
                        PartView::File {
                            name: "image"@,
                            file_name: image_path@,
                            mime: "image/png"@,
                            bytes: image@,
                        },
                    ]
                        + maybe_text("size"@, size.deep_view())
                        + maybe_text("response_format"@, response_format.deep_view())
                        + maybe_text("n"@, opt_decimal(n))
                        + maybe_text("user"@, user.deep_view()),
                ),
            ),
    {
        let ghost parts = seq![PartView::Text { name: "model"@, value: model@ }]
            + seq![
                PartView::File {
                    name: "image"@,
                    file_name: image_path@,
                    mime: "image/png"@,
                    bytes: image@,
                },
            ]
            + maybe_text("size"@, size.deep_view())
            + maybe_text("response_format"@, response_format.deep_view())
            + maybe_text("n"@, opt_decimal(n))
            + maybe_text("user"@, user.deep_view());
        let form = MultipartForm::new();
        let form = form.text("model", model);
        let form = form.file("image", image_path, "image/png", image);
        let form = form.opt_text("size", size);
        let form = form.opt_text("response_format", response_format);
        let form = form.opt_unsigned("n", n);
        let form = form.opt_text("user", user);
        assert(form@ =~= parts);
        self.0.post_form("/images/variations", form)
    }
}

} // verus!
