//! The requests of the audio endpoints, which upload a file in a multipart
//! form.

use vstd::prelude::*;
use crate::json::JsonNumber;
use crate::openai::OpenAI;
use crate::request::{maybe_text, BodyView, Method, MultipartForm, PartView, Request};

verus! {

/// The audio transcription and translation endpoints.
pub struct AudioApi<'a>(pub &'a OpenAI);

impl<'a> AudioApi<'a> {
    /// An upload of an audio file to transcribe. `file` is the content of the
    /// file at `file_path`, which is sent under that path as its file name.
    /// The form holds the model and the file, then one text part for each
    /// optional parameter that is given.
    pub fn transcribe(
        &self,
        model: &str,
        file_path: &str,
        file: Vec<u8>,
        prompt: Option<&str>,
        response_format: Option<&str>,
        temperature: Option<JsonNumber>,
        language: Option<&str>,
    ) -> (r: Request)
        ensures
            r@ == self.0.spec_request(
                Method::Post,
                "/audio/transcriptions"@,
                BodyView::Multipart(
                    seq![PartView::Text { name: "model"@, value: model@ }]
                        + seq![
                        PartView::File {
                            name: "file"@,
                            file_name: file_path@,
                            mime: "audio/mpeg"@,
                            bytes: file@,
                        },
                    ]
                        + maybe_text("prompt"@, prompt.deep_view())
                        + maybe_text("response_format"@, response_format.deep_view())
                        + maybe_text("temperature"@, temperature.deep_view())
                        + maybe_text("language"@, language.deep_view()),
                ),
            ),
    {
        let ghost parts = seq![PartView::Text { name: "model"@, value: model@ }]
            + seq![
                PartView::File {
                    name: "file"@,
                    file_name: file_path@,
                    mime: "audio/mpeg"@,
                    bytes: file@,
                },
            ]
            + maybe_text("prompt"@, prompt.deep_view())
            + maybe_text("response_format"@, response_format.deep_view())
            + maybe_text("temperature"@, temperature.deep_view())
            + maybe_text("language"@, language.deep_view());
        let form = MultipartForm::new();
        let form = form.text("model", model);
        let form = form.file("file", file_path, "audio/mpeg", file);
        let form = form.opt_text("prompt", prompt);
        let form = form.opt_text("response_format", response_format);
        let form = form.opt_number("temperature", &temperature);
        let form = form.opt_text("language", language);
        assert(form@ =~= parts);
        self.0.post_form("/audio/transcriptions", form)
    }

    /// An upload of an audio file to translate. `file` is the content of the
    /// file at `file_path`, which is sent under that path as its file name.
    /// The form holds the model and the file, then one text part for each
    /// optional parameter that is given.
    pub fn translate(
        &self,
        model: &str,
        file_path: &str,
        file: Vec<u8>,
        prompt: Option<&str>,
        response_format: Option<&str>,
        temperature: Option<JsonNumber>,
    ) -> (r: Request)
        ensures
            r@ == self.0.spec_request(
                Method::Post,
                "/audio/translations"@,
                BodyView::Multipart(
                    seq![PartView::Text { name: "model"@, value: model@ }]
                        + seq![
                        PartView::File {
                            name: "file"@,
                            file_name: file_path@,
                            mime: "audio/mpeg"@,
                            bytes: file@,
                        },
                    ]
                        + maybe_text("prompt"@, prompt.deep_view())
                        + maybe_text("response_format"@, response_format.deep_view())
                        + maybe_text("temperature"@, temperature.deep_view()),
                ),
            ),
    {
        let ghost parts = seq![PartView::Text { name: "model"@, value: model@ }]
            + seq![
                PartView::File {
                    name: "file"@,
                    file_name: file_path@,
                    mime: "audio/mpeg"@,
                    bytes: file@,
                },
            ]
            + maybe_text("prompt"@, prompt.deep_view())
            + maybe_text("response_format"@, response_format.deep_view())
            + maybe_text("temperature"@, temperature.deep_view());
        let form = MultipartForm::new();
        let form = form.text("model", model);
        let form = form.file("file", file_path, "audio/mpeg", file);
        let form = form.opt_text("prompt", prompt);
        let form = form.opt_text("response_format", response_format);
        let form = form.opt_number("temperature", &temperature);
        assert(form@ =~= parts);
        self.0.post_form("/audio/translations", form)
    }
}

} // verus!
