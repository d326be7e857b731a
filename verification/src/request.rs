//! HTTP requests as values: what is to be sent, before anything is sent.

use vstd::prelude::*;
use vstd::string::*;
use crate::json::{decimal, JsonNumber};
use crate::payload::opt_decimal;

verus! {

/// The HTTP method of a request.
#[derive(Clone, Copy, Debug, PartialEq, Eq, Structural)]
pub enum Method {
    Get,
    Post,
    Delete,
}

/// One header line.
#[derive(Debug, PartialEq, Eq)]
pub struct Header {
    pub name: String,
    pub value: String,
}

pub struct HeaderView {
    pub name: Seq<char>,
    pub value: Seq<char>,
}

impl View for Header {
    type V = HeaderView;

    open spec fn view(&self) -> HeaderView {
        HeaderView { name: self.name@, value: self.value@ }
    }
}

/// One part of a multipart form.
#[derive(Debug, PartialEq, Eq)]
pub enum FormPart {
    /// A text field.
    Text { name: String, value: String },
    /// A file: its content, the file name it is sent under, and its MIME type.
    File { name: String, file_name: String, mime: String, bytes: Vec<u8> },
}

pub enum PartView {
    Text { name: Seq<char>, value: Seq<char> },
    File { name: Seq<char>, file_name: Seq<char>, mime: Seq<char>, bytes: Seq<u8> },
}

impl View for FormPart {
    type V = PartView;

    open spec fn view(&self) -> PartView {
        match self {
            FormPart::Text { name, value } => PartView::Text { name: name@, value: value@ },
            FormPart::File { name, file_name, mime, bytes } => PartView::File {
                name: name@,
                file_name: file_name@,
                mime: mime@,
                bytes: bytes@,
            },
        }
    }
}

/// The text part `name` where a value is present, nothing where it is absent.
pub open spec fn maybe_text(name: Seq<char>, value: Option<Seq<char>>) -> Seq<PartView> {
    match value {
        Some(v) => seq![PartView::Text { name, value: v }],
        None => Seq::empty(),
    }
}

/// A multipart form: its parts, in the order in which they were added.
#[derive(Debug, PartialEq, Eq)]
pub struct MultipartForm {
    pub parts: Vec<FormPart>,
}

impl View for MultipartForm {
    type V = Seq<PartView>;

    open spec fn view(&self) -> Seq<PartView> {
        self.parts@.map_values(|p: FormPart| p@)
    }
}

impl MultipartForm {
    /// A form without parts.
    pub fn new() -> (f: Self)
        ensures
            f@ == Seq::<PartView>::empty(),
    {
        let f = MultipartForm { parts: Vec::new() };
        assert(f@ =~= Seq::<PartView>::empty());
        f
    }

    /// Adds the text field `name` with the value `value`.
    pub fn text(self, name: &str, value: &str) -> (f: Self)
        ensures
            f@ == self@ + seq![PartView::Text { name: name@, value: value@ }],
    {
        let mut parts = self.parts;
        parts.push(FormPart::Text { name: String::from_str(name), value: String::from_str(value) });
        let f = MultipartForm { parts };
        assert(f@ =~= self@ + seq![PartView::Text { name: name@, value: value@ }]);
        f
    }

    /// Adds the text field `name` where `value` is present, and nothing
    /// where it is absent.
    pub fn opt_text(self, name: &str, value: Option<&str>) -> (f: Self)
        ensures
            f@ == self@ + maybe_text(name@, value.deep_view()),
    {
        match value {
            Some(v) => self.text(name, v),
            None => {
                assert(self@ + maybe_text(name@, value.deep_view()) =~= self@);
                self
            },
        }
    }

    /// Adds the text field `name` with the numeral of a number where one
    /// is given.
    pub fn opt_unsigned(self, name: &str, value: Option<u64>) -> (f: Self)
        ensures
            f@ == self@ + maybe_text(name@, opt_decimal(value)),
    {
        match value {
            Some(v) => {
                let text: String = decimal(v);
                self.text(name, text.as_str())
            },
            None => self.opt_text(name, None),
        }
    }

    /// Adds the text field `name` with a numeral where one is given.
    pub fn opt_number(self, name: &str, value: &Option<JsonNumber>) -> (f: Self)
        ensures
            f@ == self@ + maybe_text(name@, value.deep_view()),
    {
        match value {
            Some(v) => self.text(name, v.as_str()),
            None => self.opt_text(name, None),
        }
    }

    /// Adds the file `name`, sent under `file_name` with type `mime`.
    pub fn file(self, name: &str, file_name: &str, mime: &str, bytes: Vec<u8>) -> (f: Self)
        ensures
            f@ == self@ + seq![
                PartView::File { name: name@, file_name: file_name@, mime: mime@, bytes: bytes@ },
            ],
    {
        let ghost added = PartView::File {
            name: name@,
            file_name: file_name@,
            mime: mime@,
            bytes: bytes@,
        };
        let mut parts = self.parts;
        parts.push(
            FormPart::File {
                name: String::from_str(name),
                file_name: String::from_str(file_name),
                mime: String::from_str(mime),
                bytes,
            },
        );
        let f = MultipartForm { parts };
        assert(f@ =~= self@ + seq![added]);
        f
    }
}

/// What a request carries.
#[derive(Debug, PartialEq, Eq)]
pub enum Body {
    /// Nothing.
    Empty,
    /// JSON text.
    Json(String),
    /// A multipart form.
    Multipart(MultipartForm),
}

pub enum BodyView {
    Empty,
    Json(Seq<char>),
    Multipart(Seq<PartView>),
}

impl View for Body {
    type V = BodyView;

    open spec fn view(&self) -> BodyView {
        match self {
            Body::Empty => BodyView::Empty,
            Body::Json(text) => BodyView::Json(text@),
            Body::Multipart(form) => BodyView::Multipart(form@),
        }
    }
}

/// One request, ready to be sent.
#[derive(Debug, PartialEq, Eq)]
pub struct Request {
    pub method: Method,
    pub url: String,
    pub headers: Vec<Header>,
    pub body: Body,
}

pub struct RequestView {
    pub method: Method,
    pub url: Seq<char>,
    pub headers: Seq<HeaderView>,
    pub body: BodyView,
}

impl View for Request {
    type V = RequestView;

    open spec fn view(&self) -> RequestView {
        RequestView {
            method: self.method,
            url: self.url@,
            headers: self.headers@.map_values(|h: Header| h@),
            body: self.body@,
        }
    }
}

/// The header that carries the credential.
pub open spec fn authorization_header(value: Seq<char>) -> HeaderView {
    HeaderView { name: "Authorization"@, value }
}

/// The header that announces a JSON body.
pub open spec fn json_content_header() -> HeaderView {
    HeaderView { name: "Content-Type"@, value: "application/json"@ }
}

/// The request that method `method` makes to `url` with the credential
/// header `authorization` and the body `body`. A JSON body is announced by a
/// content type header; no other body is.
pub open spec fn request_view(
    method: Method,
    url: Seq<char>,
    authorization: Seq<char>,
    body: BodyView,
) -> RequestView {
    RequestView {
        method,
        url,
        headers: match body {
            BodyView::Json(_) => seq![authorization_header(authorization), json_content_header()],
            _ => seq![authorization_header(authorization)],
        },
        body,
    }
}

impl Request {
    /// Builds the request that method `method` makes to `url` with the
    /// credential header `authorization` and the body `body`.
    pub fn new(method: Method, url: String, authorization: &str, body: Body) -> (r: Self)
        ensures
            r@ == request_view(method, url@, authorization@, body@),
    {
        let mut headers: Vec<Header> = Vec::new();
        headers.push(
            Header {
                name: String::from_str("Authorization"),
                value: String::from_str(authorization),
            },
        );
        match &body {
            Body::Json(_) => {
                headers.push(
                    Header {
                        name: String::from_str("Content-Type"),
                        value: String::from_str("application/json"),
                    },
                );
            },
            _ => {},
        }
        let r = Request { method, url, headers, body };
        assert(r@.headers =~= request_view(method, url@, authorization@, body@).headers);
        r
    }
}

} // verus!
