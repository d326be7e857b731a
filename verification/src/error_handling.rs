//! The failures a call can end in, and how each is reported.

use vstd::prelude::*;
use vstd::string::*;
use vstd::std_specs::convert::FromSpecImpl;

verus! {

#[verifier::external_type_specification]
#[verifier::external_body]
pub struct ExReqwestError(reqwest::Error);

#[verifier::external_type_specification]
#[verifier::external_body]
pub struct ExSerdeJsonError(serde_json::Error);

#[verifier::external_type_specification]
#[verifier::external_body]
pub struct ExIoError(std::io::Error);

/// The three kinds of failure.
#[derive(Clone, Copy, Debug, PartialEq, Eq, Structural)]
pub enum Category {
    /// The HTTP exchange failed.
    Transport,
    /// Outgoing data could not be written as JSON, or incoming data could not
    /// be read as JSON.
    Encoding,
    /// A local file meant for an upload could not be read.
    LocalIo,
}

/// A failure, holding its cause.
#[derive(Debug)]
pub enum OpenAIError {
    ReqwestError(reqwest::Error),
    SerdeJsonError(serde_json::Error),
    IoError(std::io::Error),
}

pub type OpenAIResult<T> = Result<T, OpenAIError>;

/// The words a failure of each category begins with when reported.
pub open spec fn category_prefix(c: Category) -> Seq<char> {
    match c {
        Category::Transport => "Transport Error: "@,
        Category::Encoding => "Encoding Error: "@,
        Category::LocalIo => "LocalIO Error: "@,
    }
}

/// The report of a failure of category `c` whose cause describes itself as
/// `cause`.
pub open spec fn report_text(c: Category, cause: Seq<char>) -> Seq<char> {
    category_prefix(c) + cause
}

/// Writes the report of a failure of category `c` whose cause describes
/// itself as `cause`.
pub fn report(c: Category, cause: &str) -> (r: String)
    ensures
        r@ == report_text(c, cause@),
{
    let prefix: &str = match c {
        Category::Transport => "Transport Error: ",
        Category::Encoding => "Encoding Error: ",
        Category::LocalIo => "LocalIO Error: ",
    };
    let mut out = String::from_str(prefix);
    out.append(cause);
    out
}

impl OpenAIError {
    pub open spec fn spec_category(&self) -> Category {
        match self {
            OpenAIError::ReqwestError(_) => Category::Transport,
            OpenAIError::SerdeJsonError(_) => Category::Encoding,
            OpenAIError::IoError(_) => Category::LocalIo,
        }
    }

    /// The category this failure belongs to.
    pub fn category(&self) -> (c: Category)
        ensures
            c == self.spec_category(),
    {
        match self {
            OpenAIError::ReqwestError(_) => Category::Transport,
            OpenAIError::SerdeJsonError(_) => Category::Encoding,
            OpenAIError::IoError(_) => Category::LocalIo,
        }
    }

    /// Whether `text` is what the cause of this failure says of itself when
    /// it is displayed.
    pub open spec fn cause_says(&self, text: String) -> bool {
        match self {
            OpenAIError::ReqwestError(e) => to_string_from_display_ensures::<reqwest::Error>(
                e,
                text,
            ),
            OpenAIError::SerdeJsonError(e) => to_string_from_display_ensures::<serde_json::Error>(
                e,
                text,
            ),
            OpenAIError::IoError(e) => to_string_from_display_ensures::<std::io::Error>(e, text),
        }
    }

    /// The report of this failure: the words of its category, then what its
    /// cause says of itself.
    pub fn message(&self) -> (r: String)
        ensures
            exists|cause: String| #[trigger]
                self.cause_says(cause) && r@ == report_text(self.spec_category(), cause@),
    {
        let cause: String = match self {
            OpenAIError::ReqwestError(e) => e.to_string(),
            OpenAIError::SerdeJsonError(e) => e.to_string(),
            OpenAIError::IoError(e) => e.to_string(),
        };
        assert(self.cause_says(cause));
        report(self.category(), cause.as_str())
    }
}

impl From<reqwest::Error> for OpenAIError {
    fn from(e: reqwest::Error) -> (r: OpenAIError) {
        OpenAIError::ReqwestError(e)
    }
}

impl FromSpecImpl<reqwest::Error> for OpenAIError {
    open spec fn obeys_from_spec() -> bool {
        true
    }

    open spec fn from_spec(e: reqwest::Error) -> OpenAIError {
        OpenAIError::ReqwestError(e)
    }
}

impl From<serde_json::Error> for OpenAIError {
    fn from(e: serde_json::Error) -> (r: OpenAIError) {
        OpenAIError::SerdeJsonError(e)
    }
}

impl FromSpecImpl<serde_json::Error> for OpenAIError {
    open spec fn obeys_from_spec() -> bool {
        true
    }

    open spec fn from_spec(e: serde_json::Error) -> OpenAIError {
        OpenAIError::SerdeJsonError(e)
    }
}

impl From<std::io::Error> for OpenAIError {
    fn from(e: std::io::Error) -> (r: OpenAIError) {
        OpenAIError::IoError(e)
    }
}

impl FromSpecImpl<std::io::Error> for OpenAIError {
    open spec fn obeys_from_spec() -> bool {
        true
    }

    open spec fn from_spec(e: std::io::Error) -> OpenAIError {
        OpenAIError::IoError(e)
    }
}

} // verus!
