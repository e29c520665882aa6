//! The ways in which loading or converting a document can fail.

use vstd::prelude::*;
use vstd::string::StringExecFns;

verus! {

/// A failure of loading or converting a document. Each kind carries the text
/// of the failure underneath it.
#[derive(Debug, PartialEq, Eq)]
pub enum Error {
    /// The source text is not TOML; holds the parser's message.
    BadToml(String),
    /// The source text is not YAML; holds the parser's message.
    BadYaml(String),
    /// The source text is not JSON; holds the parser's message.
    BadJson(String),
    /// The path has no extension, or one that names no known grammar; holds
    /// the path.
    UnknownFileExtension(String),
    /// The file could not be read; holds the path and the I/O error's text.
    FileRead(String, String),
    /// The document has no JSON form; holds the encoder's message.
    JsonConversion(String),
    /// The document has no YAML form; holds the encoder's message.
    YamlConversion(String),
    /// The document has no TOML form; holds the encoder's message.
    TomlConversion(String),
}

/// An [`Error`] as contracts see it: the same kinds over sequences of
/// characters.
pub enum ErrorView {
    BadToml(Seq<char>),
    BadYaml(Seq<char>),
    BadJson(Seq<char>),
    UnknownFileExtension(Seq<char>),
    FileRead(Seq<char>, Seq<char>),
    JsonConversion(Seq<char>),
    YamlConversion(Seq<char>),
    TomlConversion(Seq<char>),
}

impl View for Error {
    type V = ErrorView;

    open spec fn view(&self) -> ErrorView {
        match self {
            Error::BadToml(m) => ErrorView::BadToml(m@),
            Error::BadYaml(m) => ErrorView::BadYaml(m@),
            Error::BadJson(m) => ErrorView::BadJson(m@),
            Error::UnknownFileExtension(p) => ErrorView::UnknownFileExtension(p@),
            Error::FileRead(p, m) => ErrorView::FileRead(p@, m@),
            Error::JsonConversion(m) => ErrorView::JsonConversion(m@),
            Error::YamlConversion(m) => ErrorView::YamlConversion(m@),
            Error::TomlConversion(m) => ErrorView::TomlConversion(m@),
        }
    }
}

impl ErrorView {
    /// The sentence that describes the failure to a person.
    pub open spec fn text(self) -> Seq<char> {
        match self {
            ErrorView::BadToml(m) => "Could not parse TOML: "@ + m,
            ErrorView::BadYaml(m) => "Could not parse YAML: "@ + m,
            ErrorView::BadJson(m) => "Could not parse JSON: "@ + m,
            ErrorView::UnknownFileExtension(p) => "Unknown file extension for file '"@ + p + "'"@,
            ErrorView::FileRead(p, m) => "Could not read file '"@ + p + "', error was: "@ + m,
            ErrorView::JsonConversion(m) => "Could not convert to JSON: "@ + m,
            ErrorView::YamlConversion(m) => "Could not convert to YAML: "@ + m,
            ErrorView::TomlConversion(m) => "Could not convert to TOML: "@ + m,
        }
    }
}

/// An outcome with its failure as contracts see it.
pub open spec fn outcome<T>(r: Result<T, Error>) -> Result<T, ErrorView> {
    match r {
        Ok(v) => Ok(v),
        Err(e) => Err(e@),
    }
}

/// `head` followed by `tail`.
fn prefixed(head: &str, tail: &String) -> (text: String)
    ensures
        text@ == head@ + tail@,
{
    String::from_str(head).concat(tail.as_str())
}

impl Error {
    /// The sentence that describes the failure to a person.
    pub fn message(&self) -> (text: String)
        ensures
            text@ == self@.text(),
    {
        match self {
            Error::BadToml(m) => prefixed("Could not parse TOML: ", m),
            Error::BadYaml(m) => prefixed("Could not parse YAML: ", m),
            Error::BadJson(m) => prefixed("Could not parse JSON: ", m),
            Error::UnknownFileExtension(p) => prefixed("Unknown file extension for file '", p).concat("'"),
            Error::FileRead(p, m) => prefixed("Could not read file '", p).concat(
                "', error was: ",
            ).concat(m.as_str()),
            Error::JsonConversion(m) => prefixed("Could not convert to JSON: ", m),
            Error::YamlConversion(m) => prefixed("Could not convert to YAML: ", m),
            Error::TomlConversion(m) => prefixed("Could not convert to TOML: ", m),
        }
    }
}

} // verus!
