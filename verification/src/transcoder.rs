//! Documents tagged with the grammar they were parsed from, and their
//! conversion into the value tree of another grammar.

use crate::codecs::{
    clone_json, clone_toml, clone_yaml, failure_as_text, json_from_text, json_from_toml,
    json_from_yaml, json_to_yaml, parse_json, parse_toml, parse_yaml, toml_from_text,
    toml_to_json, toml_to_yaml, yaml_from_json, yaml_from_text, yaml_from_toml, yaml_to_json,
};
use crate::error::{outcome, Error, ErrorView};
use crate::markup::{extensions_name_their_grammar, path_extension, same_ignoring_case, Markup};
use vstd::prelude::*;

verus! {

/// A parsed document, tagged with the grammar it came from. Each variant
/// holds the value tree of that grammar's own parser.
#[derive(Debug, PartialEq)]
pub enum Format {
    /// A JSON document.
    Json(serde_json::Value),
    /// A TOML document.
    Toml(toml::Value),
    /// A YAML document.
    Yaml(serde_yaml::Value),
}

impl Clone for Format {
    /// A copy holds the same document under the same tag.
    fn clone(&self) -> (copy: Format)
        ensures
            copy == *self,
    {
        match self {
            Format::Json(doc) => Format::Json(clone_json(doc)),
            Format::Toml(doc) => Format::Toml(clone_toml(doc)),
            Format::Yaml(doc) => Format::Yaml(clone_yaml(doc)),
        }
    }
}

impl Format {
    /// The grammar that the document came from.
    pub open spec fn spec_markup(&self) -> Markup {
        match self {
            Format::Json(_) => Markup::Json,
            Format::Toml(_) => Markup::Toml,
            Format::Yaml(_) => Markup::Yaml,
        }
    }

    /// What a JSON parser's outcome amounts to: the document under the JSON
    /// tag, or the parser's complaint as a bad-JSON failure.
    pub open spec fn of_json(parsed: Result<serde_json::Value, Seq<char>>) -> Result<
        Format,
        ErrorView,
    > {
        match parsed {
            Ok(doc) => Ok(Format::Json(doc)),
            Err(why) => Err(ErrorView::BadJson(why)),
        }
    }

    /// What a TOML parser's outcome amounts to: the document under the TOML
    /// tag, or the parser's complaint as a bad-TOML failure.
    pub open spec fn of_toml(parsed: Result<toml::Value, Seq<char>>) -> Result<Format, ErrorView> {
        match parsed {
            Ok(doc) => Ok(Format::Toml(doc)),
            Err(why) => Err(ErrorView::BadToml(why)),
        }
    }

    /// What a YAML parser's outcome amounts to: the document under the YAML
    /// tag, or the parser's complaint as a bad-YAML failure.
    pub open spec fn of_yaml(parsed: Result<serde_yaml::Value, Seq<char>>) -> Result<
        Format,
        ErrorView,
    > {
        match parsed {
            Ok(doc) => Ok(Format::Yaml(doc)),
            Err(why) => Err(ErrorView::BadYaml(why)),
        }
    }

    /// What parsing a text under a grammar gives.
    pub open spec fn parsed(markup: Markup, src: Seq<char>) -> Result<Format, ErrorView> {
        match markup {
            Markup::Json => Format::of_json(json_from_text(src)),
            Markup::Toml => Format::of_toml(toml_from_text(src)),
            Markup::Yaml => Format::of_yaml(yaml_from_text(src)),
        }
    }

    /// The grammar that the document came from.
    #[verifier::when_used_as_spec(spec_markup)]
    pub fn markup(&self) -> (markup: Markup)
        ensures
            markup == self.spec_markup(),
    {
        match self {
            Format::Json(_) => Markup::Json,
            Format::Toml(_) => Markup::Toml,
            Format::Yaml(_) => Markup::Yaml,
        }
    }

    /// Tags a JSON parser's outcome: a document becomes `Format::Json`, a
    /// complaint becomes `Error::BadJson`.
    pub fn from_json(parsed: Result<serde_json::Value, String>) -> (r: Result<Format, Error>)
        ensures
            outcome(r) == Format::of_json(failure_as_text(parsed)),
    {
        match parsed {
            Ok(doc) => Ok(Format::Json(doc)),
            Err(why) => Err(Error::BadJson(why)),
        }
    }

    /// Tags a TOML parser's outcome: a document becomes `Format::Toml`, a
    /// complaint becomes `Error::BadToml`.
    pub fn from_toml(parsed: Result<toml::Value, String>) -> (r: Result<Format, Error>)
        ensures
            outcome(r) == Format::of_toml(failure_as_text(parsed)),
    {
        match parsed {
            Ok(doc) => Ok(Format::Toml(doc)),
            Err(why) => Err(Error::BadToml(why)),
        }
    }

    /// Tags a YAML parser's outcome: a document becomes `Format::Yaml`, a
    /// complaint becomes `Error::BadYaml`.
    pub fn from_yaml(parsed: Result<serde_yaml::Value, String>) -> (r: Result<Format, Error>)
        ensures
            outcome(r) == Format::of_yaml(failure_as_text(parsed)),
    {
        match parsed {
            Ok(doc) => Ok(Format::Yaml(doc)),
            Err(why) => Err(Error::BadYaml(why)),
        }
    }

    /// Parses a text as YAML. Text that the parser rejects gives
    /// `Error::BadYaml` with the parser's message.
    pub fn yaml(src: &str) -> (r: Result<Format, Error>)
        ensures
            outcome(r) == Format::of_yaml(yaml_from_text(src@)),
    {
        Format::from_yaml(parse_yaml(src))
    }

    /// Parses a text as TOML. Text that the parser rejects gives
    /// `Error::BadToml` with the parser's message.
    pub fn toml(src: &str) -> (r: Result<Format, Error>)
        ensures
            outcome(r) == Format::of_toml(toml_from_text(src@)),
    {
        Format::from_toml(parse_toml(src))
    }

    /// Parses a text as JSON. Text that the parser rejects gives
    /// `Error::BadJson` with the parser's message.
    pub fn json(src: &str) -> (r: Result<Format, Error>)
        ensures
            outcome(r) == Format::of_json(json_from_text(src@)),
    {
        Format::from_json(parse_json(src))
    }

    /// Parses a text under the grammar asked for.
    pub fn from_text(markup: Markup, src: &str) -> (r: Result<Format, Error>)
        ensures
            outcome(r) == Format::parsed(markup, src@),
    {
        match markup {
            Markup::Json => Format::json(src),
            Markup::Toml => Format::toml(src),
            Markup::Yaml => Format::yaml(src),
        }
    }
}

/// How reading a file went, as contracts see it: the contents, or the text of
/// the I/O failure.
pub open spec fn read_view(read: Result<String, String>) -> Result<Seq<char>, Seq<char>> {
    match read {
        Ok(src) => Ok(src@),
        Err(why) => Err(why@),
    }
}

/// What loading a document from a file gives, going by the path and by how
/// reading the file went.
///
/// A path whose extension names no grammar fails before the read is looked
/// at; then a failed read fails; otherwise the contents are parsed under the
/// grammar that the extension names.
pub open spec fn loaded(path: Seq<char>, read: Result<Seq<char>, Seq<char>>) -> Result<
    Format,
    ErrorView,
> {
    match Markup::of_path(path) {
        None => Err(ErrorView::UnknownFileExtension(path)),
        Some(markup) => match read {
            Err(why) => Err(ErrorView::FileRead(path, why)),
            Ok(src) => Format::parsed(markup, src),
        },
    }
}

/// Loads the document of the file at `path`, given how reading that file as
/// text went: `Ok` with its contents, or `Err` with the text of the I/O
/// failure.
///
/// The extension decides first: without one that names a grammar the result
/// is `Error::UnknownFileExtension`, whatever the read gave. A caller spares
/// itself the read in that case by asking `Markup::from_path` beforehand.
pub fn parse(path: &str, read: Result<String, String>) -> (r: Result<Format, Error>)
    ensures
        outcome(r) == loaded(path@, read_view(read)),
        Markup::of_path(path@) is None ==> outcome(r) == Err::<Format, ErrorView>(
            ErrorView::UnknownFileExtension(path@),
        ),
        Markup::of_path(path@) is Some && read is Err ==> outcome(r) == Err::<Format, ErrorView>(
            ErrorView::FileRead(path@, read->Err_0@),
        ),
        !path@.contains('.') ==> outcome(r) == Err::<Format, ErrorView>(
            ErrorView::UnknownFileExtension(path@),
        ),
{
    match Markup::from_path(path) {
        None => Err(Error::UnknownFileExtension(path.to_owned())),
        Some(markup) => match read {
            Err(why) => Err(Error::FileRead(path.to_owned(), why)),
            Ok(src) => Format::from_text(markup, src.as_str()),
        },
    }
}

/// A parsed document, kept for conversion into other grammars' value trees.
/// It is never changed after it is made.
#[derive(Debug)]
pub struct Transcoder {
    input: Format,
}

impl View for Transcoder {
    type V = Format;

    /// The document that the transcoder holds.
    closed spec fn view(&self) -> Format {
        self.input
    }
}

impl Transcoder {
    /// The outcome of making a transcoder, as contracts see it: the document
    /// it holds, or the failure.
    pub open spec fn held(r: Result<Transcoder, Error>) -> Result<Format, ErrorView> {
        match r {
            Ok(made) => Ok(made@),
            Err(e) => Err(e@),
        }
    }

    /// What an encoder's outcome amounts to on the way to JSON: the value, or
    /// the encoder's complaint as a JSON-conversion failure.
    pub open spec fn json_or(encoded: Result<serde_json::Value, Seq<char>>) -> Result<
        serde_json::Value,
        ErrorView,
    > {
        match encoded {
            Ok(json) => Ok(json),
            Err(why) => Err(ErrorView::JsonConversion(why)),
        }
    }

    /// What an encoder's outcome amounts to on the way to YAML: the value, or
    /// the encoder's complaint as a YAML-conversion failure.
    pub open spec fn yaml_or(encoded: Result<serde_yaml::Value, Seq<char>>) -> Result<
        serde_yaml::Value,
        ErrorView,
    > {
        match encoded {
            Ok(yaml) => Ok(yaml),
            Err(why) => Err(ErrorView::YamlConversion(why)),
        }
    }

    /// The JSON form of a document: itself where it is JSON already, else
    /// what the JSON encoder makes of it.
    pub open spec fn json_of(input: Format) -> Result<serde_json::Value, ErrorView> {
        match input {
            Format::Json(doc) => Ok(doc),
            Format::Toml(doc) => Transcoder::json_or(json_from_toml(doc)),
            Format::Yaml(doc) => Transcoder::json_or(json_from_yaml(doc)),
        }
    }

    /// The YAML form of a document: itself where it is YAML already, else
    /// what the YAML encoder makes of it.
    pub open spec fn yaml_of(input: Format) -> Result<serde_yaml::Value, ErrorView> {
        match input {
            Format::Json(doc) => Transcoder::yaml_or(yaml_from_json(doc)),
            Format::Toml(doc) => Transcoder::yaml_or(yaml_from_toml(doc)),
            Format::Yaml(doc) => Ok(doc),
        }
    }

    /// Wraps a document that is parsed already. This cannot fail.
    pub fn new(input: Format) -> (r: Result<Self, Error>)
        ensures
            r matches Ok(made) && made@ == input,
    {
        Ok(Self { input })
    }

    /// Loads the document of the file at `path`, given how reading that file
    /// as text went: `Ok` with its contents, or `Err` with the text of the
    /// I/O failure. The grammar is the one that the path's extension names.
    ///
    /// Without such an extension the result is `Error::UnknownFileExtension`,
    /// whatever the read gave; a caller spares itself the read in that case by
    /// asking `Markup::from_path` beforehand.
    pub fn from_path(path: &str, read: Result<String, String>) -> (r: Result<Self, Error>)
        ensures
            Transcoder::held(r) == loaded(path@, read_view(read)),
            Markup::of_path(path@) is None ==> Transcoder::held(r) == Err::<Format, ErrorView>(
                ErrorView::UnknownFileExtension(path@),
            ),
            Markup::of_path(path@) is Some && read is Err ==> Transcoder::held(r) == Err::<
                Format,
                ErrorView,
            >(ErrorView::FileRead(path@, read->Err_0@)),
            !path@.contains('.') ==> Transcoder::held(r) == Err::<Format, ErrorView>(
                ErrorView::UnknownFileExtension(path@),
            ),
    {
        match parse(path, read) {
            Ok(input) => Ok(Self { input }),
            Err(e) => Err(e),
        }
    }

    /// Settles an encoder's outcome on the way to JSON: a complaint becomes
    /// `Error::JsonConversion`.
    pub fn json_result(encoded: Result<serde_json::Value, String>) -> (r: Result<
        serde_json::Value,
        Error,
    >)
        ensures
            outcome(r) == Transcoder::json_or(failure_as_text(encoded)),
    {
        match encoded {
            Ok(json) => Ok(json),
            Err(why) => Err(Error::JsonConversion(why)),
        }
    }

    /// Settles an encoder's outcome on the way to YAML: a complaint becomes
    /// `Error::YamlConversion`.
    pub fn yaml_result(encoded: Result<serde_yaml::Value, String>) -> (r: Result<
        serde_yaml::Value,
        Error,
    >)
        ensures
            outcome(r) == Transcoder::yaml_or(failure_as_text(encoded)),
    {
        match encoded {
            Ok(yaml) => Ok(yaml),
            Err(why) => Err(Error::YamlConversion(why)),
        }
    }

    /// Converts the document to a JSON value. A JSON document comes back as a
    /// copy of itself; the transcoder is left as it was.
    pub fn to_json(&self) -> (r: Result<serde_json::Value, Error>)
        ensures
            outcome(r) == Transcoder::json_of(self@),
            self@ is Json ==> r == Ok::<serde_json::Value, Error>(self@->Json_0),
    {
        match &self.input {
            Format::Json(doc) => Ok(clone_json(doc)),
            Format::Toml(doc) => Transcoder::json_result(toml_to_json(doc)),
            Format::Yaml(doc) => Transcoder::json_result(yaml_to_json(doc)),
        }
    }

    /// Converts the document to a YAML value. A YAML document comes back as a
    /// copy of itself; the transcoder is left as it was.
    pub fn to_yaml(&self) -> (r: Result<serde_yaml::Value, Error>)
        ensures
            outcome(r) == Transcoder::yaml_of(self@),
            self@ is Yaml ==> r == Ok::<serde_yaml::Value, Error>(self@->Yaml_0),
    {
        match &self.input {
            Format::Json(doc) => Transcoder::yaml_result(json_to_yaml(doc)),
            Format::Toml(doc) => Transcoder::yaml_result(toml_to_yaml(doc)),
            Format::Yaml(doc) => Ok(clone_yaml(doc)),
        }
    }
}

/// A parser hands back documents of its own grammar only.
pub proof fn parsed_documents_carry_their_grammar(markup: Markup, src: Seq<char>)
    ensures
        Format::parsed(markup, src) matches Ok(doc) ==> doc.markup() == markup,
{
}

/// A document is loaded only from contents that were read, and it carries the
/// grammar that the path's extension names.
pub proof fn loaded_documents_carry_the_grammar_of_the_path(
    path: Seq<char>,
    read: Result<Seq<char>, Seq<char>>,
)
    ensures
        loaded(path, read) matches Ok(doc) ==> read is Ok && Markup::of_path(path) == Some(
            doc.markup(),
        ),
{
}

/// A path whose extension is `yaml` or `yml`, in any case, is taken for YAML:
/// once the file is read, its contents go to the YAML parser and to no other.
pub proof fn yaml_extensions_select_yaml(path: Seq<char>, src: Seq<char>)
    requires
        path_extension(path) is Some,
        same_ignoring_case(path_extension(path)->0, "yaml"@) || same_ignoring_case(
            path_extension(path)->0,
            "yml"@,
        ),
    ensures
        Markup::of_path(path) == Some(Markup::Yaml),
        loaded(path, Ok(src)) == Format::of_yaml(yaml_from_text(src)),
{
    extensions_name_their_grammar(path_extension(path)->0);
}

/// Contents that the parser of the path's grammar rejects fail as bad text of
/// that grammar, with the parser's message, and as nothing else.
pub proof fn rejected_contents_are_bad_text(path: Seq<char>, src: Seq<char>)
    requires
        Markup::of_path(path) is Some,
        Format::parsed(Markup::of_path(path)->0, src) is Err,
    ensures
        match Markup::of_path(path)->0 {
            Markup::Json => json_from_text(src) is Err && loaded(path, Ok(src)) == Err::<
                Format,
                ErrorView,
            >(ErrorView::BadJson(json_from_text(src)->Err_0)),
            Markup::Toml => toml_from_text(src) is Err && loaded(path, Ok(src)) == Err::<
                Format,
                ErrorView,
            >(ErrorView::BadToml(toml_from_text(src)->Err_0)),
            Markup::Yaml => yaml_from_text(src) is Err && loaded(path, Ok(src)) == Err::<
                Format,
                ErrorView,
            >(ErrorView::BadYaml(yaml_from_text(src)->Err_0)),
        },
{
}

/// A conversion fails only where the document is of another grammar than the
/// target, and then as a conversion failure of that target.
pub proof fn conversion_failures_name_their_target(input: Format)
    ensures
        Transcoder::json_of(input) matches Err(e) ==> e is JsonConversion && !(input is Json),
        Transcoder::yaml_of(input) matches Err(e) ==> e is YamlConversion && !(input is Yaml),
{
}

} // verus!
