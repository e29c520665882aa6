//! The three grammars, and how a file's name tells which one its text is in.

use vstd::prelude::*;
use vstd::std_specs::iter::IteratorSpec;

verus! {

/// One of the grammars that a document can be written in.
#[derive(Clone, Copy, Debug, PartialEq, Eq, Structural)]
pub enum Markup {
    Json,
    Toml,
    Yaml,
}

/// A character with `A` to `Z` turned into `a` to `z`.
pub open spec fn ascii_lower(c: char) -> char {
    if 'A' <= c && c <= 'Z' {
        ((c as int) + 32) as char
    } else {
        c
    }
}

/// Whether two texts are the same once the case of ASCII letters is set
/// aside.
pub open spec fn same_ignoring_case(a: Seq<char>, b: Seq<char>) -> bool {
    &&& a.len() == b.len()
    &&& forall|i: int| 0 <= i < a.len() ==> ascii_lower(#[trigger] a[i]) == ascii_lower(b[i])
}

fn to_ascii_lower(c: char) -> (r: char)
    ensures
        r == ascii_lower(c),
{
    if 'A' <= c && c <= 'Z' {
        ((c as u8) + 32) as char
    } else {
        c
    }
}

/// Compares two texts without regard to the case of ASCII letters.
pub fn eq_ignore_ascii_case(a: &str, b: &str) -> (same: bool)
    ensures
        same == same_ignoring_case(a@, b@),
{
    let mut xs = a.chars();
    let mut ys = b.chars();
    let ghost mut k: int = 0;
    loop
        invariant
            0 <= k <= a@.len(),
            k <= b@.len(),
            xs.remaining() == a@.skip(k),
            ys.remaining() == b@.skip(k),
            forall|i: int| 0 <= i < k ==> ascii_lower(#[trigger] a@[i]) == ascii_lower(b@[i]),
        decreases a@.len() - k,
    {
        let x = xs.next();
        let y = ys.next();
        match (x, y) {
            (None, None) => {
                return true;
            },
            (Some(c), Some(d)) => {
                if to_ascii_lower(c) != to_ascii_lower(d) {
                    return false;
                }
                proof {
                    k = k + 1;
                }
            },
            _ => {
                return false;
            },
        }
    }
}

/// The extension that `std::path::Path::extension` finds in a path given as
/// text, under the path syntax of the platform the library is built for.
pub uninterp spec fn path_extension(path: Seq<char>) -> Option<Seq<char>>;

/// Calls `std::path::Path::extension` on the path and hands the extension
/// back as text. Trusted: the outcome is a function of the path's text alone,
/// and a path without a dot has no extension.
#[verifier::external_body]
pub(crate) fn extension(path: &str) -> (ext: Option<String>)
    ensures
        match ext {
            Some(e) => path_extension(path@) == Some(e@),
            None => path_extension(path@) is None,
        },
        ext is Some ==> path@.contains('.'),
{
    match std::path::Path::new(path).extension() {
        Some(e) => Some(e.to_string_lossy().into_owned()),
        None => None,
    }
}

impl Markup {
    /// The grammar that a file extension names, if it names one: `toml`,
    /// `yaml` or `yml`, and `json`, in any mix of upper and lower case.
    pub open spec fn of_extension(ext: Seq<char>) -> Option<Markup> {
        if same_ignoring_case(ext, "toml"@) {
            Some(Markup::Toml)
        } else if same_ignoring_case(ext, "yaml"@) || same_ignoring_case(ext, "yml"@) {
            Some(Markup::Yaml)
        } else if same_ignoring_case(ext, "json"@) {
            Some(Markup::Json)
        } else {
            None
        }
    }

    /// The grammar that a path's extension names, if the path has an
    /// extension and it names one.
    pub open spec fn of_path(path: Seq<char>) -> Option<Markup> {
        match path_extension(path) {
            Some(ext) => Markup::of_extension(ext),
            None => None,
        }
    }

    /// Tells which grammar a file extension (without its dot) names.
    pub fn from_extension(ext: &str) -> (found: Option<Markup>)
        ensures
            found == Markup::of_extension(ext@),
    {
        if eq_ignore_ascii_case(ext, "toml") {
            Some(Markup::Toml)
        } else if eq_ignore_ascii_case(ext, "yaml") || eq_ignore_ascii_case(ext, "yml") {
            Some(Markup::Yaml)
        } else if eq_ignore_ascii_case(ext, "json") {
            Some(Markup::Json)
        } else {
            None
        }
    }

    /// Tells which grammar the file at a path is expected to hold, going by
    /// the path's extension alone. The file is not touched.
    pub fn from_path(path: &str) -> (found: Option<Markup>)
        ensures
            found == Markup::of_path(path@),
            found is Some ==> path@.contains('.'),
    {
        match extension(path) {
            Some(ext) => Markup::from_extension(ext.as_str()),
            None => None,
        }
    }
}

/// Sameness without regard to case is an equivalence: every text is the same
/// as itself, the relation reads in either direction, and it carries over a
/// middle text.
pub proof fn same_ignoring_case_is_an_equivalence(a: Seq<char>, b: Seq<char>, c: Seq<char>)
    ensures
        same_ignoring_case(a, a),
        same_ignoring_case(a, b) ==> same_ignoring_case(b, a),
        same_ignoring_case(a, b) && same_ignoring_case(b, c) ==> same_ignoring_case(a, c),
{
    if same_ignoring_case(a, b) {
        assert forall|i: int| 0 <= i < b.len() implies ascii_lower(#[trigger] b[i]) == ascii_lower(
            a[i],
        ) by {
            assert(ascii_lower(a[i]) == ascii_lower(b[i]));
        }
        if same_ignoring_case(b, c) {
            assert forall|i: int| 0 <= i < a.len() implies ascii_lower(#[trigger] a[i])
                == ascii_lower(c[i]) by {
                assert(ascii_lower(b[i]) == ascii_lower(c[i]));
            }
        }
    }
}

/// The case of an extension's letters is ignored: two extensions that differ
/// in nothing else name the same grammar, or both name none.
pub proof fn extension_case_is_ignored(a: Seq<char>, b: Seq<char>)
    requires
        same_ignoring_case(a, b),
    ensures
        Markup::of_extension(a) == Markup::of_extension(b),
{
    same_ignoring_case_is_an_equivalence(a, b, "toml"@);
    same_ignoring_case_is_an_equivalence(b, a, "toml"@);
    same_ignoring_case_is_an_equivalence(a, b, "yaml"@);
    same_ignoring_case_is_an_equivalence(b, a, "yaml"@);
    same_ignoring_case_is_an_equivalence(a, b, "yml"@);
    same_ignoring_case_is_an_equivalence(b, a, "yml"@);
    same_ignoring_case_is_an_equivalence(a, b, "json"@);
    same_ignoring_case_is_an_equivalence(b, a, "json"@);
}

/// Each grammar is named by its own extensions and by no others: TOML by
/// `toml`, YAML by `yaml` and by `yml`, JSON by `json`, each in any case.
pub proof fn extensions_name_their_grammar(ext: Seq<char>)
    ensures
        Markup::of_extension(ext) == Some(Markup::Toml) <==> same_ignoring_case(ext, "toml"@),
        Markup::of_extension(ext) == Some(Markup::Yaml) <==> same_ignoring_case(ext, "yaml"@)
            || same_ignoring_case(ext, "yml"@),
        Markup::of_extension(ext) == Some(Markup::Json) <==> same_ignoring_case(ext, "json"@),
{
    reveal_strlit("toml");
    reveal_strlit("yaml");
    reveal_strlit("yml");
    reveal_strlit("json");
    if same_ignoring_case(ext, "toml"@) {
        assert(ascii_lower(ext[0]) == ascii_lower("toml"@[0]));
    }
    if same_ignoring_case(ext, "yaml"@) {
        assert(ascii_lower(ext[0]) == ascii_lower("yaml"@[0]));
    }
    if same_ignoring_case(ext, "json"@) {
        assert(ascii_lower(ext[0]) == ascii_lower("json"@[0]));
    }
}

/// Two paths whose extensions differ only in the case of their letters are
/// taken for the same grammar, or both for none.
pub proof fn path_extension_case_is_ignored(p: Seq<char>, q: Seq<char>)
    requires
        path_extension(p) is Some,
        path_extension(q) is Some,
        same_ignoring_case(path_extension(p)->0, path_extension(q)->0),
    ensures
        Markup::of_path(p) == Markup::of_path(q),
{
    extension_case_is_ignored(path_extension(p)->0, path_extension(q)->0);
}

} // verus!
