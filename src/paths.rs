//! The path helpers: decomposition of a path given as text.
//!
//! Whether a path exists and what it resolves to is a question for the
//! filesystem, answered outside this module: callers hand in `resolved`,
//! the canonical form when the path exists and resolves, `None` otherwise.
use vstd::prelude::*;

verus! {

/// What `Path::parent` gives for a path written as these characters, as text.
pub uninterp spec fn parent_of(p: Seq<char>) -> Option<Seq<char>>;

/// What `Path::file_name` gives for a path written as these characters, as text.
pub uninterp spec fn file_name_of(p: Seq<char>) -> Option<Seq<char>>;

/// What `Path::extension` gives for a path written as these characters, as text.
pub uninterp spec fn extension_of(p: Seq<char>) -> Option<Seq<char>>;

/// The characters of an optional string.
pub open spec fn opt_text(o: Option<String>) -> Option<Seq<char>> {
    match o {
        Some(s) => Some(s@),
        None => None,
    }
}

/// A helper's answer: the text when there is one, the empty string otherwise.
pub open spec fn or_empty(o: Option<Seq<char>>) -> Seq<char> {
    match o {
        Some(s) => s,
        None => Seq::empty(),
    }
}

/// Relies on `Path::parent`, read back as `&str` (a path made from `&str` is always valid text).
#[verifier::external_body]
fn path_parent(p: &str) -> (r: Option<String>)
    ensures
        opt_text(r) == parent_of(p@),
{
    std::path::Path::new(p).parent().and_then(|q| q.to_str()).map(|q| q.to_owned())
}

/// Relies on `Path::file_name`, read back as `&str`.
#[verifier::external_body]
fn path_file_name(p: &str) -> (r: Option<String>)
    ensures
        opt_text(r) == file_name_of(p@),
{
    std::path::Path::new(p).file_name().and_then(|q| q.to_str()).map(|q| q.to_owned())
}

/// Relies on `Path::extension`, read back as `&str`.
#[verifier::external_body]
fn path_extension(p: &str) -> (r: Option<String>)
    ensures
        opt_text(r) == extension_of(p@),
{
    std::path::Path::new(p).extension().and_then(|q| q.to_str()).map(|q| q.to_owned())
}

/// The three parts of a path that a template can ask for.
#[derive(Clone, Copy, Debug, PartialEq, Eq, Structural)]
pub enum PathPart {
    Parent,
    FileName,
    Extension,
}

/// The part `part` of the path `p`, if it has one.
pub open spec fn part_of(part: PathPart, p: Seq<char>) -> Option<Seq<char>> {
    match part {
        PathPart::Parent => parent_of(p),
        PathPart::FileName => file_name_of(p),
        PathPart::Extension => extension_of(p),
    }
}

/// The path that decomposition works on: the canonical form where there is
/// one, the input as written otherwise.
pub open spec fn expansion(input: Seq<char>, resolved: Option<Seq<char>>) -> Seq<char> {
    match resolved {
        Some(c) => c,
        None => input,
    }
}

/// Turns a fallible lookup into a helper's answer: never an error, at worst `""`.
pub fn text_or_empty(o: Option<String>) -> (r: String)
    ensures
        r@ == or_empty(opt_text(o)),
{
    match o {
        Some(s) => s,
        None => String::new(),
    }
}

/// The path that the path helpers decompose.
pub fn expand(input: &str, resolved: Option<String>) -> (r: String)
    ensures
        r@ == expansion(input@, opt_text(resolved)),
{
    match resolved {
        Some(c) => c,
        None => String::from_str(input),
    }
}

/// The `parent`, `file_name` and `extension` helpers: the part asked for of
/// the expanded path, or `""` where it has none.
pub fn path_helper(part: PathPart, input: &str, resolved: Option<String>) -> (r: String)
    ensures
        r@ == or_empty(part_of(part, expansion(input@, opt_text(resolved)))),
{
    let p = expand(input, resolved);
    let found = match part {
        PathPart::Parent => path_parent(p.as_str()),
        PathPart::FileName => path_file_name(p.as_str()),
        PathPart::Extension => path_extension(p.as_str()),
    };
    text_or_empty(found)
}

} // verus!
