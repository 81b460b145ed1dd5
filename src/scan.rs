//! Turning the text of one marker file into a skill record.

use crate::model::SkillData;
use crate::text::str_eq;
use vstd::prelude::*;

verus! {

/// Relies on gray_matter's YAML front-matter parse: the body that remains.
pub uninterp spec fn matter_body(text: Seq<char>) -> Seq<char>;

/// Relies on gray_matter's YAML front-matter parse: the string value under
/// `key` when the front matter is a mapping that holds one there.
pub uninterp spec fn matter_entry(text: Seq<char>, key: Seq<char>) -> Option<Seq<char>>;

/// Relies on std's Path::file_stem: the file name without its extension.
pub uninterp spec fn stem_of(path: Seq<char>) -> Option<Seq<char>>;

/// Relies on std's Path::strip_prefix: the path relative to `base`.
pub uninterp spec fn relative_of(path: Seq<char>, base: Seq<char>) -> Option<Seq<char>>;

/// The view of an optional string.
pub open spec fn opt_view(s: Option<String>) -> Option<Seq<char>> {
    match s {
        Some(v) => Some(v@),
        None => None,
    }
}

/// What the front matter of a document supplies.
pub struct FrontMatter {
    pub name: Option<String>,
    pub description: Option<String>,
    pub body: String,
}

/// Relies on gray_matter's Matter::<YAML>::parse, with Pod::as_hashmap and
/// Pod::as_string on its data: the body, and the `name` and `description`
/// strings of a front matter that is a mapping.
#[verifier::external_body]
fn read_front_matter(text: &str) -> (r: FrontMatter)
    ensures
        r.body@ == matter_body(text@),
        opt_view(r.name) == matter_entry(text@, "name"@),
        opt_view(r.description) == matter_entry(text@, "description"@),
{
    let parsed = gray_matter::Matter::<gray_matter::engine::YAML>::new().parse(text);
    let map = parsed.data.and_then(|d| d.as_hashmap().ok()).unwrap_or_default();
    let name = map.get("name").and_then(|v| v.as_string().ok());
    let description = map.get("description").and_then(|v| v.as_string().ok());
    FrontMatter { name, description, body: parsed.content }
}

/// Relies on std's Path::file_stem, read back as text.
#[verifier::external_body]
fn file_stem(path: &str) -> (r: Option<String>)
    ensures
        opt_view(r) == stem_of(path@),
{
    std::path::Path::new(path).file_stem().map(|s| s.to_string_lossy().into_owned())
}

/// Relies on std's Path::strip_prefix, read back as text.
#[verifier::external_body]
fn relative_path(path: &str, base: &str) -> (r: Option<String>)
    ensures
        opt_view(r) == relative_of(path@, base@),
{
    std::path::Path::new(path).strip_prefix(base).ok().map(|p| p.to_string_lossy().into_owned())
}

/// Why a marker file gives no record.
#[derive(Clone, Copy, Debug, PartialEq, Eq, Structural)]
pub enum ScanError {
    /// The file's path has no base name.
    NoFileName,
    /// The file does not lie under the catalog root.
    OutsideFolder,
}

/// Whether a file's base name marks it as a skill document.
pub fn is_marker_file(file_name: &str) -> (r: bool)
    ensures
        r == (file_name@ == "SKILL.md"@),
{
    str_eq(file_name, "SKILL.md")
}

/// A front-matter entry, or the default when there is none.
pub open spec fn entry_or(e: Option<Seq<char>>, default: Seq<char>) -> Seq<char> {
    match e {
        Some(v) => v,
        None => default,
    }
}

/// A front-matter entry when it is present and non-empty, else the default.
pub open spec fn nonempty_entry_or(e: Option<Seq<char>>, default: Seq<char>) -> Seq<char> {
    match e {
        Some(v) => if v.len() > 0 {
            v
        } else {
            default
        },
        None => default,
    }
}

/// The record that a marker file yields: its name from the front matter
/// when present and non-empty, else its file stem, its description from the front matter or else empty,
/// its body, and its path relative to `folder`.
pub fn parse_markdown_file(md_file: &str, folder: &str, content: &str) -> (r: Result<SkillData, ScanError>)
    ensures
        match r {
            Ok(s) => stem_of(md_file@) is Some
                && relative_of(md_file@, folder@) == Some(s.relative_path@)
                && s.name@ == nonempty_entry_or(matter_entry(content@, "name"@), stem_of(md_file@).unwrap())
                && s.description@ == entry_or(matter_entry(content@, "description"@), Seq::empty())
                && s.content@ == matter_body(content@),
            Err(ScanError::NoFileName) => stem_of(md_file@) is None,
            Err(ScanError::OutsideFolder) => stem_of(md_file@) is Some
                && relative_of(md_file@, folder@) is None,
        },
{
    let matter = read_front_matter(content);
    let default_name = match file_stem(md_file) {
        Some(n) => n,
        None => return Err(ScanError::NoFileName),
    };
    let name = match matter.name {
        Some(n) => if n.as_str().is_empty() {
            default_name
        } else {
            n
        },
        None => default_name,
    };
    let description = match matter.description {
        Some(d) => d,
        None => String::new(),
    };
    let relative_path = match relative_path(md_file, folder) {
        Some(p) => p,
        None => return Err(ScanError::OutsideFolder),
    };
    Ok(SkillData { name, description, content: matter.body, relative_path })
}

} // verus!
