use vstd::prelude::*;
use vstd::string::StringExecFns;

use crate::suffix::{ends_with, match_trailing};

verus! {

/// The final component of the path written as `path`, as std's path
/// parsing finds it.
pub uninterp spec fn file_name_of(path: Seq<char>) -> Option<Seq<char>>;

/// The path written as `path` without its final component, as std's path
/// parsing finds it.
pub uninterp spec fn parent_of(path: Seq<char>) -> Option<Seq<char>>;

/// The characters of an optional piece of text.
pub open spec fn text_of(o: Option<&str>) -> Option<Seq<char>> {
    match o {
        Some(s) => Some(s@),
        None => None,
    }
}

/// Relies on std::path::Path::file_name: the final component of the path,
/// if there is one. A component of a path built from a `str` is always
/// valid text, so reading it back with `to_str` only converts.
#[verifier::external_body]
fn final_component<'a>(path: &'a str) -> (r: Option<&'a str>)
    ensures
        text_of(r) == file_name_of(path@),
{
    std::path::Path::new(path).file_name().and_then(|n| n.to_str())
}

/// Relies on std::path::Path::parent: the path without its final
/// component, if there is one. Read back as text as above.
#[verifier::external_body]
fn parent_component<'a>(path: &'a str) -> (r: Option<&'a str>)
    ensures
        text_of(r) == parent_of(path@),
{
    std::path::Path::new(path).parent().and_then(|p| p.to_str())
}

/// Why a path query failed. Each failure carries the path it was asked of.
#[derive(Debug, PartialEq, Eq)]
pub enum PathError {
    /// The path has no final component to name a file by.
    MissingFileName { path: String },
    /// The final component does not end with the suffix asked for.
    SuffixMismatch { path: String, suffix: String },
    /// The path has no parent.
    MissingParent { path: String },
}

impl PathError {
    /// The text that describes the failure to a person.
    pub open spec fn message_spec(&self) -> Seq<char> {
        match self {
            PathError::MissingFileName { path } => "Path did not have a file name: "@ + path@,
            PathError::SuffixMismatch { path, suffix } => "Path did not end in "@ + suffix@
                + ": "@ + path@,
            PathError::MissingParent { path } => "Path did not have a parent: "@ + path@,
        }
    }

    /// Describes the failure, naming the path.
    pub fn message(&self) -> (r: String)
        ensures
            r@ == self.message_spec(),
    {
        match self {
            PathError::MissingFileName { path } => {
                let mut m = "Path did not have a file name: ".to_owned();
                m.append(path.as_str());
                m
            },
            PathError::SuffixMismatch { path, suffix } => {
                let mut m = "Path did not end in ".to_owned();
                m.append(suffix.as_str());
                m.append(": ");
                m.append(path.as_str());
                m
            },
            PathError::MissingParent { path } => {
                let mut m = "Path did not have a parent: ".to_owned();
                m.append(path.as_str());
                m
            },
        }
    }
}

/// Whether a final component `file_name`, if there is one, ends with
/// `suffix`. A missing component never does.
pub fn file_name_has_suffix(file_name: Option<&str>, suffix: &str) -> (r: bool)
    ensures
        r == (file_name matches Some(n) && ends_with(n@, suffix@)),
{
    match file_name {
        Some(n) => match_trailing(n, suffix).is_some(),
        None => false,
    }
}

/// Removes `suffix` from the final component `file_name` of `path`, or says
/// why it cannot.
pub fn trim_file_name_suffix<'a>(path: &str, file_name: Option<&'a str>, suffix: &str) -> (r:
    Result<&'a str, PathError>)
    ensures
        match file_name {
            None => r matches Err(PathError::MissingFileName { path: p }) && p@ == path@,
            Some(n) => if ends_with(n@, suffix@) {
                r matches Ok(t) && t@ + suffix@ == n@
            } else {
                r matches Err(PathError::SuffixMismatch { path: p, suffix: s }) && p@ == path@
                    && s@ == suffix@
            },
        },
{
    match file_name {
        None => Err(PathError::MissingFileName { path: path.to_owned() }),
        Some(n) => match match_trailing(n, suffix) {
            Some(t) => Ok(t),
            None => Err(PathError::SuffixMismatch { path: path.to_owned(), suffix: suffix.to_owned() }),
        },
    }
}

/// Takes the parent `parent` of `path`, or says that there is none. An
/// empty parent, which a single relative component has, counts as none.
pub fn parent_or_error<'a>(path: &str, parent: Option<&'a str>) -> (r: Result<&'a str, PathError>)
    ensures
        match parent {
            Some(q) if q@.len() > 0 => r == Ok::<&str, PathError>(q),
            _ => r matches Err(PathError::MissingParent { path: p }) && p@ == path@,
        },
{
    match parent {
        Some(q) if !q.is_empty() => Ok(q),
        _ => Err(PathError::MissingParent { path: path.to_owned() }),
    }
}

/// Suffix-aware queries on a path's final component, and its parent.
pub trait PathExt {
    /// The path as text.
    spec fn path_text(&self) -> Seq<char>;

    /// Whether the path's final component ends with `suffix`; false when
    /// there is no final component.
    fn file_name_ends_with(&self, suffix: &str) -> (r: bool)
        ensures
            r == (file_name_of(self.path_text()) matches Some(n) && ends_with(n, suffix@)),
    ;

    /// The path's final component with `suffix` removed.
    fn file_name_trim_end<'a>(&'a self, suffix: &str) -> (r: Result<&'a str, PathError>)
        ensures
            match file_name_of(self.path_text()) {
                None => r matches Err(PathError::MissingFileName { path: p })
                    && p@ == self.path_text(),
                Some(n) => if ends_with(n, suffix@) {
                    r matches Ok(t) && t@ + suffix@ == n
                } else {
                    r matches Err(PathError::SuffixMismatch { path: p, suffix: s })
                        && p@ == self.path_text() && s@ == suffix@
                },
            },
    ;

    /// The path's parent; a failure when there is none.
    fn require_parent<'a>(&'a self) -> (r: Result<&'a str, PathError>)
        ensures
            match parent_of(self.path_text()) {
                Some(q) if q.len() > 0 => r matches Ok(t) && t@ == q,
                _ => r matches Err(PathError::MissingParent { path: p }) && p@ == self.path_text(),
            },
    ;
}

impl PathExt for str {
    open spec fn path_text(&self) -> Seq<char> {
        self@
    }

    fn file_name_ends_with(&self, suffix: &str) -> (r: bool) {
        file_name_has_suffix(final_component(self), suffix)
    }

    fn file_name_trim_end<'a>(&'a self, suffix: &str) -> (r: Result<&'a str, PathError>) {
        trim_file_name_suffix(self, final_component(self), suffix)
    }

    fn require_parent<'a>(&'a self) -> (r: Result<&'a str, PathError>) {
        parent_or_error(self, parent_component(self))
    }
}

} // verus!
