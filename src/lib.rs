//! Naming utilities for syncing files on disk into an instance tree: suffix
//! matching on text, suffix-aware queries on paths, and the mapping of file
//! names to legal instance names.

mod path;
mod sanitize;
mod suffix;

pub use path::{
    file_name_has_suffix, file_name_of, parent_of, parent_or_error, text_of, trim_file_name_suffix,
    PathError, PathExt,
};
pub use sanitize::{
    instance_char, is_reserved, map_reserved_char, sanitize_instance_name, sanitized,
};
pub use suffix::{ends_with, match_trailing};

use vstd::prelude::*;

verus! {

/// Whether legacy script emission is on when a project leaves it unset.
pub fn emit_legacy_scripts_default() -> (r: Option<bool>)
    ensures
        r == Some(true),
{
    Some(true)
}

} // verus!
