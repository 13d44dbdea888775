//! The project-memory tool's data shapes and decisions: which category a
//! request names and whether its content is usable.  The storage itself is
//! plain file I/O outside the library.

use vstd::prelude::*;

use crate::text::str_eq;

verus! {

/// The project-memory tool.
pub struct MemoryTool;

/// The categories a memory entry falls under.
#[derive(Clone, Copy, PartialEq, Eq, Structural, Debug)]
pub enum MemoryCategory {
    Rule,
    Preference,
    Pattern,
    Context,
}

/// The category a request names, anything unknown falling back to context.
pub open spec fn category_of(name: Seq<char>) -> MemoryCategory {
    if name == "rule"@ {
        MemoryCategory::Rule
    } else if name == "preference"@ {
        MemoryCategory::Preference
    } else if name == "pattern"@ {
        MemoryCategory::Pattern
    } else {
        MemoryCategory::Context
    }
}

impl MemoryTool {
    /// Maps a category name to its category.
    pub fn category_from_name(name: &str) -> (r: MemoryCategory)
        ensures
            r == category_of(name@),
    {
        if str_eq(name, "rule") {
            MemoryCategory::Rule
        } else if str_eq(name, "preference") {
            MemoryCategory::Preference
        } else if str_eq(name, "pattern") {
            MemoryCategory::Pattern
        } else {
            MemoryCategory::Context
        }
    }

    /// Whether a store request carries content to record: blank content is
    /// rejected.
    pub fn store_content_usable(content: &str) -> (r: bool)
        ensures
            r == !crate::text::all_blank(content@),
    {
        !crate::text::is_blank(content)
    }
}

} // verus!
