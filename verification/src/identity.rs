//! Identity-related value shapes shared with callers.

use vstd::prelude::*;

verus! {

/// A name qualified by where it lives: its parent identity or its
/// namespace, when the daemon reports either.
#[derive(Clone, Debug, PartialEq, Eq)]
pub struct QualifiedName {
    pub name: String,
    pub parentid: Option<String>,
    pub namespace: Option<String>,
}

} // verus!
