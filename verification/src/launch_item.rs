//! A program that the launcher found and can start.
use std::path::PathBuf;
use vstd::prelude::*;

verus! {

/// `std::path::PathBuf`, carried through the library as an opaque value.
#[verifier::external_type_specification]
#[verifier::external_body]
pub struct ExPathBuf(PathBuf);

/// Calls `<PathBuf as Clone>::clone`; the copy denotes the same path.
#[verifier::external_body]
pub(crate) fn clone_path(p: &PathBuf) -> (r: PathBuf)
    ensures
        r == *p,
{
    p.clone()
}

/// A program found under the search root.
#[derive(Debug)]
pub struct LaunchItem {
    /// Its position among the programs found, counting from 0.
    pub id: usize,
    /// Its path relative to the search root, as text.
    pub name: String,
    /// Its full path.
    pub path: PathBuf,
}

impl Clone for LaunchItem {
    fn clone(&self) -> (r: Self)
        ensures
            r == *self,
    {
        LaunchItem { id: self.id, name: self.name.clone(), path: clone_path(&self.path) }
    }
}

} // verus!
