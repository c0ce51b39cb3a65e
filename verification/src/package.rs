//! The files of a Leo package.

use vstd::prelude::*;
use vstd::string::*;

verus! {

/// The `.gitignore` file of a package.
#[derive(Clone, Copy, Debug, PartialEq, Eq, Structural)]
pub struct Gitignore;

impl Default for Gitignore {
    fn default() -> (g: Self)
        ensures
            g == Gitignore,
    {
        Gitignore
    }
}

impl Gitignore {
    /// Creates the `.gitignore` file of a package.
    pub fn new() -> (g: Gitignore)
        ensures
            g == Gitignore,
    {
        Self::default()
    }

    /// The contents that a new package's `.gitignore` holds: the outputs directory.
    pub fn template(&self) -> (s: String)
        ensures
            s@ == "outputs/\n"@,
    {
        String::from_str("outputs/\n")
    }

    /// The name of the file.
    pub fn file_name(&self) -> (s: String)
        ensures
            s@ == ".gitignore"@,
    {
        String::from_str(".gitignore")
    }
}

} // verus!
