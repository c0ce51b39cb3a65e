//! The commands of the `leo` command-line tool: their options and the decisions they take.

use vstd::prelude::*;
use vstd::string::*;

verus! {

/// Create new Leo project.
#[derive(Debug)]
pub struct New {
    /// The package name.
    pub name: String,
    /// Whether to initialize the package as a library (containing `lib.leo`).
    pub is_lib: Option<bool>,
}

impl New {
    /// Creates the command.
    pub fn new(name: String, is_lib: Option<bool>) -> (n: New)
        ensures
            n.name == name,
            n.is_lib == is_lib,
    {
        New { name, is_lib }
    }

    /// Whether the package is initialized as a library: only where that is asked for.
    pub fn is_library(&self) -> (b: bool)
        ensures
            b == (self.is_lib == Some(true)),
    {
        match self.is_lib {
            Some(b) => b,
            None => false,
        }
    }
}

/// Build program and run tests command.
#[derive(Debug)]
pub struct Test {
    /// The files to test.
    pub files: Vec<String>,
}

/// The program file of a package that the tests are run on.
#[derive(Clone, Copy, Debug, PartialEq, Eq, Structural)]
pub enum ProgramFile {
    Main,
    Library,
}

impl ProgramFile {
    /// Returns the name of the file in the package's source directory.
    pub fn file_name(&self) -> (s: String)
        ensures
            *self == ProgramFile::Main ==> s@ == "main.leo"@,
            *self == ProgramFile::Library ==> s@ == "lib.leo"@,
    {
        match self {
            ProgramFile::Main => String::from_str("main.leo"),
            ProgramFile::Library => String::from_str("lib.leo"),
        }
    }
}

impl Test {
    /// Creates the command.
    pub fn new(files: Vec<String>) -> (t: Test)
        ensures
            t.files@ == files@,
    {
        Test { files }
    }

    /// Chooses the program file that the tests are run on: the main file where the package has
    /// one, else the library file; `None` where it has neither, which the command reports as an
    /// error.
    pub fn select_program_file(main_exists: bool, library_exists: bool) -> (f: Option<ProgramFile>)
        ensures
            main_exists ==> f == Some(ProgramFile::Main),
            !main_exists && library_exists ==> f == Some(ProgramFile::Library),
            !main_exists && !library_exists ==> f is None,
    {
        if main_exists {
            Some(ProgramFile::Main)
        } else if library_exists {
            Some(ProgramFile::Library)
        } else {
            None
        }
    }

    /// Whether a test run passed: when no test failed.
    pub fn passed(failed: usize) -> (b: bool)
        ensures
            b == (failed == 0),
    {
        failed == 0
    }
}

/// Run a program setup.
#[derive(Clone, Copy, Debug, PartialEq, Eq, Structural)]
pub struct SetupCommand;

impl SetupCommand {
    /// Whether the setup has to generate new keys: where the proving and verification keys do
    /// not both exist, or the program's checksum has changed.
    pub fn needs_setup(keys_exist: bool, checksum_differs: bool) -> (b: bool)
        ensures
            b == (!keys_exist || checksum_differs),
    {
        !keys_exist || checksum_differs
    }

    /// Checks a verification key against the stored one: they match where they agree on every
    /// position that both have.
    pub fn verification_keys_match(computed: &Vec<u8>, stored: &Vec<u8>) -> (b: bool)
        ensures
            b == (forall|i: int| 0 <= i < computed@.len() && i < stored@.len() ==> computed@[i] == stored@[i]),
    {
        let mut i: usize = 0;
        while i < computed.len() && i < stored.len()
            invariant
                i <= computed@.len(),
                i <= stored@.len(),
                forall|j: int| 0 <= j < i ==> computed@[j] == stored@[j],
            decreases computed.len() - i,
        {
            if computed[i] != stored[i] {
                return false;
            }
            i = i + 1;
        }
        true
    }
}

/// The configuration of the `leo` tool.
#[derive(Clone, Copy, Debug, PartialEq, Eq, Structural)]
pub struct Config {
    pub auto_update: bool,
}

impl Default for Config {
    /// Automatic updates are on by default.
    fn default() -> (c: Self)
        ensures
            c.auto_update,
    {
        Self { auto_update: true }
    }
}

} // verus!
