//! Read access to build metadata by key, in three independent key spaces:
//! strings, booleans and paths.

use vstd::prelude::*;

verus! {

broadcast use vstd::string::to_string_from_display_ensures_for_str;

/// A lookup named a key that is not declared in its key space.
#[derive(Debug, PartialEq, Eq)]
pub enum GetStateError {
    /// The offending key.
    InvalidKey(String),
}

impl GetStateError {
    /// A human-readable description of the failure.
    pub fn message(&self) -> (r: String)
        ensures
            r@ == "invalid state key"@,
    {
        match self {
            GetStateError::InvalidKey(_) => "invalid state key".to_string(),
        }
    }
}

/// The string-valued keys.
pub open spec fn string_keys() -> Set<Seq<char>> {
    set!["host_triple"@, "target_triple"@, "opt_level"@]
}

/// The boolean-valued keys.
pub open spec fn bool_keys() -> Set<Seq<char>> {
    set!["release"@]
}

/// The path-valued keys.
pub open spec fn path_keys() -> Set<Seq<char>> {
    set!["output_path"@]
}

/// Whether two strings hold the same text.
fn same_text(a: &str, b: &str) -> (r: bool)
    ensures
        r == (a@ == b@),
{
    a.to_string() == b.to_string()
}

/// Build metadata for the build targets that a configuration declares.
#[derive(Debug)]
pub struct PyOxidizerBuildContext {
    /// Rust target triple for the build host.
    pub host_triple: String,
    /// Rust target triple for the build target.
    pub target_triple: String,
    /// Whether we are building in release mode; debug if false.
    pub release: bool,
    /// Optimization level for the Rust compiler.
    pub opt_level: String,
    /// Where generated files are written.
    pub output_path: String,
}

impl PyOxidizerBuildContext {
    /// The configured string for a string key, if the key is declared.
    pub open spec fn string_state(&self, key: Seq<char>) -> Option<Seq<char>> {
        if key == "host_triple"@ {
            Some(self.host_triple@)
        } else if key == "target_triple"@ {
            Some(self.target_triple@)
        } else if key == "opt_level"@ {
            Some(self.opt_level@)
        } else {
            None
        }
    }

    /// Looks up a string-valued key.
    pub fn get_state_string(&self, key: &str) -> (r: Result<&str, GetStateError>)
        ensures
            string_keys().contains(key@) <==> r is Ok,
            match self.string_state(key@) {
                Some(v) => r matches Ok(s) && s@ == v,
                None => r matches Err(GetStateError::InvalidKey(k)) && k@ == key@,
            },
    {
        if same_text(key, "host_triple") {
            Ok(self.host_triple.as_str())
        } else if same_text(key, "target_triple") {
            Ok(self.target_triple.as_str())
        } else if same_text(key, "opt_level") {
            Ok(self.opt_level.as_str())
        } else {
            Err(GetStateError::InvalidKey(key.to_string()))
        }
    }

    /// Looks up a boolean-valued key.
    pub fn get_state_bool(&self, key: &str) -> (r: Result<bool, GetStateError>)
        ensures
            bool_keys().contains(key@) <==> r is Ok,
            key@ == "release"@ ==> r == Ok::<bool, GetStateError>(self.release),
            key@ != "release"@ ==> (r matches Err(GetStateError::InvalidKey(k)) && k@ == key@),
    {
        if same_text(key, "release") {
            Ok(self.release)
        } else {
            Err(GetStateError::InvalidKey(key.to_string()))
        }
    }

    /// Looks up a path-valued key.
    pub fn get_state_path(&self, key: &str) -> (r: Result<&str, GetStateError>)
        ensures
            path_keys().contains(key@) <==> r is Ok,
            key@ == "output_path"@ ==> (r matches Ok(p) && p@ == self.output_path@),
            key@ != "output_path"@ ==> (r matches Err(GetStateError::InvalidKey(k)) && k@ == key@),
    {
        if same_text(key, "output_path") {
            Ok(self.output_path.as_str())
        } else {
            Err(GetStateError::InvalidKey(key.to_string()))
        }
    }
}

} // verus!
