//! The state of one configuration evaluation.

use vstd::prelude::*;
use crate::paths::{
    dedot_path, is_relative_path, joined_path, parent_path, parse_dot, path_is_relative, path_join,
    path_parent,
};

verus! {

broadcast use vstd::string::to_string_from_display_ensures_for_str;

/// Name of the directory, under the configuration file's directory, that
/// holds build state.
pub open spec fn build_dir_name() -> Seq<char> {
    "build"@
}

/// Name of the directory, under the build path, where Python distributions
/// are written.
pub open spec fn distributions_dir_name() -> Seq<char> {
    "python_distributions"@
}

/// Why a path could not be resolved.
#[derive(Debug, PartialEq, Eq, Structural)]
pub enum PathResolutionError {
    /// The configuration file's path has no parent directory.
    NoParentDirectory,
    /// The configuration file's directory is relative and the process's
    /// current directory could not be read.
    CurrentDirectoryUnavailable,
    /// A path could not be normalized.
    Normalization,
}

impl PathResolutionError {
    /// A human-readable description of the failure.
    pub fn message(&self) -> (r: String)
        ensures
            r@ == match self {
                PathResolutionError::NoParentDirectory => "resolving parent directory of config"@,
                PathResolutionError::CurrentDirectoryUnavailable => "resolving current directory"@,
                PathResolutionError::Normalization => "normalizing path"@,
            },
    {
        match self {
            PathResolutionError::NoParentDirectory => "resolving parent directory of config".to_string(),
            PathResolutionError::CurrentDirectoryUnavailable => "resolving current directory".to_string(),
            PathResolutionError::Normalization => "normalizing path".to_string(),
        }
    }
}

/// The text of an optional path.
pub open spec fn text_of(p: Option<String>) -> Option<Seq<char>> {
    match p {
        Some(s) => Some(s@),
        None => None,
    }
}

/// The directory that a configuration directory resolves to: itself when
/// absolute, else joined onto the current directory, which must then be
/// known.
pub open spec fn resolved_dir(dir: Seq<char>, current_dir: Option<Seq<char>>) -> Option<Seq<char>> {
    if !is_relative_path(dir) {
        Some(dir)
    } else {
        match current_dir {
            Some(c) => Some(joined_path(c, dir)),
            None => None,
        }
    }
}

/// An absolute directory resolves to itself, whatever the current
/// directory is, and whether or not it could be read.
pub proof fn lemma_absolute_dir_resolves_to_itself(dir: Seq<char>, current_dir: Option<Seq<char>>)
    requires
        !is_relative_path(dir),
    ensures
        resolved_dir(dir, current_dir) == Some(dir),
{
}

/// The directory a configuration file is evaluated from, if it can be
/// determined.
pub open spec fn config_dir(config_path: Seq<char>, current_dir: Option<Seq<char>>) -> Option<Seq<char>> {
    match parent_path(config_path) {
        Some(parent) => resolved_dir(parent, current_dir),
        None => None,
    }
}

/// The path a requested build path resolves to, before normalization.
pub open spec fn anchored_path(cwd: Seq<char>, p: Seq<char>) -> Seq<char> {
    if is_relative_path(p) {
        joined_path(cwd, p)
    } else {
        p
    }
}

/// Where Python distributions go for a given build path.
pub open spec fn distributions_path_of(build_path: Seq<char>) -> Seq<char> {
    joined_path(build_path, distributions_dir_name())
}

/// Holds state for evaluating a configuration file.
#[derive(Debug)]
pub struct PyOxidizerEnvironmentContext {
    /// Whether executing in verbose mode.
    pub verbose: bool,
    /// Directory the environment is evaluated from; used to resolve
    /// relative paths.
    pub cwd: String,
    /// Path to the configuration file.
    pub config_path: String,
    /// Host triple we are building from.
    pub build_host_triple: String,
    /// Target triple we are building for.
    pub build_target_triple: String,
    /// Whether we are building a release binary rather than a debug one.
    pub build_release: bool,
    /// Optimization level when building binaries.
    pub build_opt_level: String,
    /// Base directory to use for build state.
    pub build_path: String,
    /// Path where Python distributions are written.
    pub python_distributions_path: String,
}

impl PyOxidizerEnvironmentContext {
    /// The distributions path is the one derived from the build path.
    pub open spec fn wf(&self) -> bool {
        self.python_distributions_path@ == distributions_path_of(self.build_path@)
    }

    /// Resolves a configuration directory to the directory evaluation runs
    /// from. `current_dir` is the process's current directory, or nothing if
    /// it could not be read; it is consulted only for a relative directory.
    pub fn resolve_working_dir(dir: &str, current_dir: &Option<String>) -> (r: Result<String, PathResolutionError>)
        ensures
            match resolved_dir(dir@, text_of(*current_dir)) {
                Some(d) => r matches Ok(s) && s@ == d,
                None => r == Err::<String, PathResolutionError>(PathResolutionError::CurrentDirectoryUnavailable),
            },
    {
        if path_is_relative(dir) {
            match current_dir {
                Some(c) => Ok(path_join(c.as_str(), dir)),
                None => Err(PathResolutionError::CurrentDirectoryUnavailable),
            }
        } else {
            Ok(dir.to_string())
        }
    }

    /// Creates the context for evaluating the configuration file at
    /// `config_path`. Evaluation runs from the file's directory, made
    /// absolute against `current_dir` if relative; build state goes under
    /// its "build" directory.
    pub fn new(
        verbose: bool,
        config_path: &str,
        build_host_triple: &str,
        build_target_triple: &str,
        build_release: bool,
        build_opt_level: &str,
        current_dir: &Option<String>,
    ) -> (r: Result<PyOxidizerEnvironmentContext, PathResolutionError>)
        ensures
            parent_path(config_path@) is None
                ==> r == Err::<PyOxidizerEnvironmentContext, PathResolutionError>(PathResolutionError::NoParentDirectory),
            parent_path(config_path@) is Some && config_dir(config_path@, text_of(*current_dir)) is None
                ==> r == Err::<PyOxidizerEnvironmentContext, PathResolutionError>(PathResolutionError::CurrentDirectoryUnavailable),
            config_dir(config_path@, text_of(*current_dir)) matches Some(cwd) ==> (r matches Ok(ctx) && {
                &&& ctx.wf()
                &&& ctx.cwd@ == cwd
                &&& ctx.build_path@ == joined_path(cwd, build_dir_name())
                &&& ctx.verbose == verbose
                &&& ctx.config_path@ == config_path@
                &&& ctx.build_host_triple@ == build_host_triple@
                &&& ctx.build_target_triple@ == build_target_triple@
                &&& ctx.build_release == build_release
                &&& ctx.build_opt_level@ == build_opt_level@
            }),
    {
        let parent = match path_parent(config_path) {
            Some(p) => p,
            None => { return Err(PathResolutionError::NoParentDirectory); },
        };
        let cwd = match Self::resolve_working_dir(parent.as_str(), current_dir) {
            Ok(d) => d,
            Err(e) => { return Err(e); },
        };
        let build_path = path_join(cwd.as_str(), "build");
        let python_distributions_path = path_join(build_path.as_str(), "python_distributions");
        Ok(PyOxidizerEnvironmentContext {
            verbose,
            cwd,
            config_path: config_path.to_string(),
            build_host_triple: build_host_triple.to_string(),
            build_target_triple: build_target_triple.to_string(),
            build_release,
            build_opt_level: build_opt_level.to_string(),
            build_path,
            python_distributions_path,
        })
    }

    /// Sets the build path, resolving a relative `path` against the working
    /// directory and normalizing "." and ".." segments. The distributions
    /// path follows it. On failure neither changes.
    pub fn set_build_path(&mut self, path: &str) -> (r: Result<(), PathResolutionError>)
        requires
            old(self).wf(),
        ensures
            final(self).wf(),
            final(self).verbose == old(self).verbose,
            final(self).cwd == old(self).cwd,
            final(self).config_path == old(self).config_path,
            final(self).build_host_triple == old(self).build_host_triple,
            final(self).build_target_triple == old(self).build_target_triple,
            final(self).build_release == old(self).build_release,
            final(self).build_opt_level == old(self).build_opt_level,
            !is_relative_path(anchored_path(old(self).cwd@, path@)) ==> (r is Ok
                && final(self).build_path@ == dedot_path(anchored_path(old(self).cwd@, path@))),
            r is Err ==> (r == Err::<(), PathResolutionError>(PathResolutionError::Normalization)
                && final(self).build_path == old(self).build_path
                && final(self).python_distributions_path == old(self).python_distributions_path),
    {
        let anchored = if path_is_relative(path) {
            path_join(self.cwd.as_str(), path)
        } else {
            path.to_string()
        };
        match parse_dot(anchored.as_str()) {
            Some(normalized) => {
                let distributions = path_join(normalized.as_str(), "python_distributions");
                self.build_path = normalized;
                self.python_distributions_path = distributions;
                Ok(())
            },
            None => Err(PathResolutionError::Normalization),
        }
    }
}

} // verus!
