//! Resolution of the single canonical path of the questions document.
//!
//! The resolver is a pure decision over an explicit configuration (current
//! working directory, its parent, the per-user application-data directory)
//! and over existence facts the caller probed. Precedence:
//! 1. `<cwd>/src/data/questions.json`, when that file exists;
//! 2. the same path under the parent of the working directory, when it exists;
//! 3. `<data-dir>/questions.json`, the per-user location, creating the
//!    directory being the caller's duty; an error when no data directory is
//!    available.

use vstd::prelude::*;
use vstd::string::StringExecFns;

use crate::errors::StoreError;

verus! {

/// The explicit inputs of path resolution: the current working directory,
/// its parent (absent at a filesystem root), and the host's per-user
/// application-data directory (absent when the host cannot determine one).
#[derive(Debug)]
pub struct PathConfig {
    pub cwd: String,
    pub parent: Option<String>,
    pub data_dir: Option<String>,
}

/// The chosen location. `in_data_dir` is true exactly when the per-user
/// location was chosen, and so when the caller must make sure that the
/// data directory itself exists before using the path.
#[derive(Debug)]
pub struct ResolvedPath {
    pub path: String,
    pub in_data_dir: bool,
}

/// The development-tree candidate under a directory.
pub open spec fn dev_candidate(dir: Seq<char>) -> Seq<char> {
    dir + "/src/data/questions.json"@
}

/// The per-user candidate under the data directory.
pub open spec fn data_candidate(dir: Seq<char>) -> Seq<char> {
    dir + "/questions.json"@
}

/// Builds the development-tree candidate path under `dir`.
pub fn dev_questions_path(dir: &str) -> (r: String)
    ensures
        r@ == dev_candidate(dir@),
{
    let mut s: String = dir.to_owned();
    s.append("/src/data/questions.json");
    s
}

/// Builds the per-user candidate path under the data directory `dir`.
pub fn data_questions_path(dir: &str) -> (r: String)
    ensures
        r@ == data_candidate(dir@),
{
    let mut s: String = dir.to_owned();
    s.append("/questions.json");
    s
}

/// Chooses the canonical questions path. `dev_exists` says whether the
/// development candidate under `cfg.cwd` exists; `parent_dev_exists` says
/// whether the one under `cfg.parent` exists (it is ignored when there is
/// no parent). Only the last branch ever involves the per-user data
/// directory, so a present development file keeps that directory untouched.
pub fn get_questions_path(cfg: &PathConfig, dev_exists: bool, parent_dev_exists: bool) -> (r:
    Result<ResolvedPath, StoreError>)
    ensures
        dev_exists ==> (r matches Ok(p) && p.path@ == dev_candidate(cfg.cwd@) && !p.in_data_dir),
        (!dev_exists && cfg.parent is Some && parent_dev_exists) ==> (r matches Ok(p)
            && p.path@ == dev_candidate(cfg.parent.unwrap()@) && !p.in_data_dir),
        (!dev_exists && !(cfg.parent is Some && parent_dev_exists)) ==> {
            &&& r is Ok <==> cfg.data_dir is Some
            &&& (r matches Ok(p) ==> p.path@ == data_candidate(cfg.data_dir.unwrap()@)
                && p.in_data_dir)
            &&& (r matches Err(e) ==> e is PathResolution)
        },
{
    if dev_exists {
        return Ok(ResolvedPath { path: dev_questions_path(cfg.cwd.as_str()), in_data_dir: false });
    }
    match &cfg.parent {
        Some(parent) => {
            if parent_dev_exists {
                return Ok(
                    ResolvedPath { path: dev_questions_path(parent.as_str()), in_data_dir: false },
                );
            }
        },
        None => {},
    }
    match &cfg.data_dir {
        Some(dir) => Ok(ResolvedPath { path: data_questions_path(dir.as_str()), in_data_dir: true }),
        None => Err(
            StoreError::PathResolution("Failed to get app data dir".to_owned()),
        ),
    }
}

} // verus!
