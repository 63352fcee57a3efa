//! Finds the project root among the ancestors of the working directory, and
//! the environment file that belongs to it.

use crate::text::{contains, is_substring};
use vstd::prelude::*;

verus! {

/// What was found in one directory.
pub struct Directory {
    /// The directory's path.
    pub path: String,
    /// Whether it holds a `.git` entry.
    pub has_git: bool,
    /// Whether it holds a `.env` entry.
    pub has_env: bool,
    /// The path of its `.env` entry.
    pub env_path: String,
    /// The text of its `.env` file, where one could be read.
    pub env_text: Option<String>,
    /// The text of its `.openv.toml` file, where one could be read.
    pub config_text: Option<String>,
}

/// What a call may know of the machine: the working directory and each of its
/// ancestors as they were found, and the user's own configuration.
pub struct Context {
    /// The working directory first, then its parent, up to the root of the
    /// file system.
    pub ancestors: Vec<Directory>,
    /// The text of `.openv.toml` in the home directory, where one could be
    /// read.
    pub global_config: Option<String>,
}

/// What marks a directory as a project root.
#[derive(Clone, Copy, Debug, PartialEq, Eq, Structural)]
pub enum Marker {
    /// A `.git` entry.
    Git,
    /// A `.env` entry.
    Env,
}

/// The directory holds the marker.
pub open spec fn has_marker(directory: Directory, marker: Marker) -> bool {
    match marker {
        Marker::Git => directory.has_git,
        Marker::Env => directory.has_env,
    }
}

/// The first directory at or after `from` that holds the marker.
pub open spec fn root_from(ancestors: Seq<Directory>, marker: Marker, from: int) -> Option<int>
    decreases ancestors.len() - from,
{
    if from < 0 || from >= ancestors.len() {
        None
    } else if has_marker(ancestors[from], marker) {
        Some(from)
    } else {
        root_from(ancestors, marker, from + 1)
    }
}

/// The nearest directory that holds the marker.
pub open spec fn root_with_marker(ancestors: Seq<Directory>, marker: Marker) -> Option<int> {
    root_from(ancestors, marker, 0)
}

/// The project root: the nearest directory with a `.git` entry, or where no
/// ancestor has one, the nearest with a `.env` entry.
pub open spec fn project_root(ancestors: Seq<Directory>) -> Option<int> {
    match root_with_marker(ancestors, Marker::Git) {
        Some(at) => Some(at),
        None => root_with_marker(ancestors, Marker::Env),
    }
}

/// The text that marks a value as a reference to a secret.
pub open spec fn secret_marker() -> Seq<char> {
    "op://"@
}

/// The directory has an environment file that refers to a secret.
pub open spec fn env_file_valid(directory: Directory) -> bool {
    &&& directory.has_env
    &&& directory.env_text matches Some(text)
    &&& is_substring(secret_marker(), text@)
}

/// The project root, where its environment file refers to a secret.
pub open spec fn valid_env_root(ancestors: Seq<Directory>) -> Option<int> {
    match project_root(ancestors) {
        Some(at) => if env_file_valid(ancestors[at]) {
            Some(at)
        } else {
            None
        },
        None => None,
    }
}

/// A root that was found is a directory of the list, holds the marker, and no
/// nearer directory does; where none was found, no directory holds it.
pub proof fn lemma_root_from(ancestors: Seq<Directory>, marker: Marker, from: int)
    requires
        0 <= from,
    ensures
        match root_from(ancestors, marker, from) {
            Some(at) => {
                &&& from <= at < ancestors.len()
                &&& has_marker(ancestors[at], marker)
                &&& forall|k: int| from <= k < at ==> !has_marker(#[trigger] ancestors[k], marker)
            },
            None => forall|k: int|
                from <= k < ancestors.len() ==> !has_marker(#[trigger] ancestors[k], marker),
        },
    decreases ancestors.len() - from,
{
    if from < ancestors.len() && !has_marker(ancestors[from], marker) {
        lemma_root_from(ancestors, marker, from + 1);
    }
}

/// Walks from the working directory upwards and returns the index of the
/// first directory that holds `marker`.
pub fn find_root_with_marker(ancestors: &Vec<Directory>, marker: Marker) -> (root: Option<usize>)
    ensures
        match root {
            Some(at) => root_with_marker(ancestors@, marker) == Some(at as int),
            None => root_with_marker(ancestors@, marker) is None,
        },
{
    let mut i: usize = 0;
    while i < ancestors.len()
        invariant
            i <= ancestors.len(),
            root_with_marker(ancestors@, marker) == root_from(ancestors@, marker, i as int),
        decreases ancestors.len() - i,
    {
        let found = match marker {
            Marker::Git => ancestors[i].has_git,
            Marker::Env => ancestors[i].has_env,
        };
        if found {
            return Some(i);
        }
        i += 1;
    }
    None
}

/// Finds the project root and checks its environment file: the file must be
/// there, readable, and hold a reference to a secret.
pub fn find_valid_env_file_path(ancestors: &Vec<Directory>) -> (root: Option<usize>)
    ensures
        match root {
            Some(at) => valid_env_root(ancestors@) == Some(at as int) && at < ancestors.len(),
            None => valid_env_root(ancestors@) is None,
        },
{
    let root = match find_root_with_marker(ancestors, Marker::Git) {
        Some(at) => at,
        None => match find_root_with_marker(ancestors, Marker::Env) {
            Some(at) => at,
            None => {
                return None;
            },
        },
    };
    proof {
        lemma_root_from(ancestors@, Marker::Git, 0);
        lemma_root_from(ancestors@, Marker::Env, 0);
    }
    let directory = &ancestors[root];
    if !directory.has_env {
        return None;
    }
    match &directory.env_text {
        Some(text) => if contains(text.as_str(), "op://") {
            Some(root)
        } else {
            None
        },
        None => None,
    }
}

} // verus!
