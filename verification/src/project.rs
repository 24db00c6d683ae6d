//! Where the input file is: the project root and the resolved path.
//!
//! A path that starts with `/` is absolute and is used as it is. Any other
//! path is relative to the project root. The root is the directory that
//! the environment names, if it names one; else the nearest of the current
//! directory and its ancestors that holds a file called `Cargo.toml`; else
//! the current directory.
//!
//! Reading the environment and listing directories happens outside this
//! crate. What was found comes in as plain values.

use crate::error::{AbiError, AbiErrorView};
use crate::registry::texts_view;
use vstd::prelude::*;
use vstd::string::{StrSliceExecFns, StringExecFns};

verus! {

/// A directory and the file names found in it, or the system's message
/// where it could not be listed.
#[derive(Debug, PartialEq, Eq)]
pub struct DirectoryProbe {
    pub path: String,
    pub entries: Result<Vec<String>, String>,
}

pub struct DirectoryProbeView {
    pub path: Seq<char>,
    pub entries: Result<Seq<Seq<char>>, Seq<char>>,
}

impl View for DirectoryProbe {
    type V = DirectoryProbeView;

    open spec fn view(&self) -> DirectoryProbeView {
        DirectoryProbeView {
            path: self.path@,
            entries: match self.entries {
                Ok(names) => Ok(texts_view(names@)),
                Err(cause) => Err(cause@),
            },
        }
    }
}

/// The views of a sequence of probes, in order.
pub open spec fn probes_view(probes: Seq<DirectoryProbe>) -> Seq<DirectoryProbeView> {
    Seq::new(probes.len(), |i: int| probes[i]@)
}

/// Whether one of `names` is `Cargo.toml`.
pub open spec fn has_manifest(names: Seq<Seq<char>>) -> bool {
    exists|i: int| 0 <= i < names.len() && #[trigger] names[i] == "Cargo.toml"@
}

/// Whether the search ends at `probe`: it holds the manifest, or it could
/// not be listed.
pub open spec fn is_decisive(probe: DirectoryProbeView) -> bool {
    match probe.entries {
        Ok(names) => has_manifest(names),
        Err(_) => true,
    }
}

/// Whether `i` is the first probe at which the search ends.
pub open spec fn is_first_decisive(probes: Seq<DirectoryProbeView>, i: int) -> bool {
    &&& 0 <= i < probes.len()
    &&& is_decisive(probes[i])
    &&& forall|j: int| 0 <= j < i ==> !is_decisive(#[trigger] probes[j])
}

/// The first probe at which the search ends.
pub open spec fn first_decisive(probes: Seq<DirectoryProbeView>) -> Option<int> {
    if exists|i: int| is_first_decisive(probes, i) {
        Some(choose|i: int| is_first_decisive(probes, i))
    } else {
        None
    }
}

/// The project root. `manifest_dir` is what the environment names;
/// `current_dir` is the current directory or the reason why there is none;
/// `ancestors` are the current directory and its ancestors, nearest first.
pub open spec fn crate_root_of(
    manifest_dir: Option<Seq<char>>,
    current_dir: Result<Seq<char>, Seq<char>>,
    ancestors: Seq<DirectoryProbeView>,
) -> Result<Seq<char>, AbiErrorView> {
    match manifest_dir {
        Some(dir) => Ok(dir),
        None => match current_dir {
            Err(cause) => Err(AbiErrorView::Io { path: "."@, cause }),
            Ok(dir) => match first_decisive(ancestors) {
                Some(i) => match ancestors[i].entries {
                    Ok(_) => Ok(ancestors[i].path),
                    Err(cause) => Err(AbiErrorView::Io { path: ancestors[i].path, cause }),
                },
                None => Ok(dir),
            },
        },
    }
}

/// Whether one of `names` is `Cargo.toml`.
fn holds_manifest(names: &Vec<String>) -> (found: bool)
    ensures
        found == has_manifest(texts_view(names@)),
{
    let manifest = String::from_str("Cargo.toml");
    let mut i: usize = 0;
    while i < names.len()
        invariant
            i <= names.len(),
            manifest@ == "Cargo.toml"@,
            forall|j: int| 0 <= j < i ==> #[trigger] texts_view(names@)[j] != "Cargo.toml"@,
        decreases names.len() - i,
    {
        assert(texts_view(names@)[i as int] == names@[i as int]@);
        if names[i] == manifest {
            return true;
        }
        i += 1;
    }
    false
}

/// Finds the project root from what the environment names, the current
/// directory, and the listings of the current directory and its ancestors,
/// nearest first. A directory that cannot be listed ends the search with
/// an `Io` error, unless a nearer one holds the manifest.
#[verifier::loop_isolation(false)]
pub fn get_crate_root(
    manifest_dir: Option<String>,
    current_dir: Result<String, String>,
    ancestors: &Vec<DirectoryProbe>,
) -> (root: Result<String, AbiError>)
    ensures
        match root {
            Ok(dir) => crate_root_of(
                crate::document::optional_text(manifest_dir),
                text_result_view(current_dir),
                probes_view(ancestors@),
            ) == Ok::<Seq<char>, AbiErrorView>(dir@),
            Err(e) => crate_root_of(
                crate::document::optional_text(manifest_dir),
                text_result_view(current_dir),
                probes_view(ancestors@),
            ) == Err::<Seq<char>, AbiErrorView>(e@),
        },
{
    match manifest_dir {
        Some(dir) => {
            return Ok(dir);
        },
        None => {},
    }
    let current = match current_dir {
        Ok(dir) => dir,
        Err(cause) => {
            return Err(AbiError::Io { path: String::from_str("."), cause });
        },
    };
    let ghost all = probes_view(ancestors@);
    let mut i: usize = 0;
    while i < ancestors.len()
        invariant
            i <= ancestors.len(),
            forall|j: int| 0 <= j < i ==> !is_decisive(#[trigger] all[j]),
        decreases ancestors.len() - i,
    {
        assert(all[i as int] == ancestors@[i as int]@);
        match &ancestors[i].entries {
            Ok(names) => {
                if holds_manifest(names) {
                    assert(is_first_decisive(all, i as int));
                    return Ok(ancestors[i].path.clone());
                }
            },
            Err(cause) => {
                assert(is_first_decisive(all, i as int));
                return Err(AbiError::Io { path: ancestors[i].path.clone(), cause: cause.clone() });
            },
        }
        i += 1;
    }
    assert(first_decisive(all) is None);
    Ok(current)
}

/// The characters of a text or of the message in its place.
pub open spec fn text_result_view(text: Result<String, String>) -> Result<Seq<char>, Seq<char>> {
    match text {
        Ok(t) => Ok(t@),
        Err(e) => Err(e@),
    }
}

/// Whether `path` starts at the file system's root.
pub open spec fn is_absolute(path: Seq<char>) -> bool {
    path.len() > 0 && path[0] == '/'
}

/// `path` below `root`: the two joined by one `/`, which is left out where
/// `root` is empty or ends in one.
pub open spec fn joined(root: Seq<char>, path: Seq<char>) -> Seq<char> {
    if root.len() == 0 || root.last() == '/' {
        root + path
    } else {
        root + seq!['/'] + path
    }
}

/// The path to open for `path`: itself where it is absolute, else `path`
/// below `root`.
pub open spec fn resolved_path(path: Seq<char>, root: Seq<char>) -> Seq<char> {
    if is_absolute(path) {
        path
    } else {
        joined(root, path)
    }
}

/// Whether `path` is relative, so that the project root is needed to
/// resolve it.
pub fn is_relative_path(path: &str) -> (relative: bool)
    ensures
        relative == !is_absolute(path@),
{
    !(path.unicode_len() > 0 && path.get_char(0) == '/')
}

/// Resolves the path of the input file against the project root.
pub fn resolve_input_path(path: &str, root: &str) -> (resolved: String)
    ensures
        resolved@ == resolved_path(path@, root@),
{
    if !is_relative_path(path) {
        return String::from_str(path);
    }
    let length = root.unicode_len();
    let mut resolved = String::from_str(root);
    if length > 0 && root.get_char(length - 1) != '/' {
        proof {
            reveal_strlit("/");
        }
        resolved.append("/");
        assert(resolved@ =~= root@ + seq!['/']);
    }
    resolved.append(path);
    resolved
}

} // verus!
