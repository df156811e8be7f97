use vstd::prelude::*;
use vstd::string::*;

use crate::order::{sort_strings, str_leq};
use crate::text::str_eq;

verus! {

/// One directory entry, as the file system describes it.
#[derive(Debug, Clone)]
pub struct DirEntryInfo {
    pub path: String,
    pub is_file: bool,
    pub extension: Option<String>,
}

/// What an input path names.
#[derive(Debug, Clone, Copy, PartialEq, Eq, Structural)]
pub enum PathKind {
    File,
    Directory,
    Other,
}

/// Errors of file discovery.
#[derive(Debug, Clone)]
pub enum DiscoveryError {
    InvalidPath(String),
    ReadDir(String, String),
    ReadEntry(String, String),
}

/// A policy file: a regular file with extension `esp`.
pub open spec fn is_policy_file(e: DirEntryInfo) -> bool {
    e.is_file && (e.extension matches Some(x) && x@ == "esp"@)
}

/// The paths of the policy files among some entries, in order.
pub open spec fn policy_paths(es: Seq<DirEntryInfo>) -> Seq<Seq<char>>
    decreases es.len(),
{
    if es.len() == 0 {
        Seq::empty()
    } else {
        policy_paths(es.drop_last()) + if is_policy_file(es.last()) {
            seq![es.last().path@]
        } else {
            Seq::empty()
        }
    }
}

pub open spec fn paths_view(v: Seq<String>) -> Seq<Seq<char>> {
    v.map_values(|s: String| s@)
}

/// The policy files among directory entries, sorted by path.
pub fn select_esp_files(entries: &Vec<DirEntryInfo>) -> (r: Vec<String>)
    ensures
        paths_view(r@) == policy_paths(entries@).sort_by(str_leq()),
{
    let mut found: Vec<String> = Vec::new();
    let mut i: usize = 0;
    assert(entries@.subrange(0, 0) =~= Seq::<DirEntryInfo>::empty());
    while i < entries.len()
        invariant
            i <= entries.len(),
            paths_view(found@) == policy_paths(entries@.subrange(0, i as int)),
        decreases entries.len() - i,
    {
        let e = &entries[i];
        assert(entries@.subrange(0, i + 1).drop_last() =~= entries@.subrange(0, i as int));
        let keep = e.is_file && match &e.extension {
            Some(x) => str_eq(x.as_str(), "esp"),
            None => false,
        };
        let ghost before = found@;
        if keep {
            found.push(e.path.clone());
        }
        assert(paths_view(found@) =~= policy_paths(entries@.subrange(0, i + 1)));
        i = i + 1;
    }
    assert(entries@.subrange(0, entries.len() as int) =~= entries@);
    sort_strings(&found)
}

/// The policy files of an input path: the path itself when it is a file, the policy
/// files of its listing when it is a directory, else an error. A listing that could not
/// be read passes its error on.
pub fn discover_esp_files(
    input_path: &str,
    kind: PathKind,
    listing: Result<Vec<DirEntryInfo>, DiscoveryError>,
) -> (r: Result<Vec<String>, DiscoveryError>)
    ensures
        kind == PathKind::File ==> (r matches Ok(v) && paths_view(v@) == seq![input_path@]),
        kind == PathKind::Directory ==> (listing is Ok <==> r is Ok),
        kind == PathKind::Directory ==> (listing matches Ok(es) ==> (r matches Ok(v)
            && paths_view(v@) == policy_paths(es@).sort_by(str_leq()))),
        kind == PathKind::Other ==> (r matches Err(e) && e is InvalidPath),
{
    match kind {
        PathKind::File => {
            let mut v: Vec<String> = Vec::new();
            v.push(String::from_str(input_path));
            assert(paths_view(v@) =~= seq![input_path@]);
            Ok(v)
        },
        PathKind::Directory => match listing {
            Ok(es) => Ok(select_esp_files(&es)),
            Err(e) => Err(e),
        },
        PathKind::Other => Err(DiscoveryError::InvalidPath(String::from_str(input_path))),
    }
}

/// The policy files found anywhere below a directory, sorted by path.
pub fn discover_esp_files_recursive(
    walk: Result<Vec<DirEntryInfo>, DiscoveryError>,
) -> (r: Result<Vec<String>, DiscoveryError>)
    ensures
        walk is Ok <==> r is Ok,
        walk matches Ok(es) ==> (r matches Ok(v) && paths_view(v@) == policy_paths(es@).sort_by(
            str_leq(),
        )),
{
    match walk {
        Ok(es) => Ok(select_esp_files(&es)),
        Err(e) => Err(e),
    }
}

} // verus!
