//! Traversal configuration and the trusted boundary to the walkdir
//! crate.
//!
//! The traversal itself — reading directories, stat'ing entries — is
//! the walkdir crate's and the filesystem's; nothing about its yield
//! can be promised, so the wrappers here state nothing and the finder
//! is verified for whatever they hand back.  The configuration policy
//! lives in [`get_walker`]: the root entry itself is included (at
//! depth 0), a depth bound of 0 therefore yields the root entry alone,
//! and entries at each level are visited in lexicographic file-name
//! order, which makes the traversal order deterministic on an
//! unchanged tree.

use vstd::prelude::*;

use crate::types::Cli;
use crate::types::EntryKind;

verus! {

#[verifier::external_type_specification]
#[verifier::external_body]
pub struct ExWalkDir(walkdir::WalkDir);

#[verifier::external_type_specification]
#[verifier::external_body]
pub struct ExIntoIter(walkdir::IntoIter);

#[verifier::external_type_specification]
#[verifier::external_body]
pub struct ExDirEntry(walkdir::DirEntry);

#[verifier::external_type_specification]
#[verifier::external_body]
pub struct ExWalkdirError(walkdir::Error);

/// Relies on `walkdir::WalkDir::new`: a traversal rooted at `root`,
/// not yet begun; the root entry itself is yielded, at depth 0.
#[verifier::external_body]
fn walker_new(root: &str) -> walkdir::WalkDir {
    walkdir::WalkDir::new(root)
}

/// Relies on `walkdir::WalkDir::max_depth`: entries deeper than `d`
/// path components below the root are not yielded.
#[verifier::external_body]
fn walker_max_depth(w: walkdir::WalkDir, d: usize) -> walkdir::WalkDir {
    w.max_depth(d)
}

/// Relies on `walkdir::WalkDir::follow_links`: whether traversal
/// descends through symbolic links to directories.
#[verifier::external_body]
fn walker_follow_links(w: walkdir::WalkDir, yes: bool) -> walkdir::WalkDir {
    w.follow_links(yes)
}

/// Relies on `walkdir::WalkDir::sort_by_file_name`: entries within
/// each directory are yielded in lexicographic file-name order.
#[verifier::external_body]
fn walker_sort_by_file_name(w: walkdir::WalkDir) -> walkdir::WalkDir {
    w.sort_by_file_name()
}

/// Relies on `walkdir::WalkDir::into_iter`: the iterator over the
/// configured traversal.
#[verifier::external_body]
pub(crate) fn walker_into_iter(w: walkdir::WalkDir) -> walkdir::IntoIter {
    w.into_iter()
}

/// Relies on `walkdir::IntoIter::next`: the next traversal entry.
/// `None` ends the walk; `Some(None)` is an entry that errored
/// (permission denied, broken link, raced deletion) and is to be
/// skipped silently.
#[verifier::external_body]
pub(crate) fn walker_next(it: &mut walkdir::IntoIter) -> Option<Option<walkdir::DirEntry>> {
    match it.next() {
        None => None,
        Some(Ok(e)) => Some(Some(e)),
        Some(Err(_)) => Some(None),
    }
}

/// Relies on `walkdir::DirEntry::file_name`: the entry's base name,
/// or `None` when it is not valid UTF-8.
#[verifier::external_body]
pub(crate) fn entry_file_name_utf8(e: &walkdir::DirEntry) -> Option<String> {
    e.file_name().to_str().map(|s| s.to_owned())
}

/// Relies on `walkdir::DirEntry::path`: the entry's path below the
/// root, printed lossily.
#[verifier::external_body]
pub(crate) fn entry_path_string(e: &walkdir::DirEntry) -> String {
    e.path().to_string_lossy().into_owned()
}

/// Relies on `walkdir::DirEntry::depth`: the number of path
/// components below the root; 0 is the root entry itself.
#[verifier::external_body]
pub(crate) fn entry_depth(e: &walkdir::DirEntry) -> usize {
    e.depth()
}

/// Relies on `walkdir::DirEntry::file_type`: tells a file, a
/// directory and a symbolic link apart.  The device, pipe and socket
/// categories need platform extensions this boundary does not
/// consult, so everything else is `Unknown` here and a filter for
/// those categories evaluates false.
#[verifier::external_body]
pub(crate) fn entry_kind(e: &walkdir::DirEntry) -> EntryKind {
    let ft = e.file_type();
    if ft.is_symlink() {
        EntryKind::Symlink
    } else if ft.is_dir() {
        EntryKind::Directory
    } else if ft.is_file() {
        EntryKind::File
    } else {
        EntryKind::Unknown
    }
}

/// Relies on `walkdir::DirEntry::metadata`: the entry's size in
/// bytes, or `None` when the metadata cannot be read.
#[verifier::external_body]
pub(crate) fn entry_size(e: &walkdir::DirEntry) -> Option<u64> {
    match e.metadata() {
        Ok(m) => Some(m.len()),
        Err(_) => None,
    }
}

/// Relies on `walkdir::DirEntry::metadata`: the entry's modification
/// time as milliseconds since the Unix epoch.  `None` when the
/// metadata cannot be read; `Some(None)` when the platform offers no
/// modification time or it lies before the epoch.
#[verifier::external_body]
pub(crate) fn entry_mtime_unix_ms(e: &walkdir::DirEntry) -> Option<Option<u64>> {
    match e.metadata() {
        Err(_) => None,
        Ok(m) => Some(
            match m.modified() {
                Err(_) => None,
                Ok(t) => t.duration_since(std::time::UNIX_EPOCH).ok().map(
                    |d| d.as_millis() as u64,
                ),
            },
        ),
    }
}

/// Relies on `std::time::SystemTime::now`: the wall clock, as
/// milliseconds since the Unix epoch; 0 for a clock before the epoch.
#[verifier::external_body]
pub(crate) fn now_unix_ms() -> u64 {
    match std::time::SystemTime::now().duration_since(std::time::UNIX_EPOCH) {
        Ok(d) => d.as_millis() as u64,
        Err(_) => 0,
    }
}

/// Configures the traversal for one invocation: the depth bound when
/// one is set (the root entry is depth 0 and always within it),
/// symlink-following when asked for, and deterministic lexicographic
/// file-name order at each level.
pub fn get_walker(cli: &Cli) -> walkdir::WalkDir {
    let mut w = walker_new(cli.path.as_str());
    match cli.criteria.depth {
        Some(d) => {
            w = walker_max_depth(w, d as usize);
        },
        None => {},
    }
    if cli.criteria.follow_symlinks {
        w = walker_follow_links(w, true);
    }
    walker_sort_by_file_name(w)
}

} // verus!
