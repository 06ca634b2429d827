//! A temporary directory under the output directory, for files that are
//! moved into place once complete.

use vstd::prelude::*;
use crate::error::WikiError;
use crate::paths::{join_path, path_join};
use crate::text::{chars_of, string_from_chars};

verus! {

/// The path of a temporary directory under the output directory:
/// `{out_dir}/temp/{time}_{pid}_{rand}`.
pub open spec fn temp_dir_path(out_dir: Seq<char>, time: Seq<char>, pid: Seq<char>, rand: Seq<char>) -> Seq<char> {
    path_join(out_dir, "temp/"@ + time + seq!['_'] + pid + seq!['_'] + rand)
}

/// What cleaning up a temporary directory takes.
#[derive(Clone, Copy, Debug, PartialEq, Eq, Structural)]
pub enum Cleanup {
    /// It was already cleaned up: nothing to do.
    Done,
    /// If the directory exists, remove it (or keep it, when asked to).
    Remove { keep: bool },
}

/// A temporary directory; its files are removed when it is cleaned up,
/// unless it is to be kept.
#[derive(Debug)]
pub struct TempDir {
    path: String,
    keep: bool,
    cleaned_up: bool,
}

/// The state of a temporary directory: its path, whether it is kept when
/// cleaned up, and whether cleaning up has begun.
pub struct TempDirView {
    pub path: Seq<char>,
    pub keep: bool,
    pub cleaned_up: bool,
}

impl View for TempDir {
    type V = TempDirView;

    closed spec fn view(&self) -> TempDirView {
        TempDirView { path: self.path@, keep: self.keep, cleaned_up: self.cleaned_up }
    }
}

/// The directory's path, while it is not cleaned up.
pub open spec fn temp_dir_path_answer(t: TempDirView) -> Option<Seq<char>> {
    if t.cleaned_up {
        None
    } else {
        Some(t.path)
    }
}

/// Beginning to clean up: the first time, the directory counts as cleaned
/// up and is to be removed (or kept); after that, there is nothing to do
/// and nothing changes.
pub open spec fn cleanup_step(t: TempDirView) -> (TempDirView, Cleanup) {
    if t.cleaned_up {
        (t, Cleanup::Done)
    } else {
        (TempDirView { cleaned_up: true, ..t }, Cleanup::Remove { keep: t.keep })
    }
}

/// Once cleaning up has begun, whatever came of removing the directory,
/// its path is no longer given, and cleaning up again does nothing; before
/// that, the path is the one it was made with.
pub proof fn lemma_cleanup_ends_the_path(t: TempDirView)
    ensures
        !t.cleaned_up ==> temp_dir_path_answer(t) == Some(t.path),
        !t.cleaned_up ==> cleanup_step(t).1 == (Cleanup::Remove { keep: t.keep }),
        temp_dir_path_answer(cleanup_step(t).0) is None,
        cleanup_step(cleanup_step(t).0) == (cleanup_step(t).0, Cleanup::Done),
        cleanup_step(t).0.path == t.path,
{
}

impl TempDir {
    /// The path of a new temporary directory (see [`temp_dir_path`]), from
    /// the time, the process ID and random text that make it unique.
    pub fn path_for(out_dir: &str, time: &str, pid: &str, rand: &str) -> (r: String)
        ensures
            r@ == temp_dir_path(out_dir@, time@, pid@, rand@),
    {
        let mut v = chars_of("temp/");
        let mut t = chars_of(time);
        v.append(&mut t);
        v.push('_');
        let mut p = chars_of(pid);
        v.append(&mut p);
        v.push('_');
        let mut x = chars_of(rand);
        v.append(&mut x);
        let rel = string_from_chars(&v);
        join_path(out_dir, rel.as_str())
    }

    /// The temporary directory at `path`, not yet cleaned up.
    pub fn new(path: String, keep: bool) -> (r: TempDir)
        ensures
            r@ == (TempDirView { path: path@, keep, cleaned_up: false }),
    {
        TempDir { path, keep, cleaned_up: false }
    }

    /// The directory's path, while it is not cleaned up (see
    /// [`temp_dir_path_answer`]).
    pub fn path(&self) -> (r: Result<&str, WikiError>)
        ensures
            match r {
                Ok(p) => temp_dir_path_answer(self@) == Some(p@),
                Err(e) => temp_dir_path_answer(self@) is None && e is TempDirCleanedUp,
            },
    {
        if self.cleaned_up {
            Err(WikiError::TempDirCleanedUp)
        } else {
            Ok(self.path.as_str())
        }
    }

    /// Starts cleaning up (see [`cleanup_step`]): the directory counts as
    /// cleaned up from now on, whether or not removing it succeeds; the
    /// answer says what is left to do.
    pub fn begin_cleanup(&mut self) -> (r: Cleanup)
        ensures
            (final(self)@, r) == cleanup_step(old(self)@),
    {
        if self.cleaned_up {
            return Cleanup::Done;
        }
        self.cleaned_up = true;
        Cleanup::Remove { keep: self.keep }
    }
}

} // verus!
