//! Asking the file system whether a path is a file or a directory, each path once.
use vstd::prelude::*;

use crate::strings::{owned, str_eq};

verus! {

/// Whether `path` is a file, by `std::path::Path::is_file`. What is on disk decides, so
/// nothing is claimed of the result.
#[verifier::external_body]
fn probe_is_file(path: &str) -> bool {
    std::path::Path::new(path).is_file()
}

/// Whether `path` is a directory, by `std::path::Path::is_dir`. What is on disk decides,
/// so nothing is claimed of the result.
#[verifier::external_body]
fn probe_is_dir(path: &str) -> bool {
    std::path::Path::new(path).is_dir()
}

/// The answer recorded first for `path`, if one is.
pub open spec fn cached(entries: Seq<(Seq<char>, bool)>, path: Seq<char>) -> Option<bool>
    decreases entries.len(),
{
    if entries.len() == 0 {
        None
    } else if entries[0].0 == path {
        Some(entries[0].1)
    } else {
        cached(entries.drop_first(), path)
    }
}

/// The answers the file system gave, per path, in the order they were asked.
#[derive(Debug)]
pub struct FsCache {
    pub files: Vec<(String, bool)>,
    pub dirs: Vec<(String, bool)>,
}

/// The answer recorded for `path` in `entries`, if one is.
fn find(entries: &Vec<(String, bool)>, path: &str) -> (r: Option<bool>)
    ensures
        r == cached(entries.deep_view(), path@),
{
    let ghost es = entries.deep_view();
    let mut i: usize = 0;
    assert(es.skip(0) =~= es);
    while i < entries.len()
        invariant
            i <= entries.len(),
            es == entries.deep_view(),
            cached(es, path@) == cached(es.skip(i as int), path@),
        decreases entries.len() - i,
    {
        assert(es.skip(i as int).drop_first() =~= es.skip(i + 1));
        assert(es.skip(i as int)[0] == es[i as int]);
        if str_eq(entries[i].0.as_str(), path) {
            return Some(entries[i].1);
        }
        i = i + 1;
    }
    None
}

impl FsCache {
    /// A cache that has recorded nothing.
    pub fn new() -> (r: FsCache)
        ensures
            r.files@.len() == 0,
            r.dirs@.len() == 0,
    {
        FsCache { files: Vec::new(), dirs: Vec::new() }
    }

    /// Whether `path` is a file: the recorded answer when there is one, else the file
    /// system's, which is then recorded.
    pub fn is_file_with_cache(&mut self, path: &str) -> (r: bool)
        ensures
            match cached(old(self).files.deep_view(), path@) {
                Some(b) => r == b && final(self).files.deep_view() == old(self).files.deep_view(),
                None => final(self).files.deep_view() == old(self).files.deep_view().push(
                    (path@, r),
                ),
            },
            final(self).dirs.deep_view() == old(self).dirs.deep_view(),
    {
        if let Some(b) = find(&self.files, path) {
            return b;
        }
        let b = probe_is_file(path);
        self.files.push((owned(path), b));
        b
    }

    /// Whether `path` is a directory: the recorded answer when there is one, else the
    /// file system's, which is then recorded.
    pub fn is_dir_with_cache(&mut self, path: &str) -> (r: bool)
        ensures
            match cached(old(self).dirs.deep_view(), path@) {
                Some(b) => r == b && final(self).dirs.deep_view() == old(self).dirs.deep_view(),
                None => final(self).dirs.deep_view() == old(self).dirs.deep_view().push(
                    (path@, r),
                ),
            },
            final(self).files.deep_view() == old(self).files.deep_view(),
    {
        if let Some(b) = find(&self.dirs, path) {
            return b;
        }
        let b = probe_is_dir(path);
        self.dirs.push((owned(path), b));
        b
    }
}

/// Once an answer is recorded for a path, recording an answer for any path leaves it
/// the answer for that path: asked again, the cache gives the same answer.
pub proof fn lemma_cached_answer_stays(
    entries: Seq<(Seq<char>, bool)>,
    path: Seq<char>,
    other: Seq<char>,
    answer: bool,
)
    requires
        cached(entries, path) is Some,
    ensures
        cached(entries.push((other, answer)), path) == cached(entries, path),
    decreases entries.len(),
{
    if entries[0].0 != path {
        assert(entries.push((other, answer)).drop_first() =~= entries.drop_first().push(
            (other, answer),
        ));
        lemma_cached_answer_stays(entries.drop_first(), path, other, answer);
    }
}

/// A path asked of the file system for the first time has the answer then recorded.
proof fn lemma_cached_new_answer(entries: Seq<(Seq<char>, bool)>, path: Seq<char>, answer: bool)
    requires
        cached(entries, path) is None,
    ensures
        cached(entries.push((path, answer)), path) == Some(answer),
    decreases entries.len(),
{
    if entries.len() > 0 {
        assert(entries.push((path, answer)).drop_first() =~= entries.drop_first().push(
            (path, answer),
        ));
        lemma_cached_new_answer(entries.drop_first(), path, answer);
    } else {
        assert(entries.push((path, answer))[0] == (path, answer));
    }
}

/// The position of the first of `candidates`, nearest first, that is a file, asking
/// `cache`: each candidate before it is recorded as not a file, and it as one. `None`
/// when every candidate is recorded as not a file. Answers recorded before stay.
pub fn nearest_file(cache: &mut FsCache, candidates: &Vec<String>) -> (r: Option<usize>)
    ensures
        final(cache).dirs.deep_view() == old(cache).dirs.deep_view(),
        forall|p: Seq<char>| #[trigger] cached(old(cache).files.deep_view(), p) is Some
            ==> cached(final(cache).files.deep_view(), p) == cached(old(cache).files.deep_view(), p),
        match r {
            Some(i) => i < candidates.len()
                && cached(final(cache).files.deep_view(), candidates@[i as int]@) == Some(true)
                && forall|j: int| 0 <= j < i ==> #[trigger] cached(final(cache).files.deep_view(), candidates@[j]@)
                    == Some(false),
            None => forall|j: int| 0 <= j < candidates.len() ==> #[trigger] cached(
                final(cache).files.deep_view(),
                candidates@[j]@,
            ) == Some(false),
        },
{
    let ghost start = cache.files.deep_view();
    let mut i: usize = 0;
    while i < candidates.len()
        invariant
            i <= candidates.len(),
            cache.dirs.deep_view() == old(cache).dirs.deep_view(),
            start == old(cache).files.deep_view(),
            forall|p: Seq<char>| #[trigger] cached(start, p) is Some
                ==> cached(cache.files.deep_view(), p) == cached(start, p),
            forall|j: int| 0 <= j < i ==> #[trigger] cached(cache.files.deep_view(), candidates@[j]@)
                == Some(false),
        decreases candidates.len() - i,
    {
        let ghost before = cache.files.deep_view();
        let found = cache.is_file_with_cache(candidates[i].as_str());
        proof {
            let path = candidates@[i as int]@;
            if cached(before, path) is None {
                lemma_cached_new_answer(before, path, found);
                assert forall|p: Seq<char>| #[trigger] cached(before, p) is Some implies cached(
                    cache.files.deep_view(),
                    p,
                ) == cached(before, p) by {
                    lemma_cached_answer_stays(before, p, path, found);
                }
            }
            assert(cached(cache.files.deep_view(), path) == Some(found));
            assert forall|p: Seq<char>| #[trigger] cached(start, p) is Some implies cached(
                cache.files.deep_view(),
                p,
            ) == cached(start, p) by {
                assert(cached(before, p) == cached(start, p));
            }
            assert forall|j: int| 0 <= j < i implies #[trigger] cached(
                cache.files.deep_view(),
                candidates@[j]@,
            ) == Some(false) by {
                assert(cached(before, candidates@[j]@) == Some(false));
            }
        }
        if found {
            return Some(i);
        }
        i = i + 1;
    }
    None
}

} // verus!
