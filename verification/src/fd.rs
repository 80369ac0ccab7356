//! The traversal engine: depth-first walks of a directory tree and the
//! derived filters over the discovered file paths.
//!
//! Directory enumeration is delegated to the `walkdir` crate; the walk
//! state, each step of enumeration and the existence probes stand behind
//! trusted declarations.  Everything that classifies, filters or collects
//! is verified.

use vstd::prelude::*;
use crate::fserror::FsError;
use crate::pathtext::{audio_matches, contains_seq, contains_pattern, ext_matches,
    has_audio_extension, has_matching_extension, matches_target, name_and_ext_match};

verus! {

#[verifier::external_type_specification]
#[verifier::external_body]
pub struct ExWalkDir(walkdir::WalkDir);

#[verifier::external_type_specification]
#[verifier::external_body]
pub struct ExWalkDirIntoIter(walkdir::IntoIter);

#[verifier::external_type_specification]
#[verifier::external_body]
pub struct ExWalkDirDirEntry(walkdir::DirEntry);

#[verifier::external_type_specification]
#[verifier::external_body]
pub struct ExWalkDirError(walkdir::Error);

/// Relies on `walkdir::WalkDir::new` and `IntoIterator::into_iter`:
/// a depth-first enumeration of the tree rooted at `root`, in an
/// unspecified order.
#[verifier::external_body]
fn walk_iter(root: &str) -> walkdir::IntoIter {
    walkdir::WalkDir::new(root).into_iter()
}

/// Relies on `Iterator::next` of `walkdir::IntoIter`: the next entry of
/// the enumeration, an error for an entry it could not read, or `None`
/// once the walk is exhausted.
#[verifier::external_body]
fn walk_next(it: &mut walkdir::IntoIter) -> Option<Result<walkdir::DirEntry, walkdir::Error>> {
    it.next()
}

/// Relies on `walkdir::DirEntry::path` and `Path::to_str`: the entry's
/// path as text, or `None` when the path cannot be interpreted as text.
#[verifier::external_body]
fn entry_path_string(e: &walkdir::DirEntry) -> Option<String> {
    e.path().to_str().map(|s| s.to_owned())
}

/// Relies on `walkdir::DirEntry::file_type` and `FileType::is_file`:
/// whether the entry is a regular file.
#[verifier::external_body]
fn entry_is_file(e: &walkdir::DirEntry) -> bool {
    e.file_type().is_file()
}

/// Relies on `walkdir::Error`'s `Display` impl: a description of a
/// traversal failure.
#[verifier::external_body]
fn walk_error_string(e: &walkdir::Error) -> String {
    format!("{}", e)
}

/// Relies on `std::path::Path::exists`: whether the path points at an
/// existing entity, after following symbolic links.
#[verifier::external_body]
pub(crate) fn path_exists(p: &str) -> bool {
    std::path::Path::new(p).exists()
}

/// Relies on `std::path::Path::is_file`: whether the path points at a
/// regular file, after following symbolic links.
#[verifier::external_body]
pub(crate) fn path_is_file(p: &str) -> bool {
    std::path::Path::new(p).is_file()
}

/// The pre-flight check shared by both walk variants: a walk root must
/// exist and must not be a regular file.
///
/// The result is `Ok` exactly when `exists` holds and `is_file` does not;
/// a missing root is `PathNotFound` and a file root is `NotADirectory`,
/// each carrying the root's path.
pub fn walk_preflight(exists: bool, is_file: bool, path: &str) -> (r: Result<(), FsError>)
    ensures
        r is Ok <==> (exists && !is_file),
        !exists ==> (r matches Err(FsError::PathNotFound(q)) && q@ == path@),
        exists && is_file ==> (r matches Err(FsError::NotADirectory(q)) && q@ == path@),
{
    if !exists {
        Err(FsError::PathNotFound(path.to_owned()))
    } else if is_file {
        Err(FsError::NotADirectory(path.to_owned()))
    } else {
        Ok(())
    }
}

/// The failures a walk itself can report for a root `root`: the two
/// pre-flight rejections, or an in-stream traversal error.
pub open spec fn walk_failure(e: FsError, root: Seq<char>) -> bool {
    ||| (e matches FsError::PathNotFound(q) && q@ == root)
    ||| (e matches FsError::NotADirectory(q) && q@ == root)
    ||| e is WalkDirError
}

/// A strict, single-pass, forward-only walk over the regular files under
/// a root: each pull yields the next file's path, or the error met at
/// that position without aborting the rest of the traversal.
///
/// `steps_left` bounds how many entries the walk will still consider, so
/// that every pull provably terminates; it starts at `usize::MAX`, which
/// no real directory tree exhausts.
pub struct FileWalk {
    iter: walkdir::IntoIter,
    steps_left: usize,
}

impl FileWalk {
    /// How many entries this walk will still consider before it reports
    /// exhaustion.  Each pull of `next` that yields something shrinks it.
    pub closed spec fn budget(self) -> nat {
        self.steps_left as nat
    }

    /// The next regular file of the walk, an in-stream traversal error,
    /// or `None` once the walk is exhausted.  Directories are classified
    /// and skipped, never yielded; so is an entry whose path cannot be
    /// interpreted as text, since this crate names files by their path
    /// text.
    pub fn next(&mut self) -> (r: Option<Result<String, FsError>>)
        ensures
            r is Some ==> final(self).budget() < old(self).budget(),
            r matches Some(Err(e)) ==> e is WalkDirError,
    {
        while self.steps_left > 0
            invariant
                self.budget() <= old(self).budget(),
            decreases self.steps_left,
        {
            self.steps_left = self.steps_left - 1;
            match walk_next(&mut self.iter) {
                None => {
                    return None;
                },
                Some(Err(e)) => {
                    return Some(Err(FsError::WalkDirError(walk_error_string(&e))));
                },
                Some(Ok(entry)) => {
                    if entry_is_file(&entry) {
                        match entry_path_string(&entry) {
                            Some(p) => {
                                return Some(Ok(p));
                            },
                            None => {},
                        }
                    }
                },
            }
        }
        None
    }

    /// Every file path the rest of the walk yields, in traversal order,
    /// or the first in-stream error met.
    pub fn collect(&mut self) -> (r: Result<Vec<String>, FsError>)
        ensures
            r matches Err(e) ==> e is WalkDirError,
    {
        let mut out: Vec<String> = Vec::new();
        loop
            decreases self.budget(),
        {
            match self.next() {
                None => {
                    return Ok(out);
                },
                Some(Ok(p)) => {
                    out.push(p);
                },
                Some(Err(e)) => {
                    return Err(e);
                },
            }
        }
    }
}

/// A lenient, single-pass walk: entries that errored are silently
/// skipped, so each pull yields only paths of regular files.
pub struct LenientFileWalk {
    inner: FileWalk,
}

impl LenientFileWalk {
    /// How many entries this walk will still consider.
    pub closed spec fn budget(self) -> nat {
        self.inner.budget()
    }

    /// The next regular file of the walk, or `None` once it is exhausted;
    /// traversal errors are dropped, not yielded.
    pub fn next(&mut self) -> (r: Option<String>)
        ensures
            r is Some ==> final(self).budget() < old(self).budget(),
    {
        loop
            invariant
                self.budget() <= old(self).budget(),
            decreases self.budget(),
        {
            let ghost before = self.budget();
            match self.inner.next() {
                None => {
                    return None;
                },
                Some(Ok(p)) => {
                    return Some(p);
                },
                Some(Err(_)) => {
                    assert(self.budget() < before);
                },
            }
        }
    }

    /// Every file path the rest of the walk yields, in traversal order.
    pub fn collect(&mut self) -> (r: Vec<String>) {
        let mut out: Vec<String> = Vec::new();
        loop
            decreases self.budget(),
        {
            match self.next() {
                None => {
                    return out;
                },
                Some(p) => {
                    out.push(p);
                },
            }
        }
    }
}

/// A strict walk of the directory tree rooted at `path`.
///
/// Fails up front with `PathNotFound` when `path` does not exist and with
/// `NotADirectory` when it is a regular file; otherwise the returned walk
/// yields every regular file reachable by depth-first descent whose path
/// can be interpreted as text, each element independently fallible.
/// Entries whose path is not valid text are skipped, not errored.
pub fn walk(path: &str) -> (r: Result<FileWalk, FsError>)
    ensures
        r matches Err(e) ==> ((e matches FsError::PathNotFound(q) && q@ == path@) || (
        e matches FsError::NotADirectory(q) && q@ == path@)),
{
    let exists = path_exists(path);
    let is_file = path_is_file(path);
    match walk_preflight(exists, is_file, path) {
        Err(e) => Err(e),
        Ok(()) => Ok(FileWalk { iter: walk_iter(path), steps_left: usize::MAX }),
    }
}

/// A text-level rule that selects paths.
pub enum PathRule {
    /// Paths whose extension equals the given one up to ASCII case.
    Extension(Seq<char>),
    /// Paths whose text contains the given pattern.
    Substring(Seq<char>),
    /// Paths whose extension is on the audio allowlist.
    Audio,
    /// Paths whose file name and extension equal the given path's.
    SameName(Seq<char>),
}

/// Whether path `p` is selected by `rule`.
pub open spec fn rule_holds(rule: PathRule, p: Seq<char>) -> bool {
    match rule {
        PathRule::Extension(e) => ext_matches(p, e),
        PathRule::Substring(pat) => contains_seq(p, pat),
        PathRule::Audio => audio_matches(p),
        PathRule::SameName(t) => name_and_ext_match(p, t),
    }
}

/// The subsequence of `paths` selected by `rule`, in order.
pub open spec fn selected(paths: Seq<Seq<char>>, rule: PathRule) -> Seq<Seq<char>>
    decreases paths.len(),
{
    if paths.len() == 0 {
        Seq::empty()
    } else if rule_holds(rule, paths.last()) {
        selected(paths.drop_last(), rule).push(paths.last())
    } else {
        selected(paths.drop_last(), rule)
    }
}

/// Selecting from one more path keeps the earlier selection and appends
/// the new path exactly when the rule holds of it.
pub proof fn lemma_selected_push(paths: Seq<Seq<char>>, rule: PathRule, x: Seq<char>)
    ensures
        selected(paths.push(x), rule) == if rule_holds(rule, x) {
            selected(paths, rule).push(x)
        } else {
            selected(paths, rule)
        },
{
    assert(paths.push(x).drop_last() =~= paths);
    assert(paths.push(x).last() == x);
}

/// Every selected path satisfies the rule it was selected by.
pub proof fn lemma_selected_holds(paths: Seq<Seq<char>>, rule: PathRule)
    ensures
        forall|i: int|
            0 <= i < selected(paths, rule).len() ==> rule_holds(
                rule,
                #[trigger] selected(paths, rule)[i],
            ),
    decreases paths.len(),
{
    if paths.len() > 0 {
        let sub = selected(paths.drop_last(), rule);
        lemma_selected_holds(paths.drop_last(), rule);
        if rule_holds(rule, paths.last()) {
            assert forall|i: int| 0 <= i < selected(paths, rule).len() implies rule_holds(
                rule,
                selected(paths, rule)[i],
            ) by {
                if i < sub.len() {
                    assert(selected(paths, rule)[i] == sub[i]);
                } else {
                    assert(selected(paths, rule)[i] == paths.last());
                }
            }
        }
    }
}

/// Every path the rule holds of is kept by the selection: nothing the
/// rule selects is dropped.
pub proof fn lemma_selected_complete(paths: Seq<Seq<char>>, rule: PathRule, i: int)
    requires
        0 <= i < paths.len(),
        rule_holds(rule, paths[i]),
    ensures
        selected(paths, rule).contains(paths[i]),
    decreases paths.len(),
{
    let s = selected(paths, rule);
    if i == paths.len() - 1 {
        assert(s[s.len() - 1] == paths[i]);
    } else {
        lemma_selected_complete(paths.drop_last(), rule, i);
        let sub = selected(paths.drop_last(), rule);
        let j = choose|j: int| 0 <= j < sub.len() && sub[j] == paths.drop_last()[i];
        assert(paths.drop_last()[i] == paths[i]);
        if rule_holds(rule, paths.last()) {
            assert(s[j] == sub[j]);
        }
        assert(s[j] == paths[i]);
    }
}

/// Exactly those of `paths` whose extension equals `ext` up to ASCII
/// case, in order.
pub fn filter_by_extension(paths: &Vec<String>, ext: &str) -> (r: Vec<String>)
    ensures
        r.deep_view() == selected(paths.deep_view(), PathRule::Extension(ext@)),
{
    let ghost rule = PathRule::Extension(ext@);
    let mut out: Vec<String> = Vec::new();
    let n = paths.len();
    let mut i: usize = 0;
    while i < n
        invariant
            rule == PathRule::Extension(ext@),
            n == paths.len(),
            i <= n,
            out.deep_view() =~= selected(paths.deep_view().subrange(0, i as int), rule),
        decreases n - i,
    {
        let p = &paths[i];
        proof {
            assert(paths.deep_view().subrange(0, i as int + 1) =~= paths.deep_view().subrange(
                0,
                i as int,
            ).push(p@));
            lemma_selected_push(paths.deep_view().subrange(0, i as int), rule, p@);
        }
        if has_matching_extension(p.as_str(), ext) {
            out.push(p.clone());
        }
        i += 1;
    }
    proof {
        assert(paths.deep_view().subrange(0, n as int) =~= paths.deep_view());
    }
    out
}

/// Exactly those of `paths` whose text contains `pattern`, in order.
pub fn filter_by_substring(paths: &Vec<String>, pattern: &str) -> (r: Vec<String>)
    ensures
        r.deep_view() == selected(paths.deep_view(), PathRule::Substring(pattern@)),
{
    let ghost rule = PathRule::Substring(pattern@);
    let mut out: Vec<String> = Vec::new();
    let n = paths.len();
    let mut i: usize = 0;
    while i < n
        invariant
            rule == PathRule::Substring(pattern@),
            n == paths.len(),
            i <= n,
            out.deep_view() =~= selected(paths.deep_view().subrange(0, i as int), rule),
        decreases n - i,
    {
        let p = &paths[i];
        proof {
            assert(paths.deep_view().subrange(0, i as int + 1) =~= paths.deep_view().subrange(
                0,
                i as int,
            ).push(p@));
            lemma_selected_push(paths.deep_view().subrange(0, i as int), rule, p@);
        }
        if contains_pattern(p.as_str(), pattern) {
            out.push(p.clone());
        }
        i += 1;
    }
    proof {
        assert(paths.deep_view().subrange(0, n as int) =~= paths.deep_view());
    }
    out
}

/// Exactly those of `paths` whose extension is on the audio allowlist,
/// in order.
pub fn filter_audio(paths: &Vec<String>) -> (r: Vec<String>)
    ensures
        r.deep_view() == selected(paths.deep_view(), PathRule::Audio),
{
    let ghost rule = PathRule::Audio;
    let mut out: Vec<String> = Vec::new();
    let n = paths.len();
    let mut i: usize = 0;
    while i < n
        invariant
            rule == PathRule::Audio,
            n == paths.len(),
            i <= n,
            out.deep_view() =~= selected(paths.deep_view().subrange(0, i as int), rule),
        decreases n - i,
    {
        let p = &paths[i];
        proof {
            assert(paths.deep_view().subrange(0, i as int + 1) =~= paths.deep_view().subrange(
                0,
                i as int,
            ).push(p@));
            lemma_selected_push(paths.deep_view().subrange(0, i as int), rule, p@);
        }
        if has_audio_extension(p.as_str()) {
            out.push(p.clone());
        }
        i += 1;
    }
    proof {
        assert(paths.deep_view().subrange(0, n as int) =~= paths.deep_view());
    }
    out
}

/// Exactly those of `paths` whose file name and extension equal
/// `target`'s, in order.
pub fn filter_matching_target(paths: &Vec<String>, target: &str) -> (r: Vec<String>)
    ensures
        r.deep_view() == selected(paths.deep_view(), PathRule::SameName(target@)),
{
    let ghost rule = PathRule::SameName(target@);
    let mut out: Vec<String> = Vec::new();
    let n = paths.len();
    let mut i: usize = 0;
    while i < n
        invariant
            rule == PathRule::SameName(target@),
            n == paths.len(),
            i <= n,
            out.deep_view() =~= selected(paths.deep_view().subrange(0, i as int), rule),
        decreases n - i,
    {
        let p = &paths[i];
        proof {
            assert(paths.deep_view().subrange(0, i as int + 1) =~= paths.deep_view().subrange(
                0,
                i as int,
            ).push(p@));
            lemma_selected_push(paths.deep_view().subrange(0, i as int), rule, p@);
        }
        if matches_target(p.as_str(), target) {
            out.push(p.clone());
        }
        i += 1;
    }
    proof {
        assert(paths.deep_view().subrange(0, n as int) =~= paths.deep_view());
    }
    out
}

/// A lenient walk of the directory tree rooted at `path`: the same
/// pre-flight validation as [`walk`], but entries that error during
/// the traversal are skipped instead of yielded.
pub fn walk_lenient(path: &str) -> (r: Result<LenientFileWalk, FsError>)
    ensures
        r matches Err(e) ==> ((e matches FsError::PathNotFound(q) && q@ == path@) || (
        e matches FsError::NotADirectory(q) && q@ == path@)),
{
    match walk(path) {
        Err(e) => Err(e),
        Ok(w) => Ok(LenientFileWalk { inner: w }),
    }
}

/// The first file under `search_path` whose file name and extension both
/// equal `target_file`'s, in traversal order, or `None` when no file
/// matches.
///
/// Any traversal error met before a match aborts the search and becomes
/// the overall error.
pub fn find_match_one(search_path: &str, target_file: &str) -> (r: Result<Option<String>, FsError>)
    ensures
        r matches Err(e) ==> walk_failure(e, search_path@),
        r matches Ok(Some(p)) ==> name_and_ext_match(p@, target_file@),
{
    let mut w = match walk(search_path) {
        Err(e) => {
            return Err(e);
        },
        Ok(w) => w,
    };
    loop
        decreases w.budget(),
    {
        match w.next() {
            None => {
                return Ok(None);
            },
            Some(Err(e)) => {
                return Err(e);
            },
            Some(Ok(p)) => {
                if matches_target(p.as_str(), target_file) {
                    return Ok(Some(p));
                }
            },
        }
    }
}

/// Every file under `search_path` whose file name and extension both
/// equal `target_file`'s: exactly the matching paths of one strict walk,
/// in traversal order.
pub fn find_match_all(search_path: &str, target_file: &str) -> (r: Result<Vec<String>, FsError>)
    ensures
        r matches Err(e) ==> walk_failure(e, search_path@),
        r matches Ok(v) ==> (forall|i: int|
            0 <= i < v.len() ==> name_and_ext_match(#[trigger] v.deep_view()[i], target_file@)),
{
    let mut w = match walk(search_path) {
        Err(e) => {
            return Err(e);
        },
        Ok(w) => w,
    };
    let all = match w.collect() {
        Err(e) => {
            return Err(e);
        },
        Ok(all) => all,
    };
    let out = filter_matching_target(&all, target_file);
    proof {
        lemma_selected_holds(all.deep_view(), PathRule::SameName(target_file@));
    }
    Ok(out)
}

/// Every file under `search_path` whose extension equals
/// `target_extension` up to ASCII case: exactly the matching paths of
/// one strict walk, in traversal order.
pub fn find_ext(search_path: &str, target_extension: &str) -> (r: Result<Vec<String>, FsError>)
    ensures
        r matches Err(e) ==> walk_failure(e, search_path@),
        r matches Ok(v) ==> (forall|i: int|
            0 <= i < v.len() ==> ext_matches(#[trigger] v.deep_view()[i], target_extension@)),
{
    let mut w = match walk(search_path) {
        Err(e) => {
            return Err(e);
        },
        Ok(w) => w,
    };
    let all = match w.collect() {
        Err(e) => {
            return Err(e);
        },
        Ok(all) => all,
    };
    let out = filter_by_extension(&all, target_extension);
    proof {
        lemma_selected_holds(all.deep_view(), PathRule::Extension(target_extension@));
    }
    Ok(out)
}

/// Every file under `search_path` whose path text contains `pattern`:
/// exactly the matching paths of one strict walk, in traversal order.
/// Entries whose path cannot be interpreted as text are skipped, not
/// errored.
pub fn find_pattern(search_path: &str, pattern: &str) -> (r: Result<Vec<String>, FsError>)
    ensures
        r matches Err(e) ==> walk_failure(e, search_path@),
        r matches Ok(v) ==> (forall|i: int|
            0 <= i < v.len() ==> contains_seq(#[trigger] v.deep_view()[i], pattern@)),
{
    let mut w = match walk(search_path) {
        Err(e) => {
            return Err(e);
        },
        Ok(w) => w,
    };
    let all = match w.collect() {
        Err(e) => {
            return Err(e);
        },
        Ok(all) => all,
    };
    let out = filter_by_substring(&all, pattern);
    proof {
        lemma_selected_holds(all.deep_view(), PathRule::Substring(pattern@));
    }
    Ok(out)
}

/// Every file under `search_path` whose extension, up to ASCII case, is
/// one of `flac`, `mp3`, `m4a`, `ogg`, `opus`, `wav`, `aac`, `wma`.
///
/// Uses the lenient walk, so entries that error during the traversal are
/// skipped; only the pre-flight validation can fail.
pub fn find_audio_files(search_path: &str) -> (r: Result<Vec<String>, FsError>)
    ensures
        r matches Err(e) ==> ((e matches FsError::PathNotFound(q) && q@ == search_path@) || (
        e matches FsError::NotADirectory(q) && q@ == search_path@)),
        r matches Ok(v) ==> (forall|i: int|
            0 <= i < v.len() ==> audio_matches(#[trigger] v.deep_view()[i])),
{
    let mut w = match walk_lenient(search_path) {
        Err(e) => {
            return Err(e);
        },
        Ok(w) => w,
    };
    let all = w.collect();
    let out = filter_audio(&all);
    proof {
        lemma_selected_holds(all.deep_view(), PathRule::Audio);
    }
    Ok(out)
}

} // verus!
