//! Pure text-level reasoning about paths: file names, extensions,
//! case-insensitive comparison and substring search.
//!
//! Paths are treated as opaque text.  A path's file name is the part after
//! the last `/`, and its extension is the part of the file name after the
//! last `.`, provided that dot is neither the first character of the name
//! nor absent.  For the paths a directory walk yields this splits names as
//! the operating system's own path routines do; a path with a trailing
//! separator has an empty file name here, where the system routines would
//! ignore the separator.

use vstd::prelude::*;
use vstd::string::StrSliceExecFns;

verus! {

/// The Unicode scalar value of `c` with an ASCII upper-case letter folded
/// to its lower-case counterpart; every other character is unchanged.
pub open spec fn lower_code(c: char) -> u32 {
    if 65 <= c as u32 && c as u32 <= 90 {
        (c as u32 + 32) as u32
    } else {
        c as u32
    }
}

/// Character sequences that are equal up to ASCII case.
pub open spec fn chars_eqi(a: Seq<char>, b: Seq<char>) -> bool {
    a.len() == b.len() && (forall|i: int| 0 <= i < a.len() ==> lower_code(a[i]) == lower_code(b[i]))
}

/// Whether `a` and `b` hold the same characters up to ASCII case.
pub fn eq_ignore_ascii_case(a: &str, b: &str) -> (r: bool)
    ensures
        r == chars_eqi(a@, b@),
{
    let n = a.unicode_len();
    if n != b.unicode_len() {
        return false;
    }
    let mut i: usize = 0;
    while i < n
        invariant
            n == a@.len(),
            n == b@.len(),
            i <= n,
            forall|j: int| 0 <= j < i ==> lower_code(a@[j]) == lower_code(b@[j]),
        decreases n - i,
    {
        let x: u32 = a.get_char(i) as u32;
        let y: u32 = b.get_char(i) as u32;
        let xl: u32 = if 65 <= x && x <= 90 { x + 32 } else { x };
        let yl: u32 = if 65 <= y && y <= 90 { y + 32 } else { y };
        if xl != yl {
            return false;
        }
        i += 1;
    }
    true
}

/// Whether `a` and `b` hold the same characters.
pub fn str_eq(a: &str, b: &str) -> (r: bool)
    ensures
        r == (a@ == b@),
{
    let x = a.to_owned();
    let y = b.to_owned();
    x == y
}

/// The index of the last occurrence of `c` in `s`, or `-1` when `c` does
/// not occur.
pub open spec fn last_index_of(s: Seq<char>, c: char) -> int
    decreases s.len(),
{
    if s.len() == 0 {
        -1
    } else if s[s.len() - 1] == c {
        s.len() - 1
    } else {
        last_index_of(s.drop_last(), c)
    }
}

/// `last_index_of` points at an occurrence of `c` with nothing after it,
/// or reports `-1` exactly when `c` does not occur at all.
pub proof fn lemma_last_index_of(s: Seq<char>, c: char)
    ensures
        -1 <= last_index_of(s, c) < s.len(),
        last_index_of(s, c) >= 0 ==> s[last_index_of(s, c)] == c,
        forall|j: int| last_index_of(s, c) < j < s.len() ==> s[j] != c,
    decreases s.len(),
{
    if s.len() > 0 && s[s.len() - 1] != c {
        lemma_last_index_of(s.drop_last(), c);
        assert(forall|j: int| 0 <= j < s.len() - 1 ==> s.drop_last()[j] == s[j]);
    }
}

/// The index of the last occurrence of `c` in `s`, if any.
pub fn find_last(s: &str, c: char) -> (r: Option<usize>)
    ensures
        match r {
            Some(i) => last_index_of(s@, c) == i,
            None => last_index_of(s@, c) == -1,
        },
{
    let n = s.unicode_len();
    let mut i: usize = n;
    while i > 0
        invariant
            n == s@.len(),
            i <= n,
            forall|j: int| i <= j < n ==> s@[j] != c,
        decreases i,
    {
        i = i - 1;
        if s.get_char(i) == c {
            proof {
                lemma_last_index_of(s@, c);
                let m = last_index_of(s@, c);
                if m < i {
                    assert(s@[i as int] != c);
                }
            }
            return Some(i);
        }
    }
    proof {
        lemma_last_index_of(s@, c);
        let m = last_index_of(s@, c);
        if m >= 0 {
            assert(s@[m] != c);
        }
    }
    None
}

/// The file name of path `p`: the part after the last `/`, or all of `p`
/// when `p` holds no `/`.
pub open spec fn file_name_of(p: Seq<char>) -> Seq<char> {
    p.subrange(last_index_of(p, '/') + 1, p.len() as int)
}

/// The extension of path `p`: the part of its file name after the last
/// `.`, unless that dot is the name's first character or absent.
pub open spec fn extension_of(p: Seq<char>) -> Option<Seq<char>> {
    let name = file_name_of(p);
    let d = last_index_of(name, '.');
    if d <= 0 {
        None
    } else {
        Some(name.subrange(d + 1, name.len() as int))
    }
}

/// The file name of `p` as a fresh string.
pub fn file_name(p: &str) -> (r: String)
    ensures
        r@ == file_name_of(p@),
{
    proof {
        lemma_last_index_of(p@, '/');
    }
    let n = p.unicode_len();
    let start: usize = match find_last(p, '/') {
        Some(i) => i + 1,
        None => 0,
    };
    p.substring_char(start, n).to_owned()
}

/// The extension of `p`, if its file name has one.
pub fn extension(p: &str) -> (r: Option<String>)
    ensures
        (r is Some) == (extension_of(p@) is Some),
        r matches Some(e) ==> extension_of(p@) == Some(e@),
{
    let name = file_name(p);
    let name_str = name.as_str();
    proof {
        lemma_last_index_of(name@, '.');
    }
    let nl = name_str.unicode_len();
    match find_last(name_str, '.') {
        None => None,
        Some(d) => {
            if d == 0 {
                None
            } else {
                assert(d < nl);
                Some(name_str.substring_char(d + 1, nl).to_owned())
            }
        },
    }
}

/// The image of a character sequence under ASCII lower-casing.
pub open spec fn lowered(s: Seq<char>) -> Seq<u32> {
    Seq::new(s.len(), |i: int| lower_code(s[i]))
}

/// Case-insensitive equality holds exactly when both sides lower-case to
/// the same sequence: a match is insensitive to the ASCII case of either
/// side, so re-casing either operand never changes the verdict.
pub proof fn lemma_chars_eqi_is_lowered_eq(a: Seq<char>, b: Seq<char>)
    ensures
        chars_eqi(a, b) <==> lowered(a) == lowered(b),
{
    if chars_eqi(a, b) {
        assert(lowered(a) =~= lowered(b));
    }
    if lowered(a) == lowered(b) {
        assert(lowered(a).len() == lowered(b).len());
        assert forall|i: int| 0 <= i < a.len() implies lower_code(a[i]) == lower_code(b[i]) by {
            assert(lowered(a)[i] == lowered(b)[i]);
        }
    }
}

/// Extension matching is case-insensitive: two target extensions that
/// differ only in ASCII case select exactly the same paths.
pub proof fn lemma_ext_match_case_insensitive(p: Seq<char>, e1: Seq<char>, e2: Seq<char>)
    requires
        chars_eqi(e1, e2),
    ensures
        ext_matches(p, e1) == ext_matches(p, e2),
{
    lemma_chars_eqi_is_lowered_eq(e1, e2);
    if let Some(e) = extension_of(p) {
        lemma_chars_eqi_is_lowered_eq(e, e1);
        lemma_chars_eqi_is_lowered_eq(e, e2);
    }
}

/// Whether `pat` occurs in `s` starting at index `i`.
pub open spec fn matches_at(s: Seq<char>, pat: Seq<char>, i: int) -> bool {
    0 <= i && i + pat.len() <= s.len() && (forall|j: int|
        0 <= j < pat.len() ==> s[i + j] == pat[j])
}

/// Whether `pat` occurs anywhere in `s`.
pub open spec fn contains_seq(s: Seq<char>, pat: Seq<char>) -> bool {
    exists|i: int| matches_at(s, pat, i)
}

/// Whether `pat` occurs in `s` at index `i`.
fn match_at(s: &str, pat: &str, i: usize) -> (r: bool)
    requires
        i + pat@.len() <= s@.len(),
    ensures
        r == matches_at(s@, pat@, i as int),
{
    let n = s.unicode_len();
    let m = pat.unicode_len();
    let mut j: usize = 0;
    while j < m
        invariant
            n == s@.len(),
            m == pat@.len(),
            i + m <= n,
            j <= m,
            forall|k: int| 0 <= k < j ==> s@[i + k] == pat@[k],
        decreases m - j,
    {
        if s.get_char(i + j) != pat.get_char(j) {
            return false;
        }
        j += 1;
    }
    true
}

/// Whether the text of `s` contains `pat`.
pub fn contains_pattern(s: &str, pat: &str) -> (r: bool)
    ensures
        r == contains_seq(s@, pat@),
{
    let n = s.unicode_len();
    let m = pat.unicode_len();
    if m > n {
        assert(forall|i: int| !matches_at(s@, pat@, i));
        return false;
    }
    let mut i: usize = 0;
    while i <= n - m
        invariant
            n == s@.len(),
            m == pat@.len(),
            m <= n,
            i <= n - m + 1,
            forall|k: int| 0 <= k < i ==> !matches_at(s@, pat@, k),
        decreases n + 1 - m - i,
    {
        if match_at(s, pat, i) {
            return true;
        }
        i += 1;
    }
    assert forall|k: int| !matches_at(s@, pat@, k) by {
        if matches_at(s@, pat@, k) {
            assert(0 <= k < i);
        }
    }
    false
}

/// Whether path `p` has an extension equal to `target_ext` up to ASCII
/// case.
pub open spec fn ext_matches(p: Seq<char>, target_ext: Seq<char>) -> bool {
    match extension_of(p) {
        Some(e) => chars_eqi(e, target_ext),
        None => false,
    }
}

/// Whether `p` has an extension that equals `target_ext` up to ASCII case.
pub fn has_matching_extension(p: &str, target_ext: &str) -> (r: bool)
    ensures
        r == ext_matches(p@, target_ext@),
{
    match extension(p) {
        None => false,
        Some(e) => eq_ignore_ascii_case(e.as_str(), target_ext),
    }
}

/// The fixed allowlist of audio extensions, compared up to ASCII case.
pub open spec fn is_audio_ext(e: Seq<char>) -> bool {
    ||| chars_eqi(e, "flac"@)
    ||| chars_eqi(e, "mp3"@)
    ||| chars_eqi(e, "m4a"@)
    ||| chars_eqi(e, "ogg"@)
    ||| chars_eqi(e, "opus"@)
    ||| chars_eqi(e, "wav"@)
    ||| chars_eqi(e, "aac"@)
    ||| chars_eqi(e, "wma"@)
}

/// Whether `e` is one of the audio extensions, up to ASCII case.
pub fn is_audio_extension(e: &str) -> (r: bool)
    ensures
        r == is_audio_ext(e@),
{
    eq_ignore_ascii_case(e, "flac") || eq_ignore_ascii_case(e, "mp3") || eq_ignore_ascii_case(
        e,
        "m4a",
    ) || eq_ignore_ascii_case(e, "ogg") || eq_ignore_ascii_case(e, "opus")
        || eq_ignore_ascii_case(e, "wav") || eq_ignore_ascii_case(e, "aac")
        || eq_ignore_ascii_case(e, "wma")
}

/// Whether path `p` has an audio extension.
pub open spec fn audio_matches(p: Seq<char>) -> bool {
    match extension_of(p) {
        Some(e) => is_audio_ext(e),
        None => false,
    }
}

/// Whether `p` names an audio file by its extension.
pub fn has_audio_extension(p: &str) -> (r: bool)
    ensures
        r == audio_matches(p@),
{
    match extension(p) {
        None => false,
        Some(e) => is_audio_extension(e.as_str()),
    }
}

/// Whether `p` and `target` have the same file name and the same
/// extension.
pub open spec fn name_and_ext_match(p: Seq<char>, target: Seq<char>) -> bool {
    file_name_of(p) == file_name_of(target) && extension_of(p) == extension_of(target)
}

/// Whether `p`'s file name and extension both equal `target`'s.
pub fn matches_target(p: &str, target: &str) -> (r: bool)
    ensures
        r == name_and_ext_match(p@, target@),
{
    let pn = file_name(p);
    let tn = file_name(target);
    if !str_eq(pn.as_str(), tn.as_str()) {
        return false;
    }
    let pe = extension(p);
    let te = extension(target);
    match (pe, te) {
        (Option::None, Option::None) => true,
        (Option::Some(a), Option::Some(b)) => str_eq(a.as_str(), b.as_str()),
        _ => false,
    }
}

} // verus!
