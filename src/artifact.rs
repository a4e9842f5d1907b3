use vstd::prelude::*;
use vstd::string::*;

verus! {

/// Why no identity token could be taken from an output path.
#[derive(Clone, Copy, Debug, PartialEq, Eq, Structural)]
pub enum HashError {
    /// The path has fewer than three `/`-separated components.
    TooFewSegments,
    /// The second component from the right holds no `-`, or nothing follows its last `-`.
    NoFingerprint,
}

impl HashError {
    /// A human-readable account of the failure.
    pub fn message(&self) -> (r: String)
        ensures
            r@ == match self {
                HashError::TooFewSegments => "output path has fewer than three components"@,
                HashError::NoFingerprint => "output path component holds no fingerprint after a dash"@,
            },
    {
        let r = match self {
            HashError::TooFewSegments => String::from_str(
                "output path has fewer than three components",
            ),
            HashError::NoFingerprint => String::from_str(
                "output path component holds no fingerprint after a dash",
            ),
        };
        r
    }
}

/// Position of the last `c` in `s`, if any.
pub open spec fn last_index_of(s: Seq<char>, c: char) -> Option<int>
    decreases s.len(),
{
    if s.len() == 0 {
        None
    } else if s.last() == c {
        Some(s.len() - 1)
    } else {
        last_index_of(s.drop_last(), c)
    }
}

/// The second `/`-separated component from the right, when the path has at least
/// three components.
pub open spec fn fingerprint_segment(path: Seq<char>) -> Option<Seq<char>> {
    match last_index_of(path, '/') {
        None => None,
        Some(j) => match last_index_of(path.subrange(0, j), '/') {
            None => None,
            Some(i) => Some(path.subrange(i + 1, j)),
        },
    }
}

/// The text after the last `-` of the fingerprint segment, when there is such text.
pub open spec fn hash_token(path: Seq<char>) -> Option<Seq<char>> {
    match fingerprint_segment(path) {
        None => None,
        Some(seg) => match last_index_of(seg, '-') {
            None => None,
            Some(d) => if d + 1 < seg.len() {
                Some(seg.subrange(d + 1, seg.len() as int))
            } else {
                None
            },
        },
    }
}

/// The record written for a token: `HASH=<token>`.
pub open spec fn hash_record_spec(token: Seq<char>) -> Seq<char> {
    "HASH="@ + token
}

/// The file, relative to the project root, that holds the record.
pub open spec fn hash_file_spec(project_root: Seq<char>) -> Seq<char> {
    project_root + "/.emlib_hash"@
}

proof fn lemma_last_index_of_bounds(s: Seq<char>, c: char)
    ensures
        match last_index_of(s, c) {
            Some(i) => 0 <= i < s.len() && s[i] == c,
            None => true,
        },
    decreases s.len(),
{
    if s.len() > 0 && s.last() != c {
        lemma_last_index_of_bounds(s.drop_last(), c);
    }
}

/// Finds the last `c` among the first `end` characters of `s`.
fn find_last(s: &str, end: usize, c: char) -> (r: Option<usize>)
    requires
        end <= s@.len(),
    ensures
        match r {
            Some(i) => last_index_of(s@.subrange(0, end as int), c) == Some(i as int),
            None => last_index_of(s@.subrange(0, end as int), c) is None,
        },
{
    let mut i: usize = end;
    while i > 0
        invariant
            i <= end <= s@.len(),
            last_index_of(s@.subrange(0, i as int), c) == last_index_of(
                s@.subrange(0, end as int),
                c,
            ),
        decreases i,
    {
        let ch = s.get_char(i - 1);
        if ch == c {
            return Some(i - 1);
        }
        assert(s@.subrange(0, i as int).drop_last() =~= s@.subrange(0, i - 1));
        i = i - 1;
    }
    None
}

/// Takes the identity token out of a build output path: the second component from the
/// right, and in it the text after the last `-`. A path with fewer than three
/// components, or whose component holds no `-` or ends with it, gives an error and no
/// token: the token is never empty.
pub fn extract_hash_token(out_dir: &str) -> (r: Result<String, HashError>)
    ensures
        r is Ok <==> hash_token(out_dir@) is Some,
        r matches Ok(t) ==> hash_token(out_dir@) == Some(t@) && t@.len() > 0,
        r == Err::<String, HashError>(HashError::TooFewSegments) <==> fingerprint_segment(
            out_dir@,
        ) is None,
        r == Err::<String, HashError>(HashError::NoFingerprint) <==> (fingerprint_segment(
            out_dir@,
        ) is Some && hash_token(out_dir@) is None),
{
    let ghost p = out_dir@;
    let n = out_dir.unicode_len();
    assert(p.subrange(0, n as int) =~= p);
    let j = match find_last(out_dir, n, '/') {
        Some(j) => j,
        None => return Err(HashError::TooFewSegments),
    };
    proof {
        lemma_last_index_of_bounds(p, '/');
    }
    let i = match find_last(out_dir, j, '/') {
        Some(i) => i,
        None => return Err(HashError::TooFewSegments),
    };
    proof {
        lemma_last_index_of_bounds(p.subrange(0, j as int), '/');
    }
    let seg = out_dir.substring_char(i + 1, j);
    let m = seg.unicode_len();
    assert(seg@.subrange(0, m as int) =~= seg@);
    let d = match find_last(seg, m, '-') {
        Some(d) => d,
        None => return Err(HashError::NoFingerprint),
    };
    proof {
        lemma_last_index_of_bounds(seg@, '-');
    }
    if d + 1 == m {
        return Err(HashError::NoFingerprint);
    }
    let token = seg.substring_char(d + 1, m);
    Ok(String::from_str(token))
}

/// The record for a token, `HASH=<token>`.
pub fn hash_record(token: &str) -> (r: String)
    ensures
        r@ == hash_record_spec(token@),
{
    String::from_str("HASH=").concat(token)
}

/// The record to persist for a build output path, or why there is none.
pub fn emlib_hash_record(out_dir: &str) -> (r: Result<String, HashError>)
    ensures
        r is Ok <==> hash_token(out_dir@) is Some,
        r matches Ok(c) ==> hash_token(out_dir@) matches Some(t) && c@ == hash_record_spec(t),
        r == Err::<String, HashError>(HashError::TooFewSegments) <==> fingerprint_segment(
            out_dir@,
        ) is None,
        r == Err::<String, HashError>(HashError::NoFingerprint) <==> (fingerprint_segment(
            out_dir@,
        ) is Some && hash_token(out_dir@) is None),
{
    match extract_hash_token(out_dir) {
        Ok(token) => Ok(hash_record(token.as_str())),
        Err(e) => Err(e),
    }
}

/// Where the record goes: `<project_root>/.emlib_hash`.
pub fn emlib_hash_file(project_root: &str) -> (r: String)
    ensures
        r@ == hash_file_spec(project_root@),
{
    String::from_str(project_root).concat("/.emlib_hash")
}

/// Number of occurrences of `c` in `s`.
pub open spec fn count_char(s: Seq<char>, c: char) -> nat
    decreases s.len(),
{
    if s.len() == 0 {
        0
    } else {
        count_char(s.drop_last(), c) + if s.last() == c {
            1nat
        } else {
            0nat
        }
    }
}

proof fn lemma_last_index_of_count(s: Seq<char>, c: char)
    ensures
        match last_index_of(s, c) {
            Some(j) => 0 <= j < s.len() && count_char(s, c) == count_char(s.subrange(0, j), c) + 1,
            None => count_char(s, c) == 0,
        },
    decreases s.len(),
{
    if s.len() > 0 {
        if s.last() == c {
            assert(s.drop_last() =~= s.subrange(0, s.len() - 1));
        } else {
            lemma_last_index_of_count(s.drop_last(), c);
            if let Some(j) = last_index_of(s.drop_last(), c) {
                assert(s.drop_last().subrange(0, j) =~= s.subrange(0, j));
            }
        }
    }
}

/// A path has a fingerprint segment exactly when it has at least three components,
/// that is at least two separators; one with fewer gives no token.
pub proof fn lemma_short_path_has_no_token(path: Seq<char>)
    ensures
        fingerprint_segment(path) is None <==> count_char(path, '/') < 2,
        count_char(path, '/') < 2 ==> hash_token(path) is None,
{
    lemma_last_index_of_count(path, '/');
    if let Some(j) = last_index_of(path, '/') {
        lemma_last_index_of_count(path.subrange(0, j), '/');
    }
}

/// A token, when there is one, is never empty.
pub proof fn lemma_token_never_empty(path: Seq<char>)
    ensures
        hash_token(path) matches Some(t) ==> t.len() > 0,
{
    if let Some(seg) = fingerprint_segment(path) {
        lemma_last_index_of_bounds(seg, '-');
    }
}

} // verus!
