//! Routing of a single request line, as the servers around the pool use it:
//! the pure decision from the bytes of the line to what is served. Reading
//! the line from the connection, probing the disk and writing the response
//! stay with the caller; this module only decides.
//!
//! A well-formed line is `GET <path> HTTP/1.1`. The path is trimmed of
//! surrounding whitespace; the root (or an empty path) and `/sleep` map to
//! the site index, a path that tries to escape the site root is rejected,
//! and any other path names a file under `public/` to serve if it exists.

use vstd::prelude::*;

verus! {

/// The byte values the request grammar is written over.
pub const B_SPACE: u8 = 32;
pub const B_TAB: u8 = 9;
pub const B_CR: u8 = 13;
pub const B_LF: u8 = 10;
pub const B_SLASH: u8 = 47;
pub const B_BACKSLASH: u8 = 92;
pub const B_DOT: u8 = 46;
pub const B_ONE: u8 = 49;
pub const B_UP_G: u8 = 71;
pub const B_UP_E: u8 = 69;
pub const B_UP_T: u8 = 84;
pub const B_UP_H: u8 = 72;
pub const B_UP_P: u8 = 80;
pub const B_LO_B: u8 = 98;
pub const B_LO_C: u8 = 99;
pub const B_LO_E: u8 = 101;
pub const B_LO_I: u8 = 105;
pub const B_LO_L: u8 = 108;
pub const B_LO_P: u8 = 112;
pub const B_LO_S: u8 = 115;
pub const B_LO_U: u8 = 117;

/// What the caller should serve for one request line.
#[derive(Debug)]
pub enum RequestPlan {
    /// Answer 200 with the site index; the sleep route pauses first.
    ServeIndex { sleep_first: bool },
    /// Serve the named file if it exists, else the not-found page.
    ServeFile { path: Vec<u8> },
    /// Answer 400: not a GET request line, or a path escaping the root.
    BadRequest,
}

/// ASCII whitespace, as trimmed from the ends of the request path.
pub open spec fn is_ws(b: u8) -> bool {
    b == B_SPACE || b == B_TAB || b == B_CR || b == B_LF
}

/// `s` without its leading whitespace.
pub open spec fn trim_front(s: Seq<u8>) -> Seq<u8>
    decreases s.len(),
{
    if s.len() > 0 && is_ws(s[0]) {
        trim_front(s.drop_first())
    } else {
        s
    }
}

/// `s` without its trailing whitespace.
pub open spec fn trim_back(s: Seq<u8>) -> Seq<u8>
    decreases s.len(),
{
    if s.len() > 0 && is_ws(s.last()) {
        trim_back(s.drop_last())
    } else {
        s
    }
}

/// `s` without leading and trailing whitespace.
pub open spec fn trimmed(s: Seq<u8>) -> Seq<u8> {
    trim_back(trim_front(s))
}

/// A line of the shape `GET <anything> HTTP/1.1`: long enough to carry both
/// markers, opening with `GET ` and closing with ` HTTP/1.1`.
pub open spec fn is_get_line(s: Seq<u8>) -> bool {
    &&& s.len() >= 13
    &&& s[0] == B_UP_G && s[1] == B_UP_E && s[2] == B_UP_T && s[3] == B_SPACE
    &&& s[s.len() - 9] == B_SPACE && s[s.len() - 8] == B_UP_H && s[s.len() - 7] == B_UP_T
    &&& s[s.len() - 6] == B_UP_T && s[s.len() - 5] == B_UP_P && s[s.len() - 4] == B_SLASH
    &&& s[s.len() - 3] == B_ONE && s[s.len() - 2] == B_DOT && s[s.len() - 1] == B_ONE
}

/// The bytes between the two markers of a GET line.
pub open spec fn raw_path(s: Seq<u8>) -> Seq<u8> {
    s.subrange(4, s.len() - 9)
}

/// The request path: the bytes between the markers, trimmed.
pub open spec fn req_path(s: Seq<u8>) -> Seq<u8> {
    trimmed(raw_path(s))
}

/// The path without one leading slash, as looked up under the site root.
pub open spec fn sanitized(p: Seq<u8>) -> Seq<u8> {
    if p.len() > 0 && p[0] == B_SLASH {
        p.drop_first()
    } else {
        p
    }
}

/// A path that could escape the site root: a `..` step or a backslash.
pub open spec fn has_traversal(p: Seq<u8>) -> bool {
    ||| exists|i: int| 0 <= i && i + 2 <= p.len() && (#[trigger] p[i]) == B_DOT && p[i + 1] == B_DOT
    ||| exists|i: int| 0 <= i < p.len() && (#[trigger] p[i]) == B_BACKSLASH
}

/// The root request: an empty path or the single slash.
pub open spec fn is_root_path(t: Seq<u8>) -> bool {
    t.len() == 0 || (t.len() == 1 && t[0] == B_SLASH)
}

/// The sleep route, `/sleep`.
pub open spec fn is_sleep_path(t: Seq<u8>) -> bool {
    &&& t.len() == 6
    &&& t[0] == B_SLASH && t[1] == B_LO_S && t[2] == B_LO_L && t[3] == B_LO_E && t[4] == B_LO_E
    &&& t[5] == B_LO_P
}

/// The directory every served file lives under.
pub open spec fn public_prefix() -> Seq<u8> {
    seq![B_LO_P, B_LO_U, B_LO_B, B_LO_L, B_LO_I, B_LO_C, B_SLASH]
}

/// Trimming the front is dropping the whitespace prefix: if everything
/// before `k` is whitespace and `k` is the end or not whitespace, the
/// trimmed sequence starts at `k`.
proof fn lemma_trim_front_skip(s: Seq<u8>, k: int)
    requires
        0 <= k <= s.len(),
        forall|i: int| 0 <= i < k ==> is_ws(#[trigger] s[i]),
        k == s.len() || !is_ws(s[k]),
    ensures
        trim_front(s) == s.skip(k),
    decreases k,
{
    if k == 0 {
        assert(s.skip(0) =~= s);
    } else {
        assert(s.drop_first() =~= s.skip(1));
        lemma_trim_front_skip(s.skip(1), k - 1);
        assert(s.skip(1).skip(k - 1) =~= s.skip(k));
    }
}

/// Trimming the back is dropping the whitespace suffix: if everything from
/// `m` on is whitespace and `m` is the start or preceded by non-whitespace,
/// the trimmed sequence ends at `m`.
proof fn lemma_trim_back_take(s: Seq<u8>, m: int)
    requires
        0 <= m <= s.len(),
        forall|i: int| m <= i < s.len() ==> is_ws(#[trigger] s[i]),
        m == 0 || !is_ws(s[m - 1]),
    ensures
        trim_back(s) == s.take(m),
    decreases s.len(),
{
    if m == s.len() {
        assert(s.take(m) =~= s);
    } else {
        lemma_trim_back_take(s.drop_last(), m);
        assert(s.drop_last().take(m) =~= s.take(m));
    }
}

/// Whether `b` counts as whitespace when trimming the path.
fn ws(b: u8) -> (r: bool)
    ensures
        r == is_ws(b),
{
    b == B_SPACE || b == B_TAB || b == B_CR || b == B_LF
}

/// Decide what to serve for one request line.
///
/// A line that does not carry both GET markers — including one too short to
/// hold them — is a bad request. Otherwise the path between the markers is
/// trimmed; the root and the empty path serve the index, `/sleep` serves the
/// index after a pause, a path with a `..` step or a backslash is rejected,
/// and every other path names the file under `public/` to serve.
#[verifier::rlimit(60)]
pub fn plan_request(line: &Vec<u8>) -> (r: RequestPlan)
    ensures
        !is_get_line(line@) ==> r == RequestPlan::BadRequest,
        is_get_line(line@) && is_root_path(req_path(line@))
            ==> r == (RequestPlan::ServeIndex { sleep_first: false }),
        is_get_line(line@) && is_sleep_path(req_path(line@))
            ==> r == (RequestPlan::ServeIndex { sleep_first: true }),
        is_get_line(line@) && !is_root_path(req_path(line@))
            && !is_sleep_path(req_path(line@))
            && has_traversal(sanitized(req_path(line@)))
            ==> r == RequestPlan::BadRequest,
        is_get_line(line@) && !is_root_path(req_path(line@))
            && !is_sleep_path(req_path(line@))
            && !has_traversal(sanitized(req_path(line@)))
            ==> (r matches RequestPlan::ServeFile { path }
                && path@ == public_prefix() + sanitized(req_path(line@))),
{
    let n = line.len();
    if n < 13 {
        return RequestPlan::BadRequest;
    }
    if !(line[0] == B_UP_G && line[1] == B_UP_E && line[2] == B_UP_T && line[3] == B_SPACE) {
        return RequestPlan::BadRequest;
    }
    if !(line[n - 9] == B_SPACE && line[n - 8] == B_UP_H && line[n - 7] == B_UP_T
        && line[n - 6] == B_UP_T && line[n - 5] == B_UP_P && line[n - 4] == B_SLASH
        && line[n - 3] == B_ONE && line[n - 2] == B_DOT && line[n - 1] == B_ONE)
    {
        return RequestPlan::BadRequest;
    }

    // The raw path sits in line[4 .. n - 9]; trim it to line[lo .. hi).
    let hi_raw: usize = n - 9;
    let mut lo: usize = 4;
    while lo < hi_raw && ws(line[lo])
        invariant
            4 <= lo <= hi_raw <= line@.len(),
            forall|j: int| 4 <= j < lo ==> is_ws(#[trigger] line@[j]),
        decreases hi_raw - lo,
    {
        lo = lo + 1;
    }
    let mut hi: usize = hi_raw;
    while hi > lo && ws(line[hi - 1])
        invariant
            4 <= lo <= hi <= hi_raw <= line@.len(),
            forall|j: int| hi <= j < hi_raw ==> is_ws(#[trigger] line@[j]),
        decreases hi,
    {
        hi = hi - 1;
    }
    proof {
        let raw = raw_path(line@);
        assert(raw =~= line@.subrange(4, hi_raw as int));
        lemma_trim_front_skip(raw, lo - 4);
        assert(raw.skip(lo - 4) =~= line@.subrange(lo as int, hi_raw as int));
        lemma_trim_back_take(line@.subrange(lo as int, hi_raw as int), hi - lo);
        assert(line@.subrange(lo as int, hi_raw as int).take(hi - lo)
            =~= line@.subrange(lo as int, hi as int));
        assert(req_path(line@) == line@.subrange(lo as int, hi as int));
    }

    let tlen = hi - lo;
    if tlen == 0 || (tlen == 1 && line[lo] == B_SLASH) {
        return RequestPlan::ServeIndex { sleep_first: false };
    }
    if tlen == 6 && line[lo] == B_SLASH && line[lo + 1] == B_LO_S && line[lo + 2] == B_LO_L
        && line[lo + 3] == B_LO_E && line[lo + 4] == B_LO_E && line[lo + 5] == B_LO_P
    {
        return RequestPlan::ServeIndex { sleep_first: true };
    }

    // Strip one leading slash; what is left is looked up under the root.
    let slo: usize = if line[lo] == B_SLASH {
        lo + 1
    } else {
        lo
    };
    proof {
        assert(sanitized(req_path(line@)) =~= line@.subrange(slo as int, hi as int));
    }

    // Reject a path that could escape the site root.
    let mut bad = false;
    let mut j: usize = slo;
    while j < hi
        invariant
            slo <= j <= hi <= line@.len(),
            bad <==> (exists|a: int|
                slo <= a && a + 1 < j && (#[trigger] line@[a]) == B_DOT && line@[a + 1] == B_DOT)
                || (exists|a: int| slo <= a < j && (#[trigger] line@[a]) == B_BACKSLASH),
        decreases hi - j,
    {
        if line[j] == B_BACKSLASH {
            bad = true;
        }
        if j > slo && line[j - 1] == B_DOT && line[j] == B_DOT {
            bad = true;
        }
        j = j + 1;
    }
    proof {
        let san = line@.subrange(slo as int, hi as int);
        if bad {
            if exists|a: int|
                slo <= a && a + 1 < hi && (#[trigger] line@[a]) == B_DOT && line@[a + 1] == B_DOT {
                let a = choose|a: int|
                    slo <= a && a + 1 < hi && (#[trigger] line@[a]) == B_DOT
                        && line@[a + 1] == B_DOT;
                assert(san[a - slo] == B_DOT && san[a - slo + 1] == B_DOT);
                assert(has_traversal(san));
            } else {
                let a = choose|a: int| slo <= a < hi && (#[trigger] line@[a]) == B_BACKSLASH;
                assert(san[a - slo] == B_BACKSLASH);
                assert(has_traversal(san));
            }
        } else {
            if has_traversal(san) {
                if exists|i: int|
                    0 <= i && i + 2 <= san.len() && (#[trigger] san[i]) == B_DOT
                        && san[i + 1] == B_DOT {
                    let i = choose|i: int|
                        0 <= i && i + 2 <= san.len() && (#[trigger] san[i]) == B_DOT
                            && san[i + 1] == B_DOT;
                    assert(line@[slo + i] == B_DOT && line@[slo + i + 1] == B_DOT);
                    assert(false);
                } else {
                    let i = choose|i: int| 0 <= i < san.len() && (#[trigger] san[i]) == B_BACKSLASH;
                    assert(line@[slo + i] == B_BACKSLASH);
                    assert(false);
                }
            }
        }
    }
    if bad {
        return RequestPlan::BadRequest;
    }

    // The file to serve: "public/" followed by the sanitized path.
    let mut path: Vec<u8> = Vec::new();
    path.push(B_LO_P);
    path.push(B_LO_U);
    path.push(B_LO_B);
    path.push(B_LO_L);
    path.push(B_LO_I);
    path.push(B_LO_C);
    path.push(B_SLASH);
    proof {
        assert(path@ =~= public_prefix() + line@.subrange(slo as int, slo as int));
    }
    let mut j2: usize = slo;
    while j2 < hi
        invariant
            slo <= j2 <= hi <= line@.len(),
            path@ == public_prefix() + line@.subrange(slo as int, j2 as int),
        decreases hi - j2,
    {
        path.push(line[j2]);
        proof {
            assert(path@ =~= public_prefix() + line@.subrange(slo as int, j2 + 1 as int));
        }
        j2 = j2 + 1;
    }
    RequestPlan::ServeFile { path }
}

/// What the minimal server serves: it knows only the exact root and sleep
/// request lines; everything else is answered with the not-found page.
#[derive(Clone, Copy, PartialEq, Eq, Structural, Debug)]
pub enum BasicPlan {
    /// Answer 200 with the greeting page; the sleep route pauses first.
    ServeHello { sleep_first: bool },
    /// Answer 404 with the not-found page.
    NotFound,
}

/// Exactly `GET / HTTP/1.1`: a GET line whose raw path is the single slash.
pub open spec fn is_exact_root_line(s: Seq<u8>) -> bool {
    is_get_line(s) && s.len() == 14 && s[4] == B_SLASH
}

/// Exactly `GET /sleep HTTP/1.1`: a GET line whose raw path is `/sleep`.
pub open spec fn is_exact_sleep_line(s: Seq<u8>) -> bool {
    &&& is_get_line(s)
    &&& s.len() == 19
    &&& s[4] == B_SLASH && s[5] == B_LO_S && s[6] == B_LO_L && s[7] == B_LO_E && s[8] == B_LO_E
    &&& s[9] == B_LO_P
}

/// Decide what the minimal server serves for one request line: the greeting
/// page for the two lines it knows, the not-found page for everything else.
pub fn plan_request_exact(line: &Vec<u8>) -> (r: BasicPlan)
    ensures
        is_exact_root_line(line@) ==> r == (BasicPlan::ServeHello { sleep_first: false }),
        is_exact_sleep_line(line@) ==> r == (BasicPlan::ServeHello { sleep_first: true }),
        !is_exact_root_line(line@) && !is_exact_sleep_line(line@) ==> r == BasicPlan::NotFound,
{
    let n = line.len();
    if n != 14 && n != 19 {
        return BasicPlan::NotFound;
    }
    if !(line[0] == B_UP_G && line[1] == B_UP_E && line[2] == B_UP_T && line[3] == B_SPACE
        && line[n - 9] == B_SPACE && line[n - 8] == B_UP_H && line[n - 7] == B_UP_T
        && line[n - 6] == B_UP_T && line[n - 5] == B_UP_P && line[n - 4] == B_SLASH
        && line[n - 3] == B_ONE && line[n - 2] == B_DOT && line[n - 1] == B_ONE)
    {
        return BasicPlan::NotFound;
    }
    if n == 14 && line[4] == B_SLASH {
        return BasicPlan::ServeHello { sleep_first: false };
    }
    if n == 19 && line[4] == B_SLASH && line[5] == B_LO_S && line[6] == B_LO_L && line[7] == B_LO_E
        && line[8] == B_LO_E && line[9] == B_LO_P
    {
        return BasicPlan::ServeHello { sleep_first: true };
    }
    BasicPlan::NotFound
}

} // verus!
