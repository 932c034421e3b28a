//! Just enough HTTP to route by path.
//!
//! The server reads a request until the header terminator (an empty line)
//! has been seen, and extracts the request-target: the bytes between the
//! first and the second space of the request line. Nothing else of the
//! protocol is interpreted.

use vstd::prelude::*;

verus! {

/// The four-byte header terminator `\r\n\r\n` starts at position `i` of `s`.
pub open spec fn is_header_end_at(s: Seq<u8>, i: int) -> bool {
    &&& 0 <= i
    &&& i + 4 <= s.len()
    &&& s[i] == 13
    &&& s[i + 1] == 10
    &&& s[i + 2] == 13
    &&& s[i + 3] == 10
}

/// A buffer holds a complete request once the header terminator occurs in it.
pub open spec fn is_complete_request(s: Seq<u8>) -> bool {
    exists|i: int| is_header_end_at(s, i)
}

/// Whether the bytes received so far form a complete request.
pub fn request_complete(buf: &[u8]) -> (r: bool)
    ensures
        r == is_complete_request(buf@),
{
    let n = buf.len();
    if n < 4 {
        assert(forall|j: int| !is_header_end_at(buf@, j));
        return false;
    }
    let mut i: usize = 0;
    while i <= n - 4
        invariant
            4 <= n == buf@.len(),
            i <= n,
            forall|j: int| 0 <= j < i ==> !is_header_end_at(buf@, j),
        decreases n - i,
    {
        if buf[i] == 13 && buf[i + 1] == 10 && buf[i + 2] == 13 && buf[i + 3] == 10 {
            assert(is_header_end_at(buf@, i as int));
            return true;
        }
        i = i + 1;
    }
    assert(forall|j: int| !is_header_end_at(buf@, j));
    false
}

/// Position of the first occurrence of `b` in `s` at or after `i`.
pub open spec fn first_index_from(s: Seq<u8>, b: u8, i: int) -> Option<int>
    decreases s.len() - i,
{
    if i < 0 || i >= s.len() {
        None
    } else if s[i] == b {
        Some(i)
    } else {
        first_index_from(s, b, i + 1)
    }
}

proof fn lemma_first_index_found(s: Seq<u8>, b: u8, from: int, j: int)
    requires
        0 <= from <= j < s.len(),
        s[j] == b,
        forall|k: int| from <= k < j ==> s[k] != b,
    ensures
        first_index_from(s, b, from) == Some(j),
    decreases j - from,
{
    if from < j {
        lemma_first_index_found(s, b, from + 1, j);
    }
}

proof fn lemma_first_index_none(s: Seq<u8>, b: u8, from: int)
    requires
        0 <= from,
        forall|k: int| from <= k < s.len() ==> s[k] != b,
    ensures
        first_index_from(s, b, from) is None,
    decreases s.len() - from,
{
    if from < s.len() {
        lemma_first_index_none(s, b, from + 1);
    }
}

/// First occurrence of `b` in `buf` at or after `from`.
pub fn find_byte(buf: &[u8], b: u8, from: usize) -> (r: Option<usize>)
    ensures
        match r {
            Some(j) => {
                &&& from <= j < buf@.len()
                &&& buf@[j as int] == b
                &&& first_index_from(buf@, b, from as int) == Some(j as int)
            },
            None => first_index_from(buf@, b, from as int) is None,
        },
{
    let mut i: usize = from;
    if i > buf.len() {
        proof {
            lemma_first_index_none(buf@, b, from as int);
        }
        return None;
    }
    while i < buf.len()
        invariant
            from <= i <= buf.len(),
            forall|k: int| from <= k < i ==> buf@[k] != b,
        decreases buf.len() - i,
    {
        if buf[i] == b {
            proof {
                lemma_first_index_found(buf@, b, from as int, i as int);
            }
            return Some(i);
        }
        i = i + 1;
    }
    proof {
        lemma_first_index_none(buf@, b, from as int);
    }
    None
}

/// The request path: the bytes between the first and the second space of the
/// buffer, which in a well-formed request line delimit the request-target.
pub open spec fn spec_path(s: Seq<u8>) -> Option<Seq<u8>> {
    match first_index_from(s, 32, 0) {
        None => None,
        Some(sp1) => match first_index_from(s, 32, sp1 + 1) {
            None => None,
            Some(sp2) => Some(s.subrange(sp1 + 1, sp2)),
        },
    }
}

/// Extracts the request path from a request buffer, or `None` when no
/// request-target can be delimited.
pub fn parse_path(buf: &[u8]) -> (r: Option<Vec<u8>>)
    ensures
        match r {
            Some(p) => spec_path(buf@) == Some(p@),
            None => spec_path(buf@) is None,
        },
{
    let n = buf.len();
    let sp1 = match find_byte(buf, 32, 0) {
        None => {
            return None;
        },
        Some(j) => j,
    };
    // `sp1 < n` keeps `sp1 + 1` inside the index type's range.
    assert(sp1 < n);
    let sp2 = match find_byte(buf, 32, sp1 + 1) {
        None => {
            return None;
        },
        Some(j) => j,
    };
    let mut p: Vec<u8> = Vec::new();
    let mut k: usize = sp1 + 1;
    while k < sp2
        invariant
            sp1 + 1 <= k <= sp2 < buf@.len(),
            p@ =~= buf@.subrange(sp1 + 1, k as int),
        decreases sp2 - k,
    {
        p.push(buf[k]);
        assert(buf@.subrange(sp1 + 1, k + 1) =~= buf@.subrange(sp1 + 1, k as int).push(
            buf@[k as int],
        ));
        k = k + 1;
    }
    Some(p)
}

} // verus!
