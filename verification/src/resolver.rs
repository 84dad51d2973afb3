use vstd::prelude::*;
use vstd::utf8::{valid_utf8, decode_utf8};
use crate::entities::{DefaultConfig, LateremError};

verus! {

/// Byte value of `'\n'`.
pub const NL: u8 = 10;

/// Byte value of `':'`.
pub const COLON: u8 = 58;

/// Byte value of `' '`.
pub const SPACE: u8 = 32;

/// The byte pattern that marks the remote listing's default-branch line.
pub open spec fn head_marker() -> Seq<u8> {
    seq![72u8, 69u8, 65u8, 68u8, 32u8, 98u8, 114u8, 97u8, 110u8, 99u8, 104u8]
}

/// `pat` occurs in `s` starting at index `i`.
pub open spec fn matches_at(s: Seq<u8>, pat: Seq<u8>, i: int) -> bool {
    0 <= i && i + pat.len() <= s.len() && s.subrange(i, i + pat.len()) == pat
}

/// `pat` occurs somewhere in `s`.
pub open spec fn contains_pattern(s: Seq<u8>, pat: Seq<u8>) -> bool {
    exists|i: int| matches_at(s, pat, i)
}

/// Index of the first newline at or after `i`, or `s.len()` when the rest of
/// `s` holds none.
pub open spec fn first_nl_from(s: Seq<u8>, i: int) -> int
    decreases s.len() - i,
{
    if i >= s.len() {
        s.len() as int
    } else if s[i] == NL {
        i
    } else {
        first_nl_from(s, i + 1)
    }
}

/// The first newline found from `i` lies between `i` and the end, nothing
/// before it is a newline, and it is one itself unless the rest holds none.
proof fn lemma_first_nl_from_bounds(s: Seq<u8>, i: int)
    requires
        0 <= i <= s.len(),
    ensures
        i <= first_nl_from(s, i) <= s.len(),
        forall|k: int| i <= k < first_nl_from(s, i) ==> s[k] != NL,
        first_nl_from(s, i) < s.len() ==> s[first_nl_from(s, i)] == NL,
    decreases s.len() - i,
{
    if i < s.len() && s[i] != NL {
        lemma_first_nl_from_bounds(s, i + 1);
    }
}

/// The suffix of `line` after the last occurrence of the label separator at
/// or before index `i`; the whole line when no occurrence remains.
pub open spec fn after_sep_from(line: Seq<u8>, i: int) -> Seq<u8>
    decreases i + 1,
{
    if i < 0 {
        line
    } else if i + 2 <= line.len() && line[i] == COLON && line[i + 1] == SPACE {
        line.subrange(i + 2, line.len() as int)
    } else {
        after_sep_from(line, i - 1)
    }
}

/// The branch name a listing line yields: what follows its last `": "`.
pub open spec fn branch_of_line(line: Seq<u8>) -> Seq<u8> {
    after_sep_from(line, line.len() - 2)
}

/// The default branch the whole listing yields, scanning lines from `i`: the
/// first line that holds the head marker is stripped to its value; a listing
/// without such a line yields the empty name.
pub open spec fn extract_from(s: Seq<u8>, i: int) -> Seq<u8>
    decreases s.len() - i,
    via extract_from_dec
{
    if i >= s.len() || i < 0 {
        Seq::empty()
    } else {
        let e = first_nl_from(s, i);
        let line = s.subrange(i, e);
        if contains_pattern(line, head_marker()) {
            branch_of_line(line)
        } else if e >= s.len() {
            Seq::empty()
        } else {
            extract_from(s, e + 1)
        }
    }
}

#[via_fn]
proof fn extract_from_dec(s: Seq<u8>, i: int) {
    if 0 <= i < s.len() {
        lemma_first_nl_from_bounds(s, i);
    }
}

/// The default branch carried by a captured remote listing.
pub open spec fn spec_head_branch(s: Seq<u8>) -> Seq<u8> {
    extract_from(s, 0)
}

/// `s` with every newline byte removed.
pub open spec fn strip_nl(s: Seq<u8>) -> Seq<u8>
    decreases s.len(),
{
    if s.len() == 0 {
        Seq::empty()
    } else if s[0] == NL {
        strip_nl(s.skip(1))
    } else {
        seq![s[0]] + strip_nl(s.skip(1))
    }
}

/// Copies `v[start..end]` into a fresh vector.
fn copy_range(v: &Vec<u8>, start: usize, end: usize) -> (r: Vec<u8>)
    requires
        start <= end <= v.len(),
    ensures
        r@ == v@.subrange(start as int, end as int),
{
    let mut r: Vec<u8> = Vec::new();
    let mut j: usize = start;
    while j < end
        invariant
            start <= j <= end <= v.len(),
            r@ == v@.subrange(start as int, j as int),
        decreases end - j,
    {
        r.push(v[j]);
        proof {
            assert(v@.subrange(start as int, j as int + 1) =~= v@.subrange(
                start as int,
                j as int,
            ).push(v@[j as int]));
        }
        j += 1;
    }
    r
}

/// Index of the first newline in `v` at or after `from`, or `v.len()`.
fn find_nl(v: &Vec<u8>, from: usize) -> (e: usize)
    requires
        from <= v.len(),
    ensures
        e as int == first_nl_from(v@, from as int),
        from <= e <= v.len(),
{
    let mut j: usize = from;
    while j < v.len() && v[j] != NL
        invariant
            from <= j <= v.len(),
            first_nl_from(v@, j as int) == first_nl_from(v@, from as int),
        decreases v.len() - j,
    {
        assert(first_nl_from(v@, j as int) == first_nl_from(v@, j as int + 1));
        j += 1;
    }
    proof {
        assert(first_nl_from(v@, j as int) == j);
        lemma_first_nl_from_bounds(v@, from as int);
    }
    j
}

/// The head-marker pattern as a runtime vector.
fn head_marker_bytes() -> (m: Vec<u8>)
    ensures
        m@ == head_marker(),
{
    let mut m: Vec<u8> = Vec::new();
    m.push(72);
    m.push(69);
    m.push(65);
    m.push(68);
    m.push(32);
    m.push(98);
    m.push(114);
    m.push(97);
    m.push(110);
    m.push(99);
    m.push(104);
    proof {
        assert(m@ =~= head_marker());
    }
    m
}

/// Whether `pat` occurs anywhere in `v`.
fn contains_bytes(v: &Vec<u8>, pat: &Vec<u8>) -> (b: bool)
    ensures
        b == contains_pattern(v@, pat@),
{
    if pat.len() > v.len() {
        proof {
            assert(forall|t: int| !matches_at(v@, pat@, t));
        }
        return false;
    }
    let lim: usize = v.len() - pat.len();
    let mut i: usize = 0;
    while i <= lim
        invariant
            pat.len() <= v.len(),
            lim == v.len() - pat.len(),
            i <= lim + 1,
            forall|t: int| 0 <= t < i ==> !matches_at(v@, pat@, t),
        decreases lim + 1 - i,
    {
        let mut j: usize = 0;
        while j < pat.len() && v[i + j] == pat[j]
            invariant
                i + pat.len() <= v.len(),
                j <= pat.len(),
                forall|t: int| 0 <= t < j ==> v@[i as int + t] == pat@[t],
            decreases pat.len() - j,
        {
            j += 1;
        }
        if j == pat.len() {
            proof {
                assert(v@.subrange(i as int, i as int + pat@.len() as int) =~= pat@);
                assert(matches_at(v@, pat@, i as int));
            }
            return true;
        }
        proof {
            assert(!matches_at(v@, pat@, i as int)) by {
                if matches_at(v@, pat@, i as int) {
                    assert(v@.subrange(i as int, i as int + pat@.len() as int)[j as int]
                        == pat@[j as int]);
                }
            }
        }
        i += 1;
    }
    proof {
        assert(forall|t: int| i <= t ==> !matches_at(v@, pat@, t));
    }
    false
}

/// The suffix of `line` after the last label separator at or before spec
/// index `p - 1`, scanning downward.
fn after_sep_scan(line: &Vec<u8>, p: usize) -> (r: Vec<u8>)
    requires
        p + 1 <= line.len(),
    ensures
        r@ == after_sep_from(line@, p as int - 1),
    decreases p,
{
    if p == 0 {
        return copy_range(line, 0, line.len());
    }
    let i: usize = p - 1;
    if line[i] == COLON && line[i + 1] == SPACE {
        copy_range(line, i + 2, line.len())
    } else {
        after_sep_scan(line, p - 1)
    }
}

/// The branch name a listing line yields, as a runtime vector.
fn branch_of_line_bytes(line: &Vec<u8>) -> (r: Vec<u8>)
    ensures
        r@ == branch_of_line(line@),
{
    if line.len() < 2 {
        proof {
            assert(line@.subrange(0, line@.len() as int) =~= line@);
        }
        copy_range(line, 0, line.len())
    } else {
        after_sep_scan(line, line.len() - 1)
    }
}

/// The default branch carried by a captured remote listing: the value of the
/// first line that holds the head marker, or the empty name.
pub fn extract_head_branch(v: &Vec<u8>) -> (r: Vec<u8>)
    ensures
        r@ == spec_head_branch(v@),
{
    let marker = head_marker_bytes();
    let mut i: usize = 0;
    while i < v.len()
        invariant
            i <= v.len(),
            marker@ == head_marker(),
            extract_from(v@, i as int) == spec_head_branch(v@),
        decreases v.len() - i,
    {
        let e = find_nl(v, i);
        let line = copy_range(v, i, e);
        proof {
            assert(line@ == v@.subrange(i as int, first_nl_from(v@, i as int)));
        }
        if contains_bytes(&line, &marker) {
            proof {
                reveal_with_fuel(extract_from, 2);
                assert(extract_from(v@, i as int) == branch_of_line(line@));
            }
            return branch_of_line_bytes(&line);
        }
        if e == v.len() {
            proof {
                reveal_with_fuel(extract_from, 2);
                assert(extract_from(v@, i as int) == Seq::<u8>::empty());
            }
            return Vec::new();
        }
        proof {
            reveal_with_fuel(extract_from, 2);
            assert(extract_from(v@, i as int) == extract_from(v@, e as int + 1));
        }
        i = e + 1;
    }
    Vec::new()
}

/// `v` with every newline byte removed, as a runtime vector.
pub fn strip_newlines(v: &Vec<u8>) -> (r: Vec<u8>)
    ensures
        r@ == strip_nl(v@),
{
    let mut r: Vec<u8> = Vec::new();
    let mut i: usize = 0;
    proof {
        assert(v@.skip(0) =~= v@);
        assert(Seq::<u8>::empty() + strip_nl(v@) =~= strip_nl(v@));
    }
    while i < v.len()
        invariant
            i <= v.len(),
            strip_nl(v@) == r@ + strip_nl(v@.skip(i as int)),
        decreases v.len() - i,
    {
        proof {
            assert(v@.skip(i as int)[0] == v@[i as int]);
            assert(v@.skip(i as int).skip(1) =~= v@.skip(i as int + 1));
        }
        let ghost prev = r@;
        if v[i] != NL {
            r.push(v[i]);
            proof {
                assert(prev + (seq![v@[i as int]] + strip_nl(v@.skip(i as int + 1)))
                    =~= r@ + strip_nl(v@.skip(i as int + 1)));
            }
        }
        i += 1;
    }
    proof {
        assert(v@.skip(v.len() as int) =~= Seq::<u8>::empty());
        assert(r@ + Seq::<u8>::empty() =~= r@);
    }
    r
}

/// Relies on `String::from_utf8`: it succeeds exactly on valid UTF-8 input
/// and returns the decoded text of the bytes it was given.
#[verifier::external_body]
fn bytes_to_string(bytes: Vec<u8>) -> (r: Option<String>)
    ensures
        r is Some <==> valid_utf8(bytes@),
        r is Some ==> r.unwrap()@ == decode_utf8(bytes@),
{
    match String::from_utf8(bytes) {
        Ok(s) => Some(s),
        Err(_) => None,
    }
}

impl DefaultConfig {
    /// Fills the conventions record from the outcome of the remote listing:
    /// a listing that could not be captured aborts with its own error, one
    /// whose branch value is not valid text aborts the run as undecodable,
    /// and any other listing yields its head-marker value as the default
    /// branch with both policy flags set.
    pub fn resolve(listing: Result<Vec<u8>, LateremError>) -> (r: Result<
        DefaultConfig,
        LateremError,
    >)
        ensures
            match listing {
                Err(e) => r matches Err(e2) && e2 == e,
                Ok(bytes) => {
                    if valid_utf8(spec_head_branch(bytes@)) {
                        r matches Ok(d) && d.branch@ == decode_utf8(spec_head_branch(bytes@))
                            && d.stash_files && d.detach_container
                    } else {
                        r matches Err(e2) && e2 is OutputDecodeFailure
                    }
                },
            },
    {
        match listing {
            Err(e) => Err(e),
            Ok(bytes) => {
                let branch_bytes = extract_head_branch(&bytes);
                match bytes_to_string(branch_bytes) {
                    Some(branch) => Ok(DefaultConfig::from_branch(branch)),
                    None => Err(LateremError::OutputDecodeFailure),
                }
            },
        }
    }
}

/// The current-branch name carried by the captured branch query: the output
/// with newlines removed, decoded as text.
pub fn current_branch_from(output: Result<Vec<u8>, LateremError>) -> (r: Result<
    String,
    LateremError,
>)
    ensures
        match output {
            Err(e) => r matches Err(e2) && e2 == e,
            Ok(bytes) => {
                if valid_utf8(strip_nl(bytes@)) {
                    r matches Ok(s) && s@ == decode_utf8(strip_nl(bytes@))
                } else {
                    r matches Err(e2) && e2 is OutputDecodeFailure
                }
            },
        },
{
    match output {
        Err(e) => Err(e),
        Ok(bytes) => {
            let stripped = strip_newlines(&bytes);
            match bytes_to_string(stripped) {
                Some(branch) => Ok(branch),
                None => Err(LateremError::OutputDecodeFailure),
            }
        },
    }
}

/// Resolving the default branch twice against an unchanged remote yields the
/// same name: the discovered branch is a function of the captured listing
/// alone.
pub proof fn lemma_resolver_idempotent(first: Seq<u8>, second: Seq<u8>)
    requires
        first == second,
    ensures
        spec_head_branch(first) == spec_head_branch(second),
{
}

} // verus!
