//! Generic "split and pick a field" helpers over delimiter-separated text.
//!
//! The absence of an expected field means that upstream tool output has
//! changed shape; no safe assumption can be made about the rest of the
//! text, so such a miss is reported as a distinct fatal error value that
//! callers let propagate instead of recovering from it.

use vstd::prelude::*;
use vstd::string::*;

verus! {

/// A structural parse failure: an expected field or line is absent from
/// tool output that later drives partition operations. Non-recoverable by
/// design; the caller at the top of the stack terminates the run.
#[derive(Clone, Copy, PartialEq, Eq, Structural, Debug)]
pub struct FatalParseError;

/// The fields of `s`, split on every occurrence of the delimiter `d`.
/// Splitting empty text yields one empty field, and a delimiter at either
/// end yields an empty field there, exactly as `str::split` does.
pub open spec fn fields_of(s: Seq<char>, d: char) -> Seq<Seq<char>>
    decreases s.len(),
{
    if s.len() == 0 {
        seq![Seq::<char>::empty()]
    } else if s[0] == d {
        seq![Seq::<char>::empty()] + fields_of(s.skip(1), d)
    } else {
        let rest = fields_of(s.skip(1), d);
        seq![seq![s[0]] + rest[0]] + rest.skip(1)
    }
}

/// Splitting always yields at least one field.
pub proof fn lemma_fields_of_nonempty(s: Seq<char>, d: char)
    ensures
        fields_of(s, d).len() >= 1,
    decreases s.len(),
{
    if s.len() == 0 {
    } else if s[0] == d {
    } else {
        lemma_fields_of_nonempty(s.skip(1), d);
    }
}

/// Text free of the delimiter is a single field: itself.
pub proof fn lemma_fields_of_no_delim(s: Seq<char>, d: char)
    requires
        forall|k: int| 0 <= k < s.len() ==> s[k] != d,
    ensures
        fields_of(s, d) == seq![s],
    decreases s.len(),
{
    if s.len() == 0 {
        assert(s =~= Seq::<char>::empty());
        assert(fields_of(s, d) =~~= seq![s]);
    } else {
        lemma_fields_of_no_delim(s.skip(1), d);
        lemma_fields_of_nonempty(s.skip(1), d);
        assert(seq![s[0]] + s.skip(1) =~= s);
        assert(fields_of(s, d) =~~= seq![s]);
    }
}

/// If the first occurrence of the delimiter is at position `j`, the first
/// field is everything before `j` and the rest of the fields are the
/// fields of everything after `j`.
pub proof fn lemma_fields_of_split_at(s: Seq<char>, d: char, j: int)
    requires
        0 <= j < s.len(),
        s[j] == d,
        forall|k: int| 0 <= k < j ==> s[k] != d,
    ensures
        fields_of(s, d) == seq![s.take(j)] + fields_of(s.skip(j + 1), d),
    decreases j,
{
    if j == 0 {
        assert(s.take(0) =~= Seq::<char>::empty());
        assert(fields_of(s, d) =~~= seq![s.take(0)] + fields_of(s.skip(1), d));
    } else {
        lemma_fields_of_split_at(s.skip(1), d, j - 1);
        lemma_fields_of_nonempty(s.skip(1).skip(j), d);
        assert(s.skip(1).skip(j) =~= s.skip(j + 1));
        assert(seq![s[0]] + s.skip(1).take(j - 1) =~= s.take(j));
        assert(fields_of(s, d) =~~= seq![s.take(j)] + fields_of(s.skip(j + 1), d));
    }
}

/// An ASCII whitespace character as it appears at the end of tool output.
pub open spec fn is_ascii_space(c: char) -> bool {
    c == ' ' || c == '\t' || c == '\r' || c == '\n'
}

/// `s` with every trailing ASCII whitespace character removed.
pub open spec fn trimmed_end(s: Seq<char>) -> Seq<char>
    decreases s.len(),
{
    if s.len() > 0 && is_ascii_space(s.last()) {
        trimmed_end(s.drop_last())
    } else {
        s
    }
}

/// Remove every trailing ASCII whitespace character of `s`.
pub fn trim_end(s: &str) -> (r: String)
    ensures
        r@ == trimmed_end(s@),
{
    let n: usize = s.unicode_len();
    let mut end: usize = n;
    proof {
        assert(s@.take(n as int) =~= s@);
    }
    loop
        invariant
            end <= n,
            n == s@.len(),
            trimmed_end(s@) == trimmed_end(s@.take(end as int)),
        decreases end,
    {
        if end == 0 {
            let r = s.substring_char(0, 0);
            proof {
                assert(r@ =~= s@.take(0));
            }
            return r.to_owned();
        }
        let c = s.get_char(end - 1);
        if c == ' ' || c == '\t' || c == '\r' || c == '\n' {
            proof {
                assert(s@.take(end as int).last() == c);
                assert(s@.take(end as int).drop_last() =~= s@.take(end - 1));
            }
            end = end - 1;
        } else {
            let r = s.substring_char(0, end);
            proof {
                assert(s@.take(end as int).last() == c);
                assert(r@ =~= s@.take(end as int));
            }
            return r.to_owned();
        }
    }
}

/// Whether `p` is a prefix of `s`.
pub open spec fn has_prefix(s: Seq<char>, p: Seq<char>) -> bool {
    p.len() <= s.len() && (forall|k: int| 0 <= k < p.len() ==> s[k] == p[k])
}

/// Decide whether `p` is a prefix of `s`.
pub fn str_has_prefix(s: &str, p: &str) -> (r: bool)
    ensures
        r == has_prefix(s@, p@),
{
    let pn: usize = p.unicode_len();
    let sn: usize = s.unicode_len();
    if pn > sn {
        return false;
    }
    let mut k: usize = 0;
    while k < pn
        invariant
            k <= pn,
            pn == p@.len(),
            sn == s@.len(),
            pn <= sn,
            forall|j: int| 0 <= j < k ==> s@[j] == p@[j],
        decreases pn - k,
    {
        if s.get_char(k) != p.get_char(k) {
            return false;
        }
        k = k + 1;
    }
    true
}

/// Decide whether two pieces of text hold the same characters.
pub fn str_eq(a: &str, b: &str) -> (r: bool)
    ensures
        r == (a@ == b@),
{
    let an: usize = a.unicode_len();
    let bn: usize = b.unicode_len();
    if an != bn {
        return false;
    }
    let mut k: usize = 0;
    while k < an
        invariant
            k <= an,
            an == a@.len(),
            bn == b@.len(),
            an == bn,
            forall|j: int| 0 <= j < k ==> a@[j] == b@[j],
        decreases an - k,
    {
        if a.get_char(k) != b.get_char(k) {
            return false;
        }
        k = k + 1;
    }
    proof {
        assert(a@ =~= b@);
    }
    true
}

/// Position of the first occurrence of `d` in `s`, if any.
pub(crate) fn find_first_delim(s: &str, d: char) -> (r: Option<usize>)
    ensures
        match r {
            Some(j) => j < s@.len() && s@[j as int] == d && (forall|k: int|
                0 <= k < j ==> s@[k] != d),
            None => forall|k: int| 0 <= k < s@.len() ==> s@[k] != d,
        },
{
    let n: usize = s.unicode_len();
    let mut i: usize = 0;
    while i < n
        invariant
            i <= n,
            n == s@.len(),
            forall|k: int| 0 <= k < i ==> s@[k] != d,
        decreases n - i,
    {
        if s.get_char(i) == d {
            return Some(i);
        }
        i = i + 1;
    }
    None
}

/// Split `source` on every occurrence of `delimiter` and return the field
/// at the zero-based index `field`. An index past the last field means the
/// text no longer has the shape the caller relies on: the call fails with
/// `FatalParseError`, which callers propagate rather than absorb.
pub fn cut(source: &str, delimiter: char, field: usize) -> (r: Result<
    String,
    FatalParseError,
>)
    ensures
        field < fields_of(source@, delimiter).len() ==> (r matches Ok(f) && f@ == fields_of(
            source@,
            delimiter,
        )[field as int]),
        field >= fields_of(source@, delimiter).len() ==> r is Err,
{
    let mut s: &str = source;
    let mut i: usize = field;
    proof {
        lemma_fields_of_nonempty(source@, delimiter);
    }
    loop
        invariant
            i <= field,
            fields_of(s@, delimiter).len() >= 1,
            fields_of(source@, delimiter).len() == fields_of(s@, delimiter).len() + (field - i),
            forall|m: int| 0 <= m < fields_of(s@, delimiter).len() ==> fields_of(s@, delimiter)[m]
                == fields_of(source@, delimiter)[m + (field - i)],
        decreases i,
    {
        match find_first_delim(s, delimiter) {
            None => {
                proof {
                    lemma_fields_of_no_delim(s@, delimiter);
                    assert(fields_of(s@, delimiter)[0] == s@);
                }
                if i == 0 {
                    return Ok(s.to_owned());
                } else {
                    return Err(FatalParseError);
                }
            },
            Some(j) => {
                proof {
                    lemma_fields_of_split_at(s@, delimiter, j as int);
                    assert(fields_of(s@, delimiter)[0] == s@.take(j as int));
                }
                if i == 0 {
                    let f = s.substring_char(0, j);
                    return Ok(f.to_owned());
                } else {
                    let n: usize = s.unicode_len();
                    let rest = s.substring_char(j + 1, n);
                    let ghost s_prev = s@;
                    s = rest;
                    i = i - 1;
                    proof {
                        assert(s@ =~= s_prev.skip(j + 1));
                        lemma_fields_of_nonempty(s@, delimiter);
                        assert forall|m: int|
                            0 <= m < fields_of(s@, delimiter).len() implies fields_of(
                            s@,
                            delimiter,
                        )[m] == fields_of(source@, delimiter)[m + (field - i)] by {
                            assert(fields_of(s_prev, delimiter)[m + 1] == fields_of(
                                s@,
                                delimiter,
                            )[m]);
                        }
                    }
                }
            },
        }
    }
}

} // verus!
