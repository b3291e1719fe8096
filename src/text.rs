//! Byte-wise text comparisons that the mail handling relies on.
use vstd::prelude::*;
use vstd::string::StringSliceAdditionalSpecFns;

verus! {

/// ASCII lower case of a byte; other bytes stay as they are.
pub open spec fn ascii_lower(b: u8) -> u8 {
    if 65 <= b <= 90 {
        (b + 32) as u8
    } else {
        b
    }
}

/// Two byte strings are equal once ASCII letters are lowered.
pub open spec fn ascii_eq_ignore_case(a: Seq<u8>, b: Seq<u8>) -> bool {
    &&& a.len() == b.len()
    &&& forall|i: int| 0 <= i < a.len() ==> ascii_lower(#[trigger] a[i]) == ascii_lower(b[i])
}

/// `p` is a prefix of `s`.
pub open spec fn has_prefix(s: Seq<u8>, p: Seq<u8>) -> bool {
    p.len() <= s.len() && s.subrange(0, p.len() as int) == p
}

fn lower_byte(b: u8) -> (r: u8)
    ensures
        r == ascii_lower(b),
{
    if 65 <= b && b <= 90 {
        b + 32
    } else {
        b
    }
}

/// Whether `a` and `b` are equal without regard to ASCII case, compared
/// byte by byte.
pub fn eq_ignore_ascii_case(a: &str, b: &str) -> (r: bool)
    ensures
        r == ascii_eq_ignore_case(a.spec_bytes(), b.spec_bytes()),
{
    let x = a.as_bytes();
    let y = b.as_bytes();
    if x.len() != y.len() {
        return false;
    }
    let mut i: usize = 0;
    while i < x.len()
        invariant
            x.len() == y.len(),
            x@ == a.spec_bytes(),
            y@ == b.spec_bytes(),
            i <= x.len(),
            forall|k: int| 0 <= k < i ==> ascii_lower(#[trigger] x@[k]) == ascii_lower(y@[k]),
        decreases x.len() - i,
    {
        if lower_byte(x[i]) != lower_byte(y[i]) {
            return false;
        }
        i = i + 1;
    }
    true
}

/// Whether the bytes of `s` begin with those of `prefix`.
pub fn starts_with(s: &str, prefix: &str) -> (r: bool)
    ensures
        r == has_prefix(s.spec_bytes(), prefix.spec_bytes()),
{
    let x = s.as_bytes();
    let p = prefix.as_bytes();
    if p.len() > x.len() {
        return false;
    }
    let mut i: usize = 0;
    while i < p.len()
        invariant
            p.len() <= x.len(),
            x@ == s.spec_bytes(),
            p@ == prefix.spec_bytes(),
            i <= p.len(),
            forall|k: int| 0 <= k < i ==> #[trigger] x@[k] == p@[k],
        decreases p.len() - i,
    {
        if x[i] != p[i] {
            assert(x@.subrange(0, p@.len() as int)[i as int] != p@[i as int]);
            return false;
        }
        i = i + 1;
    }
    assert(x@.subrange(0, p@.len() as int) =~= p@);
    true
}

/// Unicode lower case of a text.
pub uninterp spec fn lower_of(s: Seq<char>) -> Seq<char>;

/// Relies on `str::to_lowercase`: the lower case of each character, which
/// depends on the text alone.
#[verifier::external_body]
pub(crate) fn lowercase(s: &str) -> (r: String)
    ensures
        r@ == lower_of(s@),
{
    s.to_lowercase()
}

/// `p` occurs in `s` as a contiguous run.
pub open spec fn has_infix(s: Seq<u8>, p: Seq<u8>) -> bool {
    exists|i: int| 0 <= i && i + p.len() <= s.len() && #[trigger] s.subrange(i, i + p.len()) == p
}

fn matches_at(x: &[u8], p: &[u8], i: usize) -> (r: bool)
    requires
        i + p@.len() <= x@.len(),
        x@.len() <= usize::MAX,
    ensures
        r == (x@.subrange(i as int, i + p@.len()) == p@),
{
    let mut k: usize = 0;
    while k < p.len()
        invariant
            i + p@.len() <= x@.len(),
            x@.len() <= usize::MAX,
            k <= p@.len(),
            forall|j: int| 0 <= j < k ==> #[trigger] x@[i + j] == p@[j],
        decreases p@.len() - k,
    {
        if x[i + k] != p[k] {
            assert(x@.subrange(i as int, i + p@.len())[k as int] != p@[k as int]);
            return false;
        }
        k = k + 1;
    }
    assert forall|j: int| 0 <= j < p@.len() implies #[trigger] x@.subrange(
        i as int,
        i + p@.len(),
    )[j] == p@[j] by {
        assert(x@[i + j] == p@[j]);
    }
    assert(x@.subrange(i as int, i + p@.len()) =~= p@);
    true
}

/// Whether the bytes of `pattern` occur in those of `s`.
pub fn contains(s: &str, pattern: &str) -> (r: bool)
    ensures
        r == has_infix(s.spec_bytes(), pattern.spec_bytes()),
{
    let x = s.as_bytes();
    let p = pattern.as_bytes();
    if p.len() > x.len() {
        return false;
    }
    let last: usize = x.len() - p.len();
    let mut i: usize = 0;
    loop
        invariant
            x@ == s.spec_bytes(),
            p@ == pattern.spec_bytes(),
            x@.len() <= usize::MAX,
            last == x@.len() - p@.len(),
            i <= last,
            forall|k: int| 0 <= k < i ==> #[trigger] x@.subrange(k, k + p@.len()) != p@,
        ensures
            forall|k: int| 0 <= k <= last ==> #[trigger] x@.subrange(k, k + p@.len()) != p@,
        decreases last - i,
    {
        if matches_at(x, p, i) {
            return true;
        }
        if i == last {
            break;
        }
        i = i + 1;
    }
    assert forall|k: int| 0 <= k && k + p@.len() <= x@.len() implies #[trigger] x@.subrange(
        k,
        k + p@.len(),
    ) != p@ by {
        assert(k <= last);
    }
    false
}

} // verus!
