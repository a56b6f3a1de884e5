//! Byte-sequence utilities: ASCII case folding, equality, substring search,
//! and path-component extraction over plain byte strings.

use vstd::prelude::*;

verus! {

// ASCII codes used throughout the library.
pub const UPPER_A: u8 = 65;
pub const UPPER_Z: u8 = 90;
pub const DASH: u8 = 45;
pub const DOT: u8 = 46;
pub const SLASH: u8 = 47;
pub const DIGIT_ZERO: u8 = 48;

/// An ASCII upper-case letter mapped to lower case; any other byte unchanged.
pub open spec fn spec_lower_byte(b: u8) -> u8 {
    if UPPER_A <= b && b <= UPPER_Z {
        (b + 32) as u8
    } else {
        b
    }
}

/// A byte string with every ASCII upper-case letter mapped to lower case.
pub open spec fn spec_lower(s: Seq<u8>) -> Seq<u8> {
    s.map_values(|b: u8| spec_lower_byte(b))
}

pub fn lower_byte(b: u8) -> (r: u8)
    ensures
        r == spec_lower_byte(b),
{
    if UPPER_A <= b && b <= UPPER_Z {
        b + 32
    } else {
        b
    }
}

pub fn to_lower(s: &[u8]) -> (r: Vec<u8>)
    ensures
        r@ == spec_lower(s@),
{
    let mut r: Vec<u8> = Vec::new();
    let n = s.len();
    let mut i: usize = 0;
    while i < n
        invariant
            n == s@.len(),
            i <= n,
            r@ == spec_lower(s@.take(i as int)),
        decreases n - i,
    {
        r.push(lower_byte(s[i]));
        proof {
            assert(s@.take(i + 1).map_values(|b: u8| spec_lower_byte(b)) =~= s@.take(
                i as int,
            ).map_values(|b: u8| spec_lower_byte(b)).push(spec_lower_byte(s@[i as int])));
        }
        i = i + 1;
    }
    proof {
        assert(s@.take(n as int) =~= s@);
    }
    r
}

/// Whether two byte strings hold the same bytes.
pub fn bytes_eq(a: &[u8], b: &[u8]) -> (r: bool)
    ensures
        r == (a@ == b@),
{
    if a.len() != b.len() {
        return false;
    }
    let n = a.len();
    let mut i: usize = 0;
    while i < n
        invariant
            n == a@.len() == b@.len(),
            i <= n,
            forall|j: int| 0 <= j < i ==> a@[j] == b@[j],
        decreases n - i,
    {
        if a[i] != b[i] {
            return false;
        }
        i = i + 1;
    }
    proof {
        assert(a@ =~= b@);
    }
    true
}

/// Whether `sub` occurs contiguously somewhere in `hay`.
pub open spec fn spec_contains_sub(hay: Seq<u8>, sub: Seq<u8>) -> bool {
    exists|i: int|
        0 <= i && i + sub.len() <= hay.len() && #[trigger] hay.subrange(i, i + sub.len()) == sub
}

fn matches_at(hay: &[u8], sub: &[u8], at: usize) -> (r: bool)
    requires
        at + sub@.len() <= hay@.len(),
    ensures
        r == (hay@.subrange(at as int, at + sub@.len()) == sub@),
{
    let n = sub.len();
    let h = hay.len();
    let mut j: usize = 0;
    while j < n
        invariant
            n == sub@.len(),
            h == hay@.len(),
            at + n <= h,
            j <= n,
            forall|k: int| 0 <= k < j ==> hay@[at + k] == sub@[k],
        decreases n - j,
    {
        if hay[at + j] != sub[j] {
            proof {
                assert(hay@.subrange(at as int, at + sub@.len())[j as int] == hay@[at + j]);
            }
            return false;
        }
        j = j + 1;
    }
    proof {
        assert(hay@.subrange(at as int, at + sub@.len()) =~= sub@);
    }
    true
}

pub fn contains_sub(hay: &[u8], sub: &[u8]) -> (r: bool)
    ensures
        r == spec_contains_sub(hay@, sub@),
{
    if sub.is_empty() {
        proof {
            assert(hay@.subrange(0, 0 + sub@.len() as int) =~= sub@);
        }
        return true;
    }
    if sub.len() > hay.len() {
        return false;
    }
    let h = hay.len();
    let m = h - sub.len();
    let mut i: usize = 0;
    loop
        invariant
            1 <= sub@.len() <= hay@.len(),
            h == hay@.len(),
            m == hay@.len() - sub@.len(),
            i <= m + 1,
            forall|j: int|
                0 <= j < i ==> #[trigger] hay@.subrange(j, j + sub@.len()) != sub@,
        decreases m + 1 - i,
    {
        if i > m {
            return false;
        }
        if matches_at(hay, sub, i) {
            return true;
        }
        i = i + 1;
    }
}

/// The index of the last occurrence of `c` in `s`, if any.
pub open spec fn spec_rfind(s: Seq<u8>, c: u8) -> Option<int>
    decreases s.len(),
{
    if s.len() == 0 {
        None
    } else if s.last() == c {
        Some(s.len() - 1)
    } else {
        spec_rfind(s.drop_last(), c)
    }
}

pub proof fn lemma_rfind_props(s: Seq<u8>, c: u8)
    ensures
        match spec_rfind(s, c) {
            Some(i) => 0 <= i < s.len() && s[i] == c && forall|j: int|
                i < j < s.len() ==> s[j] != c,
            None => forall|j: int| 0 <= j < s.len() ==> s[j] != c,
        },
    decreases s.len(),
{
    if s.len() > 0 && s.last() != c {
        lemma_rfind_props(s.drop_last(), c);
        match spec_rfind(s.drop_last(), c) {
            Some(i) => {
                assert forall|j: int| i < j < s.len() implies s[j] != c by {
                    if j < s.len() - 1 {
                        assert(s.drop_last()[j] != c);
                    }
                }
            },
            None => {
                assert forall|j: int| 0 <= j < s.len() implies s[j] != c by {
                    if j < s.len() - 1 {
                        assert(s.drop_last()[j] != c);
                    }
                }
            },
        }
    }
}

/// `spec_rfind` is determined by the "last occurrence" characterisation.
pub proof fn lemma_rfind_at(s: Seq<u8>, c: u8, i: int)
    requires
        0 <= i < s.len(),
        s[i] == c,
        forall|j: int| i < j < s.len() ==> s[j] != c,
    ensures
        spec_rfind(s, c) == Some(i),
{
    lemma_rfind_props(s, c);
    match spec_rfind(s, c) {
        Some(k) => {
            if k < i {
                assert(s[i] != c);
            } else if k > i {
                assert(s[k] != c);
            }
        },
        None => {
            assert(s[i] != c);
        },
    }
}

pub fn rfind_byte(s: &[u8], c: u8) -> (r: Option<usize>)
    ensures
        match r {
            Some(i) => spec_rfind(s@, c) == Some(i as int),
            None => spec_rfind(s@, c) is None,
        },
{
    let mut i: usize = s.len();
    while i > 0
        invariant
            i <= s@.len(),
            forall|j: int| i <= j < s@.len() ==> s@[j] != c,
        decreases i,
    {
        i = i - 1;
        if s[i] == c {
            proof {
                lemma_rfind_at(s@, c, i as int);
            }
            return Some(i);
        }
    }
    proof {
        lemma_rfind_props(s@, c);
        if spec_rfind(s@, c) is Some {
            let k = spec_rfind(s@, c)->Some_0;
            assert(s@[k] != c);
        }
    }
    None
}

/// The final path component: everything after the last `/`, or the whole
/// string when it holds no `/`.
pub open spec fn spec_basename(p: Seq<u8>) -> Seq<u8> {
    match spec_rfind(p, SLASH) {
        None => p,
        Some(i) => p.subrange(i + 1, p.len() as int),
    }
}

pub fn basename(p: &[u8]) -> (r: Vec<u8>)
    ensures
        r@ == spec_basename(p@),
{
    match rfind_byte(p, SLASH) {
        None => vstd::slice::slice_to_vec(p),
        Some(i) => {
            proof {
                lemma_rfind_props(p@, SLASH);
            }
            let n = p.len();
            vstd::slice::slice_to_vec(vstd::slice::slice_subrange(p, i + 1, n))
        },
    }
}

/// The extension of a file name: the part after the last dot, unless the name
/// holds no dot or starts with its only relevant dot (a hidden file).
pub open spec fn spec_extension(name: Seq<u8>) -> Option<Seq<u8>> {
    match spec_rfind(name, DOT) {
        None => None,
        Some(d) => if d == 0 {
            None
        } else {
            Some(name.subrange(d + 1, name.len() as int))
        },
    }
}

pub fn extension_of(name: &[u8]) -> (r: Option<Vec<u8>>)
    ensures
        match r {
            Some(e) => spec_extension(name@) == Some(e@),
            None => spec_extension(name@) is None,
        },
{
    match rfind_byte(name, DOT) {
        None => None,
        Some(d) => {
            if d == 0 {
                None
            } else {
                proof {
                    lemma_rfind_props(name@, DOT);
                }
                let n = name.len();
                Some(vstd::slice::slice_to_vec(vstd::slice::slice_subrange(name, d + 1, n)))
            }
        },
    }
}

/// Whether `p` starts with `prefix`.
pub open spec fn spec_starts_with(p: Seq<u8>, prefix: Seq<u8>) -> bool {
    prefix.len() <= p.len() && p.subrange(0, prefix.len() as int) == prefix
}

pub fn starts_with(p: &[u8], prefix: &[u8]) -> (r: bool)
    ensures
        r == spec_starts_with(p@, prefix@),
{
    if prefix.len() > p.len() {
        return false;
    }
    matches_at(p, prefix, 0)
}

} // verus!
