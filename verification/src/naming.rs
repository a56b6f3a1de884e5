//! Collision-safe naming for files relocated into the trash directory.
//!
//! The destination name is the original file name; when that name is already
//! taken, a `-<timestamp>-<counter>` suffix is appended, with the counter
//! increased until the name is free, so nothing is ever overwritten.

use vstd::prelude::*;
use crate::bytes_util::{DASH, DIGIT_ZERO, bytes_eq};
use crate::media::views_of;

verus! {

/// The decimal digits of `n`, most significant first, without leading zeros.
pub open spec fn spec_decimal(n: nat) -> Seq<u8>
    decreases n,
{
    if n < 10 {
        seq![(DIGIT_ZERO + n) as u8]
    } else {
        spec_decimal(n / 10).push((DIGIT_ZERO + n % 10) as u8)
    }
}

pub proof fn lemma_decimal_len(n: nat)
    ensures
        spec_decimal(n).len() >= 1,
        n >= 10 ==> spec_decimal(n).len() >= 2,
    decreases n,
{
    if n >= 10 {
        lemma_decimal_len(n / 10);
    }
}

/// Decimal rendering is injective: distinct counters give distinct digit
/// strings.
pub proof fn lemma_decimal_injective(a: nat, b: nat)
    requires
        spec_decimal(a) == spec_decimal(b),
    ensures
        a == b,
    decreases a,
{
    lemma_decimal_len(a);
    lemma_decimal_len(b);
    if a < 10 && b < 10 {
        assert(spec_decimal(a)[0] == (DIGIT_ZERO + a) as u8);
        assert(spec_decimal(b)[0] == (DIGIT_ZERO + b) as u8);
        assert((DIGIT_ZERO + a) as u8 == DIGIT_ZERO + a);
        assert((DIGIT_ZERO + b) as u8 == DIGIT_ZERO + b);
    } else if a >= 10 && b >= 10 {
        assert(spec_decimal(a).last() == (DIGIT_ZERO + a % 10) as u8);
        assert(spec_decimal(b).last() == (DIGIT_ZERO + b % 10) as u8);
        assert((DIGIT_ZERO + a % 10) as u8 == DIGIT_ZERO + a % 10);
        assert((DIGIT_ZERO + b % 10) as u8 == DIGIT_ZERO + b % 10);
        assert(spec_decimal(a).drop_last() =~= spec_decimal(a / 10));
        assert(spec_decimal(b).drop_last() =~= spec_decimal(b / 10));
        lemma_decimal_injective(a / 10, b / 10);
        vstd::arithmetic::div_mod::lemma_fundamental_div_mod(a as int, 10);
        vstd::arithmetic::div_mod::lemma_fundamental_div_mod(b as int, 10);
    } else if a < 10 {
        assert(spec_decimal(b).len() >= 2);
    } else {
        assert(spec_decimal(a).len() >= 2);
    }
}

/// Render a counter as decimal digits.
pub fn decimal_digits(n: u64) -> (r: Vec<u8>)
    ensures
        r@ == spec_decimal(n as nat),
    decreases n,
{
    if n < 10 {
        let mut r: Vec<u8> = Vec::new();
        r.push(DIGIT_ZERO + (n as u8));
        proof {
            assert(r@ =~= spec_decimal(n as nat));
        }
        r
    } else {
        let mut r = decimal_digits(n / 10);
        r.push(DIGIT_ZERO + ((n % 10) as u8));
        r
    }
}

/// The suffixed trash name: `<name>-<timestamp>-<counter>`.
pub open spec fn spec_suffixed(name: Seq<u8>, ts: Seq<u8>, k: nat) -> Seq<u8> {
    name + seq![DASH] + ts + seq![DASH] + spec_decimal(k)
}

/// A suffixed name is strictly longer than the name it was made from, so the
/// two can never collide.
pub proof fn lemma_suffixed_ne_name(name: Seq<u8>, ts: Seq<u8>, k: nat)
    ensures
        spec_suffixed(name, ts, k) != name,
{
    lemma_decimal_len(k);
}

/// For one name and one timestamp, distinct counters give distinct suffixed
/// names.
pub proof fn lemma_suffixed_injective(name: Seq<u8>, ts: Seq<u8>, k1: nat, k2: nat)
    requires
        spec_suffixed(name, ts, k1) == spec_suffixed(name, ts, k2),
    ensures
        k1 == k2,
{
    let p = name.len() + 1 + ts.len() + 1;
    let s1 = spec_suffixed(name, ts, k1);
    let s2 = spec_suffixed(name, ts, k2);
    assert(s1.subrange(p as int, s1.len() as int) =~= spec_decimal(k1));
    assert(s2.subrange(p as int, s2.len() as int) =~= spec_decimal(k2));
    lemma_decimal_injective(k1, k2);
}

/// Build the suffixed trash name as executable data.
pub fn make_suffixed(name: &[u8], ts: &[u8], k: u64) -> (r: Vec<u8>)
    ensures
        r@ == spec_suffixed(name@, ts@, k as nat),
{
    let mut r = vstd::slice::slice_to_vec(name);
    r.push(DASH);
    let mut t = vstd::slice::slice_to_vec(ts);
    r.append(&mut t);
    r.push(DASH);
    let mut d = decimal_digits(k);
    r.append(&mut d);
    proof {
        assert(r@ =~= spec_suffixed(name@, ts@, k as nat));
    }
    r
}

/// Whether `x` is one of the byte strings in `taken`.
pub open spec fn spec_taken(taken: Seq<Seq<u8>>, x: Seq<u8>) -> bool {
    taken.contains(x)
}

fn name_taken(taken: &Vec<Vec<u8>>, x: &[u8]) -> (r: bool)
    ensures
        r == spec_taken(views_of(taken@), x@),
{
    let n = taken.len();
    let mut i: usize = 0;
    while i < n
        invariant
            n == taken@.len(),
            i <= n,
            forall|j: int| 0 <= j < i ==> views_of(taken@)[j] != x@,
        decreases n - i,
    {
        if bytes_eq(taken[i].as_slice(), x) {
            proof {
                assert(views_of(taken@)[i as int] == x@);
            }
            return true;
        }
        i = i + 1;
    }
    proof {
        if views_of(taken@).contains(x@) {
            let j = choose|j: int|
                0 <= j < views_of(taken@).len() && views_of(taken@)[j] == x@;
            assert(views_of(taken@)[j] != x@);
        }
    }
    false
}

/// The chosen trash destination name, characterised exactly: the original
/// name when it is free, else the suffixed name with the smallest counter,
/// counting from 1, that is free.
pub open spec fn spec_chosen_name(name: Seq<u8>, ts: Seq<u8>, taken: Seq<Seq<u8>>, r: Seq<u8>) -> bool {
    if !spec_taken(taken, name) {
        r == name
    } else {
        exists|k: nat|
            1 <= k && r == spec_suffixed(name, ts, k) && !spec_taken(taken, spec_suffixed(name, ts, k))
                && forall|j: nat|
                1 <= j < k ==> spec_taken(taken, #[trigger] spec_suffixed(name, ts, j))
    }
}

/// Among `taken.len() + 1` distinct suffixed names, at least one is free:
/// the pigeonhole behind the termination of the retry loop.
proof fn lemma_some_counter_free(name: Seq<u8>, ts: Seq<u8>, taken: Seq<Seq<u8>>, bound: nat)
    requires
        taken.len() < bound,
    ensures
        exists|k: nat|
            1 <= k <= bound && !spec_taken(taken, #[trigger] spec_suffixed(name, ts, k)),
{
    if forall|j: nat|
        1 <= j <= bound ==> spec_taken(taken, #[trigger] spec_suffixed(name, ts, j)) {
        let cands = Seq::new(bound, |i: int| spec_suffixed(name, ts, (i + 1) as nat));
        assert forall|i: int, j: int| 0 <= i < j < bound implies cands[i] != cands[j] by {
            if cands[i] == cands[j] {
                lemma_suffixed_injective(name, ts, (i + 1) as nat, (j + 1) as nat);
            }
        }
        cands.unique_seq_to_set();
        assert forall|i: int| 0 <= i < bound implies taken.contains(#[trigger] cands[i]) by {
            assert(spec_taken(taken, spec_suffixed(name, ts, (i + 1) as nat)));
        }
        assert(cands.to_set().subset_of(taken.to_set())) by {
            assert forall|x: Seq<u8>| cands.to_set().contains(x) implies taken.to_set().contains(
                x,
            ) by {
                let i = choose|i: int| 0 <= i < cands.len() && cands[i] == x;
                assert(taken.contains(cands[i]));
            }
        }
        vstd::set_lib::lemma_len_subset(cands.to_set(), taken.to_set());
        taken.lemma_cardinality_of_set();
        assert(cands.to_set().len() == bound);
        assert(taken.to_set().len() <= taken.len());
    }
}

/// Choose a destination name for a file relocated into the trash: the
/// original name when free, else the first free suffixed name.  The chosen
/// name never collides with an existing entry, so no file in the trash is
/// ever overwritten.
pub fn choose_trash_name(name: &[u8], ts: &[u8], taken: &Vec<Vec<u8>>) -> (r: Vec<u8>)
    requires
        taken@.len() < u64::MAX - 1,
    ensures
        !spec_taken(views_of(taken@), r@),
        spec_chosen_name(name@, ts@, views_of(taken@), r@),
{
    let ghost tk = views_of(taken@);
    if !name_taken(taken, name) {
        return vstd::slice::slice_to_vec(name);
    }
    let bound: u64 = taken.len() as u64 + 1;
    let mut k: u64 = 1;
    loop
        invariant
            tk == views_of(taken@),
            tk.len() == taken@.len(),
            taken@.len() < u64::MAX - 1,
            bound == taken@.len() + 1,
            spec_taken(tk, name@),
            1 <= k <= bound + 1,
            forall|j: nat| 1 <= j < k ==> spec_taken(tk, #[trigger] spec_suffixed(name@, ts@, j)),
        decreases bound + 1 - k,
    {
        proof {
            if k > bound {
                lemma_some_counter_free(name@, ts@, tk, bound as nat);
            }
        }
        let cand = make_suffixed(name, ts, k);
        if !name_taken(taken, cand.as_slice()) {
            proof {
                // witness for the least-counter characterisation
                let kk = k as nat;
                assert(1 <= kk && cand@ == spec_suffixed(name@, ts@, kk) && !spec_taken(
                    tk,
                    spec_suffixed(name@, ts@, kk),
                ) && forall|j: nat|
                    1 <= j < kk ==> spec_taken(tk, #[trigger] spec_suffixed(name@, ts@, j)));
                assert(spec_chosen_name(name@, ts@, tk, cand@));
            }
            return cand;
        }
        k = k + 1;
    }
}

/// Relies on `chrono::Local::now` and `chrono::DateTime::format` with the
/// compact `%Y%m%d%H%M%S` pattern: a timestamp token for suffixed trash
/// names.  Its value depends on the clock, so nothing is stated of it.
#[verifier::external_body]
fn local_timestamp_compact() -> (r: Vec<u8>) {
    chrono::Local::now().format("%Y%m%d%H%M%S").to_string().into_bytes()
}

/// Choose a trash destination name, using the current local time as the
/// timestamp token of the collision suffix.  Whatever the clock returned,
/// the chosen name avoids every existing entry.
pub fn choose_trash_name_now(name: &[u8], taken: &Vec<Vec<u8>>) -> (r: Vec<u8>)
    requires
        taken@.len() < u64::MAX - 1,
    ensures
        !spec_taken(views_of(taken@), r@),
        exists|ts: Seq<u8>| spec_chosen_name(name@, ts, views_of(taken@), r@),
{
    let ts = local_timestamp_compact();
    let r = choose_trash_name(name, ts.as_slice(), taken);
    proof {
        assert(spec_chosen_name(name@, ts@, views_of(taken@), r@));
    }
    r
}

} // verus!
