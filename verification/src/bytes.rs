//! Byte-level helpers shared by the id-map renderer, the subid-table parser
//! and the mount-table probe: decimal rendering and parsing of `u32` values,
//! and splitting a byte sequence on a separator.
//!
//! The kernel interfaces this crate speaks to (`/proc/<pid>/uid_map`,
//! `/etc/subuid`, `/proc/self/mounts`) are all plain text, so their contents
//! are modelled as byte sequences throughout.
use vstd::prelude::*;

verus! {

use vstd::arithmetic::div_mod::{lemma_fundamental_div_mod, lemma_mod_bound};
use vstd::arithmetic::mul::lemma_mul_inequality;

/// `b` is the code of a decimal digit.
pub open spec fn is_digit(b: u8) -> bool {
    48 <= b <= 57
}

/// Every byte of `s` is a decimal digit.
pub open spec fn all_digits(s: Seq<u8>) -> bool {
    forall|i: int| 0 <= i < s.len() ==> is_digit(#[trigger] s[i])
}

/// The decimal representation of `n`, most significant digit first,
/// without leading zeros (a single `0` for zero).
pub open spec fn dec_rep(n: nat) -> Seq<u8>
    decreases n,
{
    if n < 10 {
        seq![(n + 48) as u8]
    } else {
        dec_rep(n / 10).push((n % 10 + 48) as u8)
    }
}

/// The numeric value of a digit sequence (most significant first).
pub open spec fn dec_val(s: Seq<u8>) -> int
    decreases s.len(),
{
    if s.len() == 0 {
        0
    } else {
        dec_val(s.drop_last()) * 10 + (s.last() - 48)
    }
}

/// `s` is a non-empty digit sequence whose value fits in a `u32`.
pub open spec fn is_u32_digits(s: Seq<u8>) -> bool {
    &&& s.len() > 0
    &&& all_digits(s)
    &&& dec_val(s) <= u32::MAX
}

/// Renders `n` in decimal.
pub fn u32_to_dec(n: u32) -> (r: Vec<u8>)
    ensures
        r@ == dec_rep(n as nat),
    decreases n,
{
    let mut r: Vec<u8> = if n >= 10 {
        u32_to_dec(n / 10)
    } else {
        Vec::new()
    };
    r.push((n % 10) as u8 + 48);
    proof {
        if n < 10 {
            assert(r@ =~= dec_rep(n as nat));
        } else {
            assert(r@ =~= dec_rep(n as nat));
        }
    }
    r
}

/// The value of a digit sequence is never negative.
proof fn lemma_dec_val_nonneg(s: Seq<u8>)
    requires
        all_digits(s),
    ensures
        dec_val(s) >= 0,
    decreases s.len(),
{
    if s.len() > 0 {
        assert(all_digits(s.drop_last()));
        lemma_dec_val_nonneg(s.drop_last());
        lemma_mul_inequality(0, dec_val(s.drop_last()), 10);
    }
}

/// Extending a digit sequence to the right never shrinks its value.
proof fn lemma_dec_val_prefix_le(s: Seq<u8>, j: int)
    requires
        all_digits(s),
        0 <= j <= s.len(),
    ensures
        dec_val(s.take(j)) <= dec_val(s),
    decreases s.len() - j,
{
    if j < s.len() {
        assert(s.take(j + 1).drop_last() =~= s.take(j));
        assert(s.take(j + 1).last() == s[j]);
        assert(all_digits(s.take(j)));
        lemma_dec_val_nonneg(s.take(j));
        lemma_mul_inequality(0, dec_val(s.take(j)), 10);
        assert(dec_val(s.take(j)) <= dec_val(s.take(j + 1)));
        lemma_dec_val_prefix_le(s, j + 1);
    } else {
        assert(s.take(j) =~= s);
    }
}

/// Relates the overflow guard `acc <= (m - d) / 10` to `acc * 10 + d <= m`.
proof fn lemma_mul10_guard(acc: int, d: int, m: int)
    requires
        0 <= d <= 9,
        9 <= m,
        0 <= acc,
    ensures
        acc <= (m - d) / 10 ==> acc * 10 + d <= m,
        acc > (m - d) / 10 ==> acc * 10 + d > m,
{
    let q = (m - d) / 10;
    lemma_fundamental_div_mod(m - d, 10);
    lemma_mod_bound(m - d, 10);
    if acc <= q {
        lemma_mul_inequality(acc, q, 10);
    } else {
        lemma_mul_inequality(q + 1, acc, 10);
    }
}

/// Parses a non-empty, all-digit byte sequence as a decimal `u32`.
/// Returns `None` exactly on empty input, a non-digit byte, or overflow.
pub fn parse_u32(s: &[u8]) -> (r: Option<u32>)
    ensures
        match r {
            Some(v) => is_u32_digits(s@) && v == dec_val(s@),
            None => !is_u32_digits(s@),
        },
{
    if s.len() == 0 {
        return None;
    }
    let mut acc: u32 = 0;
    let mut i: usize = 0;
    while i < s.len()
        invariant
            0 <= i <= s@.len(),
            all_digits(s@.take(i as int)),
            acc == dec_val(s@.take(i as int)),
        decreases s@.len() - i,
    {
        let b = s[i];
        if b < 48 || b > 57 {
            assert(!is_digit(s@[i as int]));
            return None;
        }
        let d = (b - 48) as u32;
        proof {
            lemma_dec_val_nonneg(s@.take(i as int));
            lemma_mul10_guard(acc as int, d as int, u32::MAX as int);
        }
        if acc > (u32::MAX - d) / 10 {
            proof {
                assert(s@.take(i as int + 1).drop_last() =~= s@.take(i as int));
                assert(s@.take(i as int + 1).last() == s@[i as int]);
                if all_digits(s@) {
                    lemma_dec_val_prefix_le(s@, i as int + 1);
                }
            }
            return None;
        }
        proof {
            assert(s@.take(i as int + 1).drop_last() =~= s@.take(i as int));
            assert(s@.take(i as int + 1).last() == s@[i as int]);
        }
        acc = acc * 10 + d;
        i += 1;
    }
    proof {
        assert(s@.take(i as int) =~= s@);
    }
    Some(acc)
}

/// Index of the first occurrence of `sep` in `s`, or `s.len()` if absent.
pub open spec fn find_sep(s: Seq<u8>, sep: u8) -> int
    decreases s.len(),
{
    if s.len() == 0 {
        0
    } else if s[0] == sep {
        0
    } else {
        1 + find_sep(s.drop_first(), sep)
    }
}

/// `find_sep` stays within bounds, lands on `sep`, and nothing before it
/// is `sep`.
pub proof fn lemma_find_sep(s: Seq<u8>, sep: u8)
    ensures
        0 <= find_sep(s, sep) <= s.len(),
        find_sep(s, sep) < s.len() ==> s[find_sep(s, sep)] == sep,
        forall|i: int| 0 <= i < find_sep(s, sep) ==> s[i] != sep,
    decreases s.len(),
{
    if s.len() > 0 && s[0] != sep {
        lemma_find_sep(s.drop_first(), sep);
        assert forall|i: int| 0 <= i < find_sep(s, sep) implies s[i] != sep by {
            if i > 0 {
                assert(s.drop_first()[i - 1] == s[i]);
            }
        }
    }
}

/// The parts of `s` between occurrences of `sep`, in order. A trailing
/// separator yields a final empty part, as `str::split` does.
pub open spec fn split_spec(s: Seq<u8>, sep: u8) -> Seq<Seq<u8>>
    decreases s.len(),
{
    let i = find_sep(s, sep);
    if i == s.len() {
        seq![s]
    } else if 0 <= i < s.len() {
        seq![s.take(i)] + split_spec(s.skip(i + 1), sep)
    } else {
        Seq::empty()
    }
}

/// How `split_spec` acts on a sequence whose head part is known: a prefix
/// free of the separator either absorbs into the first part or, followed by
/// the separator, becomes exactly the first part.
proof fn lemma_find_sep_concat(p: Seq<u8>, s: Seq<u8>, sep: u8)
    requires
        forall|i: int| 0 <= i < p.len() ==> p[i] != sep,
    ensures
        find_sep(p + s, sep) == p.len() + find_sep(s, sep),
    decreases p.len(),
{
    if p.len() == 0 {
        assert(p + s =~= s);
    } else {
        assert((p + s)[0] == p[0]);
        assert((p + s).drop_first() =~= p.drop_first() + s);
        lemma_find_sep_concat(p.drop_first(), s, sep);
    }
}

/// A separator-free prefix followed by `sep` splits off as the first part.
proof fn lemma_split_step(p: Seq<u8>, s: Seq<u8>, sep: u8)
    requires
        forall|i: int| 0 <= i < p.len() ==> p[i] != sep,
    ensures
        split_spec(p + seq![sep] + s, sep) == seq![p] + split_spec(s, sep),
{
    let w = p + seq![sep] + s;
    lemma_find_sep_concat(p, seq![sep] + s, sep);
    assert(w =~= p + (seq![sep] + s));
    assert((seq![sep] + s)[0] == sep);
    assert(find_sep(w, sep) == p.len());
    assert(w.take(p.len() as int) =~= p);
    assert(w.skip(p.len() as int + 1) =~= s);
}

/// A separator-free sequence is its own single part.
proof fn lemma_split_whole(p: Seq<u8>, sep: u8)
    requires
        forall|i: int| 0 <= i < p.len() ==> p[i] != sep,
    ensures
        split_spec(p, sep) == seq![p],
{
    lemma_find_sep_concat(p, Seq::empty(), sep);
    assert(p + Seq::<u8>::empty() =~= p);
}

/// Splits `s` on `sep`.
pub fn split(s: &[u8], sep: u8) -> (r: Vec<Vec<u8>>)
    ensures
        r@.len() == split_spec(s@, sep).len(),
        forall|k: int| 0 <= k < r@.len() ==> r@[k]@ == split_spec(s@, sep)[k],
{
    let ghost goal = split_spec(s@, sep);
    let mut parts: Vec<Vec<u8>> = Vec::new();
    let mut cur: Vec<u8> = Vec::new();
    let mut i: usize = 0;
    proof {
        assert(cur@ + s@.skip(0) =~= s@);
        assert(parts@.map_values(|v: Vec<u8>| v@) + split_spec(s@, sep) =~= split_spec(s@, sep));
    }
    while i < s.len()
        invariant
            0 <= i <= s@.len(),
            forall|j: int| 0 <= j < cur@.len() ==> cur@[j] != sep,
            goal == split_spec(s@, sep),
            split_spec(s@, sep) == parts@.map_values(|v: Vec<u8>| v@) + split_spec(
                cur@ + s@.skip(i as int),
                sep,
            ),
        decreases s@.len() - i,
    {
        let b = s[i];
        if b == sep {
            proof {
                assert(cur@ + s@.skip(i as int) =~= cur@ + seq![sep] + s@.skip(i as int + 1));
                lemma_split_step(cur@, s@.skip(i as int + 1), sep);
            }
            let done = cur;
            cur = Vec::new();
            parts.push(done);
            proof {
                assert(parts@.map_values(|v: Vec<u8>| v@) =~= parts@.drop_last().map_values(
                    |v: Vec<u8>| v@,
                ) + seq![done@]);
                assert(cur@ + s@.skip(i as int + 1) =~= s@.skip(i as int + 1));
                assert(split_spec(s@, sep) == parts@.map_values(|v: Vec<u8>| v@) + split_spec(
                    cur@ + s@.skip(i as int + 1),
                    sep,
                ));
            }
        } else {
            proof {
                assert((cur@ + s@.skip(i as int))[cur@.len() as int] == b);
                assert(cur@.push(b) + s@.skip(i as int + 1) =~= cur@ + s@.skip(i as int));
            }
            cur.push(b);
        }
        i += 1;
    }
    proof {
        assert(cur@ + s@.skip(i as int) =~= cur@);
        lemma_split_whole(cur@, sep);
    }
    parts.push(cur);
    proof {
        assert(parts@.map_values(|v: Vec<u8>| v@) =~= parts@.drop_last().map_values(
            |v: Vec<u8>| v@,
        ) + seq![parts@.last()@]);
        assert(split_spec(s@, sep) =~= parts@.map_values(|v: Vec<u8>| v@));
    }
    parts
}


/// Compares two byte slices for equality.
pub fn eq_bytes(a: &[u8], b: &[u8]) -> (r: bool)
    ensures
        r == (a@ == b@),
{
    if a.len() != b.len() {
        return false;
    }
    let mut i: usize = 0;
    while i < a.len()
        invariant
            0 <= i <= a@.len(),
            a@.len() == b@.len(),
            forall|j: int| 0 <= j < i ==> a@[j] == b@[j],
        decreases a@.len() - i,
    {
        if a[i] != b[i] {
            return false;
        }
        i += 1;
    }
    proof {
        assert(a@ =~= b@);
    }
    true
}

} // verus!
