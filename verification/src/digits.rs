//! ASCII decimal digit runs: the numeric value of a digit string, parsing
//! with an upper bound, and rendering a number back to its canonical digits.

use vstd::prelude::*;

verus! {

/// `b` is an ASCII decimal digit.
pub open spec fn is_digit(b: u8) -> bool {
    48 <= b && b <= 57
}

/// Every byte of `s` is an ASCII decimal digit.
pub open spec fn all_digits(s: Seq<u8>) -> bool {
    forall|i: int| 0 <= i < s.len() ==> is_digit(s[i])
}

/// Numeric value of a digit string, most significant digit first.
/// Meaningful when `all_digits(s)`; the empty string has value 0.
pub open spec fn dec_value(s: Seq<u8>) -> int
    decreases s.len(),
{
    if s.len() == 0 {
        0
    } else {
        dec_value(s.drop_last()) * 10 + s.last() - 48
    }
}

/// The canonical decimal digits of `n`: no leading zeros, and `seq![48u8]`
/// for zero itself.
pub open spec fn spec_digits(n: int) -> Seq<u8>
    decreases n,
{
    if n <= 0 {
        seq![48u8]
    } else if n < 10 {
        seq![(48 + n) as u8]
    } else {
        spec_digits(n / 10).push((48 + n % 10) as u8)
    }
}

/// An all-digit string has a non-negative value.
pub proof fn lemma_dec_value_nonneg(s: Seq<u8>)
    requires
        all_digits(s),
    ensures
        dec_value(s) >= 0,
    decreases s.len(),
{
    if s.len() > 0 {
        assert(all_digits(s.drop_last()));
        lemma_dec_value_nonneg(s.drop_last());
    }
}

/// A digit string is worth at least the value of any of its prefixes.
pub proof fn lemma_dec_value_prefix(s: Seq<u8>, i: int)
    requires
        all_digits(s),
        0 <= i <= s.len(),
    ensures
        dec_value(s) >= dec_value(s.take(i)),
        dec_value(s.take(i)) >= 0,
    decreases s.len() - i,
{
    assert(all_digits(s.take(i)));
    lemma_dec_value_nonneg(s.take(i));
    if i == s.len() {
        assert(s.take(i) =~= s);
    } else {
        lemma_dec_value_prefix(s, i + 1);
        assert(s.take(i + 1).drop_last() =~= s.take(i));
        assert(dec_value(s.take(i + 1)) == dec_value(s.take(i)) * 10 + s[i] - 48);
        assert(dec_value(s.take(i)) * 10 >= dec_value(s.take(i))) by (nonlinear_arith)
            requires
                dec_value(s.take(i)) >= 0,
        ;
    }
}

/// The canonical digits of `n` are digits indeed, at least one, and worth
/// exactly `n`.
pub proof fn lemma_spec_digits_value(n: int)
    requires
        n >= 0,
    ensures
        all_digits(spec_digits(n)),
        spec_digits(n).len() >= 1,
        dec_value(spec_digits(n)) == n,
    decreases n,
{
    if n < 10 {
        let s = spec_digits(n);
        assert(s.drop_last().len() == 0);
        assert(dec_value(s.drop_last()) == 0);
        assert(dec_value(s) == s[0] - 48);
    } else {
        lemma_spec_digits_value(n / 10);
        let s = spec_digits(n);
        assert(s.drop_last() =~= spec_digits(n / 10));
        assert(s.last() == (48 + n % 10) as u8);
        assert(dec_value(s) == (n / 10) * 10 + n % 10);
        assert(forall|i: int| 0 <= i < s.len() - 1 ==> s[i] == spec_digits(n / 10)[i]);
    }
}

/// A byte string without whitespace at either end trims to itself.
pub proof fn lemma_trim_no_ws(s: Seq<u8>)
    requires
        s.len() > 0,
        !is_ascii_ws(s[0]),
        !is_ascii_ws(s.last()),
    ensures
        spec_trim(s) == s,
{
    assert(ws_prefix_len(s) == 0);
    assert(ws_suffix_len(s) == 0);
    assert(s.skip(0) =~= s);
    assert(spec_trim(s) =~= s);
}

/// `b` is an ASCII whitespace byte: space, tab, line feed, vertical tab,
/// form feed or carriage return.
pub open spec fn is_ascii_ws(b: u8) -> bool {
    b == 32 || (9 <= b && b <= 13)
}

/// Length of the longest all-whitespace prefix of `s`.
pub open spec fn ws_prefix_len(s: Seq<u8>) -> int
    decreases s.len(),
{
    if s.len() == 0 || !is_ascii_ws(s[0]) {
        0
    } else {
        1 + ws_prefix_len(s.drop_first())
    }
}

/// Length of the longest all-whitespace suffix of `s`.
pub open spec fn ws_suffix_len(s: Seq<u8>) -> int
    decreases s.len(),
{
    if s.len() == 0 || !is_ascii_ws(s.last()) {
        0
    } else {
        1 + ws_suffix_len(s.drop_last())
    }
}

/// `s` with ASCII whitespace stripped from both ends.
pub open spec fn spec_trim(s: Seq<u8>) -> Seq<u8> {
    let t = s.skip(ws_prefix_len(s));
    t.take(t.len() - ws_suffix_len(t))
}

/// `ws_prefix_len` is the unique cut: everything before it is whitespace and
/// the byte at it, if any, is not.
proof fn lemma_ws_prefix_len_unique(s: Seq<u8>, k: int)
    requires
        0 <= k <= s.len(),
        forall|i: int| 0 <= i < k ==> is_ascii_ws(s[i]),
        k == s.len() || !is_ascii_ws(s[k]),
    ensures
        ws_prefix_len(s) == k,
    decreases s.len(),
{
    if s.len() == 0 {
    } else if !is_ascii_ws(s[0]) {
        assert(k == 0);
    } else {
        assert(k != 0);
        let t = s.drop_first();
        assert(forall|i: int| 0 <= i < k - 1 ==> is_ascii_ws(t[i]));
        assert(k - 1 == t.len() || !is_ascii_ws(t[k - 1]));
        lemma_ws_prefix_len_unique(t, k - 1);
    }
}

/// `ws_suffix_len` is the unique cut from the other end.
proof fn lemma_ws_suffix_len_unique(s: Seq<u8>, k: int)
    requires
        0 <= k <= s.len(),
        forall|i: int| s.len() - k <= i < s.len() ==> is_ascii_ws(s[i]),
        k == s.len() || !is_ascii_ws(s[s.len() - k - 1]),
    ensures
        ws_suffix_len(s) == k,
    decreases s.len(),
{
    if s.len() == 0 {
    } else if !is_ascii_ws(s.last()) {
        assert(k == 0);
    } else {
        assert(k != 0);
        let t = s.drop_last();
        assert(forall|i: int| t.len() - (k - 1) <= i < t.len() ==> is_ascii_ws(t[i]));
        lemma_ws_suffix_len_unique(t, k - 1);
    }
}

/// Strip ASCII whitespace from both ends of `bytes`.
pub fn trim_ascii<'a>(bytes: &'a [u8]) -> (r: &'a [u8])
    ensures
        r@ == spec_trim(bytes@),
{
    let ghost s = bytes@;
    let n = bytes.len();
    let mut lo: usize = 0;
    while lo < n && is_ws_byte(bytes[lo])
        invariant
            n == s.len(),
            0 <= lo <= n,
            s == bytes@,
            forall|i: int| 0 <= i < lo ==> is_ascii_ws(s[i]),
        decreases n - lo,
    {
        lo = lo + 1;
    }
    proof {
        lemma_ws_prefix_len_unique(s, lo as int);
    }
    let mut hi: usize = n;
    while hi > lo && is_ws_byte(bytes[hi - 1])
        invariant
            n == s.len(),
            lo <= hi <= n,
            s == bytes@,
            forall|i: int| hi <= i < n ==> is_ascii_ws(s[i]),
        decreases hi,
    {
        hi = hi - 1;
    }
    proof {
        let t = s.skip(lo as int);
        assert(forall|i: int| t.len() - (n - hi) <= i < t.len() ==> is_ascii_ws(t[i]));
        if hi > lo {
            assert(!is_ascii_ws(t[t.len() - (n - hi) - 1]));
        }
        lemma_ws_suffix_len_unique(t, n - hi);
        assert(spec_trim(s) =~= s.subrange(lo as int, hi as int));
    }
    vstd::slice::slice_subrange(bytes, lo, hi)
}

/// Whether `b` is an ASCII whitespace byte.
fn is_ws_byte(b: u8) -> (r: bool)
    ensures
        r == is_ascii_ws(b),
{
    b == 32 || (9 <= b && b <= 13)
}

/// Parse an all-digit string into a `u64`, rejecting values above `limit`.
///
/// Returns `Some(v)` exactly when `bytes` is non-empty, all digits, and its
/// value is at most `limit`; `v` is then that value.
pub fn parse_bounded(bytes: &[u8], limit: u64) -> (r: Option<u64>)
    ensures
        match r {
            Some(v) => {
                &&& bytes@.len() > 0
                &&& all_digits(bytes@)
                &&& dec_value(bytes@) == v
                &&& v <= limit
            },
            None => !(bytes@.len() > 0 && all_digits(bytes@) && dec_value(bytes@) <= limit),
        },
{
    if bytes.len() == 0 {
        return None;
    }
    let ghost s = bytes@;
    let mut acc: u64 = 0;
    let mut i: usize = 0;
    while i < bytes.len()
        invariant
            s == bytes@,
            0 <= i <= bytes@.len(),
            all_digits(s.take(i as int)),
            acc == dec_value(s.take(i as int)),
            acc <= limit,
        decreases bytes@.len() - i,
    {
        let b = bytes[i];
        if b < 48 || b > 57 {
            assert(!is_digit(s[i as int]));
            return None;
        }
        let d = (b - 48) as u64;
        proof {
            assert(s.take(i + 1).drop_last() =~= s.take(i as int));
            assert(dec_value(s.take(i + 1)) == acc * 10 + d);
        }
        let over = if acc > limit / 10 {
            true
        } else {
            proof {
                assert(acc * 10 <= limit) by (nonlinear_arith)
                    requires
                        acc <= limit / 10,
                        limit >= 0,
                        acc >= 0,
                ;
            }
            d > limit - acc * 10
        };
        if over {
            // This prefix already exceeds the limit, so the whole string
            // (if it is all digits) does too.
            proof {
                assert(acc * 10 + d > limit) by (nonlinear_arith)
                    requires
                        acc > limit / 10 || (acc * 10 <= limit && d > limit - acc * 10),
                        d <= 9,
                        limit >= 0,
                        acc >= 0,
                ;
                if all_digits(s) && dec_value(s) <= limit {
                    lemma_dec_value_prefix(s, i + 1);
                }
            }
            return None;
        }
        acc = acc * 10 + d;
        i = i + 1;
    }
    assert(s.take(i as int) =~= s);
    Some(acc)
}

/// Append the canonical decimal digits of `n` to `v`.
pub fn push_decimal(v: &mut Vec<u8>, n: u64)
    ensures
        final(v)@ == old(v)@ + spec_digits(n as int),
    decreases n,
{
    if n >= 10 {
        push_decimal(v, n / 10);
        v.push(48 + (n % 10) as u8);
    } else {
        v.push(48 + n as u8);
    }
    assert(v@ =~= old(v)@ + spec_digits(n as int));
}

} // verus!
