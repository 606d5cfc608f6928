//! Decimal text: the form in which the library holds a floating point value.
//!
//! A decimal text is an optional `-`, one or more digits, and an optional `.`
//! followed by one or more digits: the form `f64`'s `Display` writes.

use vstd::prelude::*;
use crate::text::{all_digits, digit_char, digit_value, digits_value, is_digit, string_from_chars};

verus! {

/// The length of the run of digits that `u` starts with.
pub open spec fn digit_run(u: Seq<char>) -> nat
    decreases u.len(),
{
    if u.len() > 0 && is_digit(u[0]) {
        1 + digit_run(u.drop_first())
    } else {
        0
    }
}

pub open spec fn is_negative_text(s: Seq<char>) -> bool {
    s.len() > 0 && s[0] == '-'
}

pub open spec fn sign_len(s: Seq<char>) -> int {
    if is_negative_text(s) {
        1
    } else {
        0
    }
}

/// The text without its sign.
pub open spec fn magnitude(s: Seq<char>) -> Seq<char> {
    s.skip(sign_len(s))
}

/// The digits before the point.
pub open spec fn int_digits(s: Seq<char>) -> Seq<char> {
    magnitude(s).take(digit_run(magnitude(s)) as int)
}

/// The digits after the point (empty where there is no point).
pub open spec fn frac_digits(s: Seq<char>) -> Seq<char> {
    let m = magnitude(s);
    let k = digit_run(m);
    if k < m.len() {
        m.skip(k + 1 as int)
    } else {
        seq![]
    }
}

pub open spec fn is_decimal_text(s: Seq<char>) -> bool {
    let m = magnitude(s);
    let k = digit_run(m);
    &&& k >= 1
    &&& (k == m.len() || (m[k as int] == '.' && frac_digits(s).len() >= 1 && all_digits(
        frac_digits(s),
    )))
}

/// The value truncated toward zero and saturated into `u64`, as a cast of the
/// floating point value to `u64` gives it.
pub open spec fn trunc_u64(s: Seq<char>) -> u64 {
    if is_negative_text(s) {
        0
    } else if digits_value(int_digits(s)) > u64::MAX {
        u64::MAX
    } else {
        digits_value(int_digits(s)) as u64
    }
}

/// The `i`-th digit after the point, `0` past the end.
pub open spec fn frac_digit_or_zero(f: Seq<char>, i: int) -> char {
    if i < f.len() {
        f[i]
    } else {
        '0'
    }
}

/// A string of digits plus one.
pub open spec fn increment_digits(d: Seq<char>) -> Seq<char>
    decreases d.len(),
{
    if d.len() == 0 {
        seq!['1']
    } else if d.last() == '9' {
        increment_digits(d.drop_last()).push('0')
    } else {
        d.drop_last().push(digit_char(digit_value(d.last()) + 1))
    }
}

/// The value rounded to three places after the point, half away from zero, and
/// written with exactly three places; the sign of the text is kept.
pub open spec fn fixed3_text(s: Seq<char>) -> Seq<char> {
    let f = frac_digits(s);
    let d = int_digits(s) + seq![
        frac_digit_or_zero(f, 0),
        frac_digit_or_zero(f, 1),
        frac_digit_or_zero(f, 2),
    ];
    let up = f.len() > 3 && digit_value(f[3]) >= 5;
    let e = if up {
        increment_digits(d)
    } else {
        d
    };
    let sign = if is_negative_text(s) {
        seq!['-']
    } else {
        seq![]
    };
    sign + e.take(e.len() - 3) + seq!['.'] + e.skip(e.len() - 3)
}

proof fn lemma_digit_run(u: Seq<char>, k: int)
    requires
        0 <= k <= u.len(),
        forall|i: int| 0 <= i < k ==> is_digit(#[trigger] u[i]),
        k == u.len() || !is_digit(u[k]),
    ensures
        digit_run(u) == k,
    decreases k,
{
    if k > 0 {
        lemma_digit_run(u.drop_first(), k - 1);
    }
}

proof fn lemma_increment_len(d: Seq<char>)
    ensures
        increment_digits(d).len() >= d.len(),
    decreases d.len(),
{
    if d.len() > 0 && d.last() == '9' {
        lemma_increment_len(d.drop_last());
    }
}

/// The end of the run of digits in `s` that starts at `start`.
fn scan_digits(s: &str, start: usize, n: usize) -> (k: usize)
    requires
        n == s@.len(),
        start <= n,
    ensures
        start <= k <= n,
        forall|i: int| start <= i < k ==> is_digit(#[trigger] s@[i]),
        k == n || !is_digit(s@[k as int]),
{
    let mut k = start;
    while k < n
        invariant
            n == s@.len(),
            start <= k <= n,
            forall|i: int| start <= i < k ==> is_digit(#[trigger] s@[i]),
        decreases n - k,
    {
        let c = s.get_char(k);
        if !((c as u32) >= 48 && (c as u32) <= 57) {
            return k;
        }
        k = k + 1;
    }
    k
}

/// Where the sign ends and where the digits before the point end.
fn int_bounds(s: &str) -> (r: (usize, usize))
    ensures
        r.0 == sign_len(s@),
        r.1 == r.0 + int_digits(s@).len(),
        int_digits(s@) == s@.subrange(r.0 as int, r.1 as int),
        r.1 <= s@.len(),
        r.1 == s@.len() ==> frac_digits(s@) == Seq::<char>::empty(),
        r.1 < s@.len() ==> frac_digits(s@) == s@.skip(r.1 + 1),
        magnitude(s@) == s@.skip(r.0 as int),
        digit_run(magnitude(s@)) == r.1 - r.0,
        all_digits(int_digits(s@)),
{
    let n = s.unicode_len();
    let st: usize = if n > 0 && s.get_char(0) == '-' {
        1
    } else {
        0
    };
    let k = scan_digits(s, st, n);
    proof {
        let m = s@.skip(st as int);
        assert(m == magnitude(s@));
        assert forall|i: int| 0 <= i < k - st implies is_digit(#[trigger] m[i]) by {
            assert(m[i] == s@[i + st]);
        }
        if k < n {
            assert(m[k - st] == s@[k as int]);
        }
        lemma_digit_run(m, k - st);
        assert(int_digits(s@) =~= s@.subrange(st as int, k as int));
        assert forall|i: int| 0 <= i < k - st implies is_digit(#[trigger] int_digits(s@)[i]) by {
            assert(int_digits(s@)[i] == s@[i + st]);
        }
        if k < n {
            assert(frac_digits(s@) =~= s@.skip(k + 1));
        }
    }
    (st, k)
}

/// Whether `s` is a decimal text.
pub fn is_decimal(s: &str) -> (r: bool)
    ensures
        r == is_decimal_text(s@),
{
    let n = s.unicode_len();
    let (st, k) = int_bounds(s);
    if k == st {
        return false;
    }
    if k == n {
        return true;
    }
    proof {
        assert(magnitude(s@)[k - st] == s@[k as int]);
    }
    if s.get_char(k) != '.' {
        return false;
    }
    let e = scan_digits(s, k + 1, n);
    proof {
        let f = frac_digits(s@);
        assert forall|i: int| 0 <= i < e - (k + 1) implies is_digit(#[trigger] f[i]) by {
            assert(f[i] == s@[i + k + 1]);
        }
        if e < n {
            assert(f[e - (k + 1)] == s@[e as int]);
        }
    }
    e == n && e > k + 1
}

/// The value of a decimal text truncated toward zero and saturated into `u64`.
pub fn truncate_decimal(s: &str) -> (r: u64)
    requires
        is_decimal_text(s@),
    ensures
        r == trunc_u64(s@),
{
    let (st, k) = int_bounds(s);
    if st == 1 {
        return 0;
    }
    let ghost d = int_digits(s@);
    let mut v: u64 = 0;
    let mut saturated = false;
    let mut i: usize = 0;
    while i < k
        invariant
            st == 0,
            k == d.len(),
            d == s@.subrange(0, k as int),
            k <= s@.len(),
            i <= k,
            saturated ==> digits_value(d.take(i as int)) > u64::MAX,
            !saturated ==> v == digits_value(d.take(i as int)),
            all_digits(d),
        decreases k - i,
    {
        let c = s.get_char(i);
        assert(d[i as int] == c);
        assert(d.take(i + 1).drop_last() =~= d.take(i as int));
        let dv = ((c as u32) - 48) as u64;
        assert(is_digit(d[i as int]));
        if !saturated {
            if v > (u64::MAX - dv) / 10 {
                saturated = true;
            } else {
                v = v * 10 + dv;
            }
        }
        i = i + 1;
    }
    assert(d.take(k as int) =~= d);
    if saturated {
        u64::MAX
    } else {
        v
    }
}

/// The digits of `d[..n]` plus one.
fn increment_prefix(d: &Vec<char>, n: usize) -> (r: Vec<char>)
    requires
        n <= d@.len(),
        all_digits(d@),
    ensures
        r@ == increment_digits(d@.take(n as int)),
    decreases n,
{
    if n == 0 {
        let mut r: Vec<char> = Vec::new();
        r.push('1');
        assert(r@ =~= seq!['1']);
        return r;
    }
    assert(d@.take(n as int).drop_last() =~= d@.take(n - 1));
    if d[n - 1] == '9' {
        let mut r = increment_prefix(d, n - 1);
        r.push('0');
        r
    } else {
        let mut r: Vec<char> = Vec::new();
        let mut i: usize = 0;
        while i < n - 1
            invariant
                n <= d@.len(),
                i <= n - 1,
                r@ == d@.take(i as int),
            decreases n - 1 - i,
        {
            r.push(d[i]);
            assert(d@.take(i + 1) =~= d@.take(i as int).push(d@[i as int]));
            i = i + 1;
        }
        let c = d[n - 1];
        assert(is_digit(d@[n - 1]));
        let next = (((c as u32) - 48) as u8 + 49) as char;
        r.push(next);
        r
    }
}

/// The value of a decimal text rounded to three places after the point, half away
/// from zero, and written with exactly three places.
pub fn round_to_thousandths(s: &str) -> (r: String)
    requires
        is_decimal_text(s@),
    ensures
        r@ == fixed3_text(s@),
{
    let n = s.unicode_len();
    let (st, k) = int_bounds(s);
    let ghost f = frac_digits(s@);
    let fl: usize = if k < n {
        n - k - 1
    } else {
        0
    };
    let mut d: Vec<char> = Vec::new();
    let mut i: usize = st;
    while i < k
        invariant
            st <= i <= k,
            k <= s@.len(),
            d@ == s@.subrange(st as int, i as int),
        decreases k - i,
    {
        d.push(s.get_char(i));
        assert(s@.subrange(st as int, i + 1) =~= s@.subrange(st as int, i as int).push(s@[i as int]));
        i = i + 1;
    }
    assert(f.len() == fl);
    let mut j: usize = 0;
    while j < 3
        invariant
            j <= 3,
            f.len() == fl,
            k < n ==> f == s@.skip(k + 1),
            n == s@.len(),
            fl > 0 ==> k < n,
            d@ == int_digits(s@) + Seq::new(j as nat, |x: int| frac_digit_or_zero(f, x)),
        decreases 3 - j,
    {
        let ghost old_d = d@;
        if j < fl {
            d.push(s.get_char(k + 1 + j));
        } else {
            d.push('0');
        }
        assert(d@ =~= int_digits(s@) + Seq::new((j + 1) as nat, |x: int| frac_digit_or_zero(f, x)));
        j = j + 1;
    }
    let ghost d0 = int_digits(s@) + seq![
        frac_digit_or_zero(f, 0),
        frac_digit_or_zero(f, 1),
        frac_digit_or_zero(f, 2),
    ];
    assert(d@ =~= d0);
    proof {
        assert forall|x: int| 0 <= x < d@.len() implies is_digit(#[trigger] d@[x]) by {
            if x < int_digits(s@).len() {
                assert(d@[x] == int_digits(s@)[x]);
            } else {
                let y = x - int_digits(s@).len();
                if y < f.len() {
                    assert(f[y] == s@[k + 1 + y]);
                }
            }
        }
    }
    let up = if fl > 3 {
        let c = s.get_char(k + 4);
        assert(f[3] == c);
        (c as u32) >= 53
    } else {
        false
    };
    let e = if up {
        let r = increment_prefix(&d, d.len());
        assert(d@.take(d@.len() as int) =~= d@);
        r
    } else {
        d
    };
    proof {
        lemma_increment_len(d0);
    }
    let el = e.len();
    let mut out: Vec<char> = Vec::new();
    if st == 1 {
        out.push('-');
    }
    let ghost sign = out@;
    let mut x: usize = 0;
    while x < el
        invariant
            el == e@.len(),
            el >= 4,
            x <= el,
            out@ == if x <= el - 3 {
                sign + e@.take(x as int)
            } else {
                sign + e@.take(el - 3) + seq!['.'] + e@.subrange(el - 3, x as int)
            },
        decreases el - x,
    {
        if x == el - 3 {
            out.push('.');
        }
        out.push(e[x]);
        proof {
            if x + 1 <= el - 3 {
                assert(e@.take(x + 1) =~= e@.take(x as int).push(e@[x as int]));
            } else if x == el - 3 {
                assert(e@.subrange(el - 3, x + 1) =~= seq![e@[x as int]]);
                assert(e@.take(x as int) =~= e@.take(el - 3));
            } else {
                assert(e@.subrange(el - 3, x + 1) =~= e@.subrange(el - 3, x as int).push(
                    e@[x as int],
                ));
            }
        }
        x = x + 1;
    }
    assert(e@.subrange(el - 3, el as int) =~= e@.skip(el - 3));
    string_from_chars(&out)
}

} // verus!
