//! Fixed-point decimal amounts, as the exchange writes them on the wire.
use vstd::prelude::*;

verus! {

/// Number of digits after the decimal point that an amount carries.
pub const DECIMAL_PLACES: u64 = 8;

/// Number of units in one whole (10 to the power `DECIMAL_PLACES`).
pub const UNITS_PER_WHOLE: u64 = 100_000_000;

/// An exact decimal amount: `units` hundred-millionths.
#[derive(Clone, Copy, Debug, PartialEq, Eq, Structural)]
pub struct Decimal {
    pub units: i64,
}

pub open spec fn pow10(n: nat) -> int
    decreases n,
{
    if n == 0 {
        1
    } else {
        10 * pow10((n - 1) as nat)
    }
}

pub open spec fn is_digit(c: char) -> bool {
    '0' <= c && c <= '9'
}

pub open spec fn digit_value(c: char) -> int {
    c as int - '0' as int
}

pub open spec fn all_digits(s: Seq<char>) -> bool {
    forall|i: int| 0 <= i < s.len() ==> is_digit(#[trigger] s[i])
}

/// The number that a run of decimal digits denotes.
pub open spec fn digits_value(s: Seq<char>) -> int
    decreases s.len(),
{
    if s.len() == 0 {
        0
    } else {
        digits_value(s.drop_last()) * 10 + digit_value(s.last())
    }
}

/// Length of the run of digits that starts `s`.
pub open spec fn digit_run(s: Seq<char>) -> nat
    decreases s.len(),
{
    if s.len() > 0 && is_digit(s[0]) {
        1 + digit_run(s.drop_first())
    } else {
        0
    }
}

/// The digits after the point, if `s` has one.
pub open spec fn fraction_of(s: Seq<char>) -> Seq<char> {
    let p = digit_run(s) as int;
    if p < s.len() {
        s.subrange(p + 1, s.len() as int)
    } else {
        Seq::empty()
    }
}

/// `s` is a plain decimal text: digits, then optionally a point followed by
/// one to `DECIMAL_PLACES` digits. No sign, no exponent, no spaces.
pub open spec fn is_decimal_text(s: Seq<char>) -> bool {
    let p = digit_run(s) as int;
    &&& p > 0
    &&& (p < s.len() ==> s[p] == '.' && p + 1 < s.len() && all_digits(fraction_of(s)))
    &&& fraction_of(s).len() <= DECIMAL_PLACES
}

/// The amount, in units, that a decimal text denotes.
pub open spec fn decimal_text_units(s: Seq<char>) -> int {
    let p = digit_run(s) as int;
    let f = fraction_of(s);
    digits_value(s.subrange(0, p)) * pow10(DECIMAL_PLACES as nat) + digits_value(f) * pow10(
        (DECIMAL_PLACES - f.len()) as nat,
    )
}

/// A decimal text that `parse_decimal` accepts.
pub open spec fn is_amount(s: Seq<char>) -> bool {
    is_decimal_text(s) && decimal_text_units(s) <= i64::MAX
}

proof fn lemma_digit_run(s: Seq<char>, p: int)
    requires
        0 <= p <= s.len(),
        forall|j: int| 0 <= j < p ==> is_digit(#[trigger] s[j]),
        p == s.len() || !is_digit(s[p]),
    ensures
        digit_run(s) == p,
    decreases p,
{
    if p > 0 {
        let t = s.drop_first();
        assert forall|j: int| 0 <= j < p - 1 implies is_digit(#[trigger] t[j]) by {
            assert(t[j] == s[j + 1]);
        }
        if p - 1 < t.len() {
            assert(t[p - 1] == s[p]);
        }
        lemma_digit_run(t, p - 1);
    }
}

proof fn lemma_digits_value_nonneg(s: Seq<char>)
    requires
        all_digits(s),
    ensures
        digits_value(s) >= 0,
    decreases s.len(),
{
    if s.len() > 0 {
        assert(all_digits(s.drop_last()));
        lemma_digits_value_nonneg(s.drop_last());
    }
}

/// A longer run of digits never denotes less than its prefix.
proof fn lemma_digits_value_prefix(s: Seq<char>, k: int)
    requires
        all_digits(s),
        0 <= k <= s.len(),
    ensures
        digits_value(s.subrange(0, k)) <= digits_value(s),
    decreases s.len(),
{
    if k < s.len() {
        let t = s.drop_last();
        assert(all_digits(t));
        assert(t.subrange(0, k) =~= s.subrange(0, k));
        lemma_digits_value_prefix(t, k);
        lemma_digits_value_nonneg(t);
        assert(is_digit(s[s.len() - 1]));
    } else {
        assert(s.subrange(0, k) =~= s);
    }
}

proof fn lemma_pow10_pos(n: nat)
    ensures
        pow10(n) >= 1,
    decreases n,
{
    if n > 0 {
        lemma_pow10_pos((n - 1) as nat);
    }
}

/// Value of the digits `s[lo..hi]`, when it fits in a `u64`.
fn digits_to_u64(s: &str, lo: usize, hi: usize) -> (r: Option<u64>)
    requires
        lo <= hi <= s@.len(),
        all_digits(s@.subrange(lo as int, hi as int)),
    ensures
        match r {
            Some(v) => v as int == digits_value(s@.subrange(lo as int, hi as int)),
            None => digits_value(s@.subrange(lo as int, hi as int)) > u64::MAX,
        },
{
    let ghost d = s@.subrange(lo as int, hi as int);
    let mut acc: u64 = 0;
    let mut i: usize = lo;
    while i < hi
        invariant
            lo <= i <= hi <= s@.len(),
            d == s@.subrange(lo as int, hi as int),
            all_digits(d),
            acc as int == digits_value(s@.subrange(lo as int, i as int)),
        decreases hi - i,
    {
        let c = s.get_char(i);
        assert(c == d[i - lo]);
        let v = (c as u32 - '0' as u32) as u64;
        let ghost next = s@.subrange(lo as int, i + 1);
        assert(next.drop_last() =~= s@.subrange(lo as int, i as int));
        assert(next.last() == c);
        if acc > (u64::MAX - v) / 10 {
            proof {
                assert(digits_value(next) > u64::MAX);
                assert(next =~= d.subrange(0, i + 1 - lo));
                lemma_digits_value_prefix(d, i + 1 - lo);
            }
            return None;
        }
        acc = acc * 10 + v;
        i = i + 1;
    }
    Some(acc)
}

/// Reads a plain decimal text (`"0.01"`, `"42"`, `"1.5"`) as an exact
/// amount. Rejects anything else, more than `DECIMAL_PLACES` fraction digits,
/// and amounts beyond `i64::MAX` units.
pub fn parse_decimal(s: &str) -> (r: Option<Decimal>)
    ensures
        r is Some <==> is_amount(s@),
        r is Some ==> r->Some_0.units == decimal_text_units(s@),
{
    let n = s.unicode_len();
    let mut p: usize = 0;
    while p < n && '0' <= s.get_char(p) && s.get_char(p) <= '9'
        invariant
            n == s@.len(),
            p <= n,
            forall|j: int| 0 <= j < p ==> is_digit(#[trigger] s@[j]),
        decreases n - p,
    {
        p = p + 1;
    }
    proof {
        lemma_digit_run(s@, p as int);
        assert forall|j: int| 0 <= j < p implies is_digit(#[trigger] s@.subrange(0, p as int)[j]) by {
            assert(s@.subrange(0, p as int)[j] == s@[j]);
        }
    }
    if p == 0 {
        return None;
    }
    let int_part = match digits_to_u64(s, 0, p) {
        Some(v) => v,
        None => {
            proof {
                lemma_units_cover_integer_part(s@);
            }
            return None;
        },
    };
    let mut frac: u64 = 0;
    let mut frac_len: usize = 0;
    if p < n {
        if s.get_char(p) != '.' || p + 1 >= n || (n - p - 1) as u64 > DECIMAL_PLACES {
            return None;
        }
        let mut j: usize = p + 1;
        while j < n
            invariant
                n == s@.len(),
                p + 1 <= j <= n,
                p < n,
                digit_run(s@) == p,
                forall|k: int| p + 1 <= k < j ==> is_digit(#[trigger] s@[k]),
            decreases n - j,
        {
            let c = s.get_char(j);
            if c < '0' || c > '9' {
                proof {
                    assert(fraction_of(s@)[j - p - 1] == c);
                }
                return None;
            }
            j = j + 1;
        }
        assert forall|k: int| 0 <= k < fraction_of(s@).len() implies is_digit(
            #[trigger] fraction_of(s@)[k],
        ) by {
            assert(fraction_of(s@)[k] == s@[p + 1 + k]);
        }
        frac_len = n - p - 1;
        frac = match digits_to_u64(s, p + 1, n) {
            Some(v) => v,
            None => {
                proof {
                    lemma_digits_value_bound(s@.subrange(p + 1, n as int));
                    lemma_pow10_le_8(frac_len as nat);
                }
                return None;
            },
        };
    }
    proof {
        assert(fraction_of(s@).len() == frac_len);
        if p == n {
            assert(fraction_of(s@) =~= Seq::<char>::empty());
        } else {
            assert(fraction_of(s@) =~= s@.subrange(p + 1, n as int));
        }
    }
    let mut scale: u64 = 1;
    let mut k: usize = frac_len;
    while k < 8
        invariant
            frac_len <= k <= 8,
            scale as int == pow10((k - frac_len) as nat),
            scale <= 100_000_000,
        decreases 8 - k,
    {
        proof {
            lemma_pow10_le(((k - frac_len) as nat));
        }
        scale = scale * 10;
        k = k + 1;
    }
    proof {
        lemma_pow10_8();
    }
    let total = match (int_part.checked_mul(UNITS_PER_WHOLE), frac.checked_mul(scale)) {
        (Some(a), Some(b)) => a.checked_add(b),
        _ => None,
    };
    match total {
        Some(t) => {
            if t > i64::MAX as u64 {
                None
            } else {
                Some(Decimal { units: t as i64 })
            }
        },
        None => {
            proof {
                lemma_digits_value_nonneg(fraction_of(s@));
                lemma_digits_value_nonneg(s@.subrange(0, p as int));
                assert(int_part as int * scale as int >= 0) by (nonlinear_arith)
                    requires
                        int_part >= 0,
                        scale >= 0,
                ;
                assert(frac as int * scale as int >= 0) by (nonlinear_arith)
                    requires
                        frac >= 0,
                        scale >= 0,
                ;
                assert(int_part as int * 100_000_000 >= 0) by (nonlinear_arith)
                    requires
                        int_part >= 0,
                ;
            }
            None
        },
    }
}

proof fn lemma_pow10_8()
    ensures
        pow10(8) == 100_000_000,
{
    reveal_with_fuel(pow10, 9);
}

proof fn lemma_pow10_le(n: nat)
    requires
        n < 8,
    ensures
        pow10(n) * 10 <= 100_000_000,
    decreases n,
{
    reveal_with_fuel(pow10, 9);
}

proof fn lemma_units_cover_integer_part(s: Seq<char>)
    ensures
        is_decimal_text(s) ==> decimal_text_units(s) >= digits_value(
            s.subrange(0, digit_run(s) as int),
        ),
{
    if is_decimal_text(s) {
        let f = fraction_of(s);
        let a = digits_value(s.subrange(0, digit_run(s) as int));
        lemma_digits_value_nonneg(f);
        lemma_pow10_pos(DECIMAL_PLACES as nat);
        lemma_pow10_pos((DECIMAL_PLACES - f.len()) as nat);
        assert(all_digits(s.subrange(0, digit_run(s) as int))) by {
            lemma_digit_run_digits(s);
        }
        lemma_digits_value_nonneg(s.subrange(0, digit_run(s) as int));
        let b = pow10(DECIMAL_PLACES as nat);
        let c = digits_value(f) * pow10((DECIMAL_PLACES - f.len()) as nat);
        assert(c >= 0) by (nonlinear_arith)
            requires
                digits_value(f) >= 0,
                pow10((DECIMAL_PLACES - f.len()) as nat) >= 1,
                c == digits_value(f) * pow10((DECIMAL_PLACES - f.len()) as nat),
        ;
        assert(a * b >= a) by (nonlinear_arith)
            requires
                a >= 0,
                b >= 1,
        ;
    }
}

proof fn lemma_digit_run_digits(s: Seq<char>)
    ensures
        digit_run(s) <= s.len(),
        all_digits(s.subrange(0, digit_run(s) as int)),
    decreases s.len(),
{
    if s.len() > 0 && is_digit(s[0]) {
        let t = s.drop_first();
        lemma_digit_run_digits(t);
        assert forall|i: int| 0 <= i < digit_run(s) implies is_digit(
            #[trigger] s.subrange(0, digit_run(s) as int)[i],
        ) by {
            if i > 0 {
                assert(s.subrange(0, digit_run(s) as int)[i] == t.subrange(
                    0,
                    digit_run(t) as int,
                )[i - 1]);
            }
        }
    }
}

proof fn lemma_digits_value_bound(s: Seq<char>)
    requires
        all_digits(s),
    ensures
        digits_value(s) < pow10(s.len()),
    decreases s.len(),
{
    if s.len() > 0 {
        let t = s.drop_last();
        assert(all_digits(t));
        lemma_digits_value_bound(t);
        assert(is_digit(s[s.len() - 1]));
        assert(pow10(s.len()) == 10 * pow10(t.len()));
    }
}

proof fn lemma_pow10_le_8(n: nat)
    requires
        n <= 8,
    ensures
        pow10(n) <= 100_000_000,
{
    reveal_with_fuel(pow10, 9);
}

} // verus!
