//! Facts about the Android host, read from what the app passes in.
use vstd::prelude::*;

pub mod avf;

verus! {

/// `c` is an ASCII decimal digit.
pub open spec fn is_digit(c: char) -> bool {
    '0' <= c <= '9'
}

/// The value of a string of decimal digits.
pub open spec fn digits_value(s: Seq<char>) -> int
    decreases s.len(),
{
    if s.len() == 0 {
        0
    } else {
        digits_value(s.drop_last()) * 10 + (s.last() as int - '0' as int)
    }
}

/// Every character of `s` is a decimal digit.
pub open spec fn all_digits(s: Seq<char>) -> bool {
    forall|i: int| 0 <= i < s.len() ==> #[trigger] is_digit(s[i])
}

/// Whether `s` starts with a sign.
pub open spec fn has_sign(s: Seq<char>) -> bool {
    s.len() > 0 && (s[0] == '-' || s[0] == '+')
}

/// The digits of `s`, after its sign if any.
pub open spec fn digits_part(s: Seq<char>) -> Seq<char> {
    if has_sign(s) { s.skip(1) } else { s }
}

/// The value that `s` denotes, sign included.
pub open spec fn signed_value(s: Seq<char>) -> int {
    if s.len() > 0 && s[0] == '-' { -digits_value(digits_part(s)) } else { digits_value(digits_part(s)) }
}

/// The number that `s` denotes as a 32-bit signed integer, the way Rust
/// reads one: an optional '+' or '-', then one or more decimal digits, and
/// a value within range.
pub open spec fn parsed_i32(s: Seq<char>) -> Option<i32> {
    if digits_part(s).len() == 0 || !all_digits(digits_part(s)) {
        None
    } else if i32::MIN <= signed_value(s) <= i32::MAX {
        Some(signed_value(s) as i32)
    } else {
        None
    }
}

proof fn lemma_digits_monotone(s: Seq<char>, k: int)
    requires
        0 <= k <= s.len(),
        forall|i: int| 0 <= i < s.len() ==> #[trigger] is_digit(s[i]),
    ensures
        digits_value(s.take(k)) <= digits_value(s),
        0 <= digits_value(s.take(k)),
    decreases s.len() - k,
{
    lemma_digits_nonneg(s.take(k));
    if k < s.len() {
        lemma_digits_monotone(s, k + 1);
        assert(s.take(k + 1).drop_last() =~= s.take(k));
        assert(s.take(k + 1).last() == s[k]);
        assert(is_digit(s[k]));
    } else {
        assert(s.take(k) =~= s);
    }
}

proof fn lemma_digits_nonneg(s: Seq<char>)
    requires
        forall|i: int| 0 <= i < s.len() ==> #[trigger] is_digit(s[i]),
    ensures
        0 <= digits_value(s),
    decreases s.len(),
{
    if s.len() > 0 {
        assert(forall|i: int| 0 <= i < s.drop_last().len() ==> s.drop_last()[i] == s[i]);
        lemma_digits_nonneg(s.drop_last());
        assert(is_digit(s[s.len() - 1]));
    }
}

proof fn lemma_digit_value(k: int)
    requires
        0 <= k < 10,
    ensures
        crate::text::digit_char(k) as int - '0' as int == k,
        is_digit(crate::text::digit_char(k)),
{
}

proof fn lemma_decimal_digits(n: nat)
    ensures
        all_digits(crate::text::decimal(n)),
        digits_value(crate::text::decimal(n)) == n,
        crate::text::decimal(n).len() > 0,
    decreases n,
{
    let d = crate::text::decimal(n);
    if n < 10 {
        assert(d.drop_last() =~= Seq::<char>::empty());
        assert(d.last() == crate::text::digit_char(n as int));
        lemma_digit_value(n as int);
        assert(digits_value(d.drop_last()) == 0);
        assert(digits_value(d) == digits_value(d.drop_last()) * 10 + (d.last() as int - '0' as int));
    } else {
        lemma_decimal_digits(n / 10);
        let p = crate::text::decimal(n / 10);
        assert(d == p.push(crate::text::digit_char((n % 10) as int)));
        assert(d.drop_last() =~= p);
        assert forall|i: int| 0 <= i < d.len() implies #[trigger] is_digit(d[i]) by {
            if i < p.len() {
                assert(d[i] == p[i]);
            }
        }
        lemma_digit_value((n % 10) as int);
        assert(d.last() == crate::text::digit_char((n % 10) as int));
        assert(digits_value(d) == digits_value(d.drop_last()) * 10 + (d.last() as int - '0' as int));
        assert(digits_value(d) == (n / 10) * 10 + n % 10);
        assert((n / 10) * 10 + n % 10 == n);
    }
}

/// Reading back the decimal rendering of a number within the 32-bit signed
/// range gives the number: what the runtime writes as a decimal (as in the
/// default ID mappings), it reads back the same.
pub proof fn law_decimal_reads_back(n: u32)
    requires
        n <= i32::MAX,
    ensures
        parsed_i32(crate::text::decimal(n as nat)) == Some(n as i32),
{
    let d = crate::text::decimal(n as nat);
    lemma_decimal_digits(n as nat);
    assert(!has_sign(d)) by {
        assert(is_digit(d[0]));
    }
    assert(digits_part(d) == d);
}

/// Read a 32-bit signed decimal integer.
pub fn parse_i32(s: &str) -> (r: Option<i32>)
    ensures
        r == parsed_i32(s@),
{
    let n = s.unicode_len();
    let mut start: usize = 0;
    let mut neg = false;
    if n > 0 {
        let c = s.get_char(0);
        if c == '-' {
            neg = true;
            start = 1;
        } else if c == '+' {
            start = 1;
        }
    }
    let ghost body = digits_part(s@);
    assert(body =~= s@.skip(start as int));
    if start == n {
        return None;
    }
    let limit: i64 = if neg { 2147483648 } else { 2147483647 };
    let mut acc: i64 = 0;
    let mut i: usize = start;
    while i < n
        invariant
            n == s@.len(),
            start <= i <= n,
            start < n,
            body =~= s@.skip(start as int),
            body == digits_part(s@),
            neg == (s@.len() > 0 && s@[0] == '-'),
            limit == (if neg { 2147483648i64 } else { 2147483647i64 }),
            forall|j: int| start <= j < i ==> #[trigger] is_digit(s@[j]),
            acc == digits_value(body.take(i - start)),
            0 <= acc <= limit,
        decreases n - i,
    {
        let c = s.get_char(i);
        if !('0' <= c && c <= '9') {
            proof {
                assert(!is_digit(body[i - start]));
                assert(!all_digits(body));
                assert(parsed_i32(s@) is None);
            }
            return None;
        }
        let d = (c as u32 - '0' as u32) as i64;
        proof {
            assert(body.take(i - start + 1).drop_last() =~= body.take(i - start));
            assert(body.take(i - start + 1).last() == c);
        }
        acc = acc * 10 + d;
        if acc > limit {
            proof {
                let k = i - start + 1;
                if all_digits(body) {
                    lemma_digits_monotone(body, k);
                    assert(digits_value(body) > limit);
                }
                assert(parsed_i32(s@) is None);
            }
            return None;
        }
        i = i + 1;
    }
    proof {
        assert(body.take(n - start) =~= body);
        assert(all_digits(body)) by {
            assert forall|j: int| 0 <= j < body.len() implies #[trigger] is_digit(body[j]) by {
                assert(body[j] == s@[start + j]);
            }
        }
    }
    if neg {
        Some((0 - acc) as i32)
    } else {
        Some(acc as i32)
    }
}

/// The Android API level, from the ASTRASHELL_API_LEVEL variable when set:
/// its number when it reads as one, 0 otherwise.
pub fn api_level_from(var: Option<&str>) -> (r: i32)
    ensures
        r == (match var {
            Some(v) => match parsed_i32(v@) {
                Some(x) => x,
                None => 0,
            },
            None => 0,
        }),
{
    match var {
        Some(v) => match parse_i32(v) {
            Some(x) => x,
            None => 0,
        },
        None => 0,
    }
}

} // verus!
