use vstd::prelude::*;

verus! {

/// The characters of `s`, in order.
pub fn chars_of(s: &str) -> (v: Vec<char>)
    ensures
        v@ == s@,
{
    let mut v: Vec<char> = Vec::new();
    for c in it: s.chars()
        invariant
            it.seq() == s@,
            v@ == s@.take(it.index() as int),
    {
        proof {
            assert(s@.take(it.index() as int + 1) == s@.take(it.index() as int).push(c));
        }
        v.push(c);
    }
    proof {
        assert(s@.take(s@.len() as int) == s@);
    }
    v
}

/// Whether two character vectors hold the same characters.
pub fn chars_eq(a: &Vec<char>, b: &Vec<char>) -> (r: bool)
    ensures
        r == (a@ == b@),
{
    if a.len() != b.len() {
        return false;
    }
    let mut i: usize = 0;
    while i < a.len()
        invariant
            i <= a@.len(),
            a@.len() == b@.len(),
            forall|j: int| 0 <= j < i ==> a@[j] == b@[j],
        decreases a.len() - i,
    {
        if a[i] != b[i] {
            return false;
        }
        i = i + 1;
    }
    proof {
        assert(a@ =~= b@);
    }
    true
}

/// Whether two strings hold the same characters.
pub fn str_eq(a: &str, b: &str) -> (r: bool)
    ensures
        r == (a@ == b@),
{
    let va = chars_of(a);
    let vb = chars_of(b);
    chars_eq(&va, &vb)
}

/// Whether `v` holds the characters of `s`.
pub fn chars_eq_str(v: &Vec<char>, s: &str) -> (r: bool)
    ensures
        r == (v@ == s@),
{
    let w = chars_of(s);
    chars_eq(v, &w)
}

/// The string made of the characters of `v`, in order.
///
/// Trusted: std's `FromIterator<&char>` for `String` pushes each character in
/// turn, so the string holds exactly these characters.
#[verifier::external_body]
pub(crate) fn string_from_chars(v: &Vec<char>) -> (s: String)
    ensures
        s@ == v@,
{
    v.iter().collect::<String>()
}

/// The characters `s[lo..hi]`.
pub fn slice_chars(s: &Vec<char>, lo: usize, hi: usize) -> (r: Vec<char>)
    requires
        lo <= hi <= s@.len(),
    ensures
        r@ == s@.subrange(lo as int, hi as int),
{
    let mut r: Vec<char> = Vec::new();
    let mut i: usize = lo;
    while i < hi
        invariant
            lo <= i <= hi,
            hi <= s@.len(),
            r@ == s@.subrange(lo as int, i as int),
        decreases hi - i,
    {
        r.push(s[i]);
        proof {
            assert(s@.subrange(lo as int, i + 1) == s@.subrange(lo as int, i as int).push(s@[i as int]));
        }
        i = i + 1;
    }
    r
}

/// Whether `c` is an ASCII decimal digit.
pub open spec fn spec_is_digit(c: char) -> bool {
    '0' <= c && c <= '9'
}

/// The value of the decimal digit `c`.
pub open spec fn spec_digit_value(c: char) -> int {
    c as int - '0' as int
}

/// The decimal digit of value `d`, for `d` from 0 to 9.
pub open spec fn spec_digit_char(d: int) -> char {
    if d == 0 {
        '0'
    } else if d == 1 {
        '1'
    } else if d == 2 {
        '2'
    } else if d == 3 {
        '3'
    } else if d == 4 {
        '4'
    } else if d == 5 {
        '5'
    } else if d == 6 {
        '6'
    } else if d == 7 {
        '7'
    } else if d == 8 {
        '8'
    } else {
        '9'
    }
}

/// The decimal digit of value `d`.
pub fn digit_char(d: usize) -> (c: char)
    requires
        d < 10,
    ensures
        c == spec_digit_char(d as int),
        spec_is_digit(c),
        spec_digit_value(c) == d,
{
    if d == 0 {
        '0'
    } else if d == 1 {
        '1'
    } else if d == 2 {
        '2'
    } else if d == 3 {
        '3'
    } else if d == 4 {
        '4'
    } else if d == 5 {
        '5'
    } else if d == 6 {
        '6'
    } else if d == 7 {
        '7'
    } else if d == 8 {
        '8'
    } else {
        '9'
    }
}

/// Whether `s` is a nonempty run of decimal digits.
pub open spec fn spec_is_digits(s: Seq<char>) -> bool {
    s.len() > 0 && forall|i: int| 0 <= i < s.len() ==> spec_is_digit(#[trigger] s[i])
}

/// The number that the digits `s` write in decimal.
pub open spec fn spec_decimal_value(s: Seq<char>) -> int
    decreases s.len(),
{
    if s.len() == 0 {
        0
    } else {
        spec_decimal_value(s.drop_last()) * 10 + spec_digit_value(s.last())
    }
}

/// `s` read as `usize::from_str` reads it: an optional `+`, then decimal
/// digits whose value fits in `usize`.
pub open spec fn spec_parse_usize(s: Seq<char>) -> Option<usize> {
    let digits = if s.len() > 0 && s[0] == '+' { s.drop_first() } else { s };
    if spec_is_digits(digits) && spec_decimal_value(digits) <= usize::MAX {
        Some(spec_decimal_value(digits) as usize)
    } else {
        None
    }
}

/// `n` written in decimal, without leading zeros.
pub open spec fn spec_decimal(n: nat) -> Seq<char>
    decreases n,
{
    if n < 10 {
        seq![spec_digit_char(n as int)]
    } else {
        spec_decimal(n / 10).push(spec_digit_char(n as int % 10))
    }
}

/// The digit written for `d` has the value `d`.
proof fn lemma_digit_char(d: int)
    requires
        0 <= d < 10,
    ensures
        spec_is_digit(spec_digit_char(d)),
        spec_digit_value(spec_digit_char(d)) == d,
{
}

/// The decimal writing of `n` is made of digits and reads back as `n`.
pub proof fn lemma_decimal_digits(n: nat)
    ensures
        spec_is_digits(spec_decimal(n)),
        spec_decimal_value(spec_decimal(n)) == n,
    decreases n,
{
    if n < 10 {
        lemma_digit_char(n as int);
        assert(spec_decimal(n).drop_last() =~= Seq::<char>::empty());
        assert(spec_decimal_value(spec_decimal(n)) == spec_decimal_value(Seq::<char>::empty()) * 10 + spec_digit_value(spec_decimal(n).last()));
    } else {
        lemma_decimal_digits(n / 10);
        lemma_digit_char(n as int % 10);
        let s = spec_decimal(n);
        assert(s.drop_last() == spec_decimal(n / 10));
        assert(s.last() == spec_digit_char(n as int % 10));
        assert((n / 10) * 10 + n % 10 == n) by (nonlinear_arith);
        assert(spec_decimal_value(s) == spec_decimal_value(s.drop_last()) * 10 + spec_digit_value(s.last()));
        assert(spec_decimal_value(s.drop_last()) == n / 10);
        assert(spec_digit_value(s.last()) == n % 10);
        assert forall|i: int| 0 <= i < s.len() implies spec_is_digit(#[trigger] s[i]) by {
            if i < s.len() - 1 {
                assert(s[i] == spec_decimal(n / 10)[i]);
            }
        }
    }
}

/// Writing a `usize` in decimal and reading it back gives it again.
pub proof fn lemma_parse_decimal_round_trip(n: usize)
    ensures
        spec_parse_usize(spec_decimal(n as nat)) == Some(n),
{
    lemma_decimal_digits(n as nat);
    let s = spec_decimal(n as nat);
    assert(spec_is_digit(s[0]));
}

/// A run of digits is worth at least any of its prefixes.
proof fn lemma_decimal_value_grows(s: Seq<char>, i: int)
    requires
        0 <= i <= s.len(),
        forall|k: int| 0 <= k < s.len() ==> spec_is_digit(#[trigger] s[k]),
    ensures
        spec_decimal_value(s.take(i)) <= spec_decimal_value(s),
        0 <= spec_decimal_value(s.take(i)),
    decreases s.len() - i,
{
    if i < s.len() {
        lemma_decimal_value_grows(s, i + 1);
        assert(s.take(i + 1).drop_last() == s.take(i));
        lemma_decimal_value_nonneg(s.take(i));
    } else {
        assert(s.take(i) == s);
        lemma_decimal_value_nonneg(s);
    }
}

/// The value of digits is not negative.
proof fn lemma_decimal_value_nonneg(s: Seq<char>)
    requires
        forall|k: int| 0 <= k < s.len() ==> spec_is_digit(#[trigger] s[k]),
    ensures
        0 <= spec_decimal_value(s),
    decreases s.len(),
{
    if s.len() > 0 {
        lemma_decimal_value_nonneg(s.drop_last());
        assert(spec_is_digit(s[s.len() - 1]));
    }
}

/// `s` read as `usize::from_str` reads it: an optional `+`, then decimal
/// digits; `None` when they are missing, are not all digits or are worth
/// more than `usize::MAX`.
pub fn parse_usize(s: &str) -> (r: Option<usize>)
    ensures
        r == spec_parse_usize(s@),
{
    let chars = chars_of(s);
    let mut start: usize = 0;
    if chars.len() > 0 && chars[0] == '+' {
        start = 1;
    }
    let ghost digits = if s@.len() > 0 && s@[0] == '+' { s@.drop_first() } else { s@ };
    proof {
        assert(digits == chars@.skip(start as int));
    }
    if start == chars.len() {
        return None;
    }
    let mut k: usize = start;
    while k < chars.len()
        invariant
            start <= k <= chars@.len(),
            chars@ == s@,
            digits == (if s@.len() > 0 && s@[0] == '+' { s@.drop_first() } else { s@ }),
            digits == chars@.skip(start as int),
            forall|j: int| start <= j < k ==> spec_is_digit(#[trigger] chars@[j]),
        decreases chars.len() - k,
    {
        if !('0' <= chars[k] && chars[k] <= '9') {
            proof {
                assert(digits[k - start] == chars@[k as int]);
            }
            return None;
        }
        k = k + 1;
    }
    proof {
        assert forall|j: int| 0 <= j < digits.len() implies spec_is_digit(#[trigger] digits[j]) by {
            assert(digits[j] == chars@[j + start]);
        }
    }
    let mut value: usize = 0;
    let mut i: usize = start;
    while i < chars.len()
        invariant
            start <= i <= chars@.len(),
            chars@ == s@,
            digits == (if s@.len() > 0 && s@[0] == '+' { s@.drop_first() } else { s@ }),
            digits == chars@.skip(start as int),
            spec_is_digits(digits),
            value == spec_decimal_value(digits.take(i - start)),
        decreases chars.len() - i,
    {
        let ghost taken = digits.take(i - start + 1);
        proof {
            assert(taken.drop_last() == digits.take(i - start));
            assert(taken.last() == chars@[i as int]);
            assert(spec_is_digit(digits[i - start]));
            lemma_decimal_value_grows(digits, i - start + 1);
        }
        let d = ((chars[i] as u32) - ('0' as u32)) as usize;
        if value > (usize::MAX - d) / 10 {
            proof {
                assert(spec_decimal_value(taken) == value * 10 + d);
                assert(value * 10 + d > usize::MAX) by (nonlinear_arith)
                    requires
                        value > (usize::MAX - d) / 10,
                        d <= 9,
                ;
            }
            return None;
        }
        proof {
            assert(value * 10 + d <= usize::MAX) by (nonlinear_arith)
                requires
                    value <= (usize::MAX - d) / 10,
                    d <= 9,
            ;
        }
        value = value * 10 + d;
        i = i + 1;
    }
    proof {
        assert(digits.take(i - start) == digits);
    }
    Some(value)
}

/// `n` written in decimal.
pub fn usize_to_decimal(n: usize) -> (r: String)
    ensures
        r@ == spec_decimal(n as nat),
{
    let mut out: Vec<char> = Vec::new();
    let mut m: usize = n;
    while m >= 10
        invariant
            spec_decimal(n as nat) == spec_decimal(m as nat) + out@,
        decreases m,
    {
        let c = digit_char(m % 10);
        proof {
            assert(spec_decimal(m as nat) == spec_decimal((m / 10) as nat).push(c));
            assert(spec_decimal((m / 10) as nat).push(c) + out@ == spec_decimal((m / 10) as nat) + (seq![c] + out@));
        }
        let ghost before = out@;
        out.insert(0, c);
        proof {
            assert(out@ == seq![c] + before);
        }
        m = m / 10;
    }
    let c = digit_char(m);
    let ghost before = out@;
    out.insert(0, c);
    proof {
        assert(out@ == seq![c] + before);
        assert(spec_decimal(m as nat) == seq![c]);
    }
    string_from_chars(&out)
}

} // verus!
