use vstd::prelude::*;
use crate::text::{chars_of, string_from_chars, usize_to_decimal, parse_usize, spec_parse_usize, spec_decimal, slice_chars};
use crate::xml::{spec_is_whitespace_char, is_whitespace_char};

verus! {

/// The position of the last `c` in `s`, or -1.
pub open spec fn spec_last_index_of(s: Seq<char>, c: char) -> int
    decreases s.len(),
{
    if s.len() == 0 {
        -1
    } else if s.last() == c {
        s.len() - 1
    } else {
        spec_last_index_of(s.drop_last(), c)
    }
}

/// `s` without its trailing whitespace.
pub open spec fn spec_trim_end(s: Seq<char>) -> Seq<char>
    decreases s.len(),
{
    if s.len() > 0 && spec_is_whitespace_char(s.last()) {
        spec_trim_end(s.drop_last())
    } else {
        s
    }
}

/// Whether `c` is trimmed around a multiplier: whitespace or an `x`.
pub open spec fn spec_is_multiplier_pad(c: char) -> bool {
    spec_is_whitespace_char(c) || c == 'x' || c == 'X'
}

/// `s` without the padding characters at its end.
pub open spec fn spec_trim_pad_end(s: Seq<char>) -> Seq<char>
    decreases s.len(),
{
    if s.len() > 0 && spec_is_multiplier_pad(s.last()) {
        spec_trim_pad_end(s.drop_last())
    } else {
        s
    }
}

/// `s` without the padding characters at its start.
pub open spec fn spec_trim_pad_start(s: Seq<char>) -> Seq<char>
    decreases s.len(),
{
    if s.len() > 0 && spec_is_multiplier_pad(s[0]) {
        spec_trim_pad_start(s.drop_first())
    } else {
        s
    }
}

/// The name before a trailing multiplier such as `Fleet (2x)`, and the
/// multiplier: the text after the last `(`, with trailing whitespace
/// removed, must end in `)`; what lies between, stripped of whitespace and
/// `x`/`X` at both ends, must read as a `usize`. The name loses its trailing
/// whitespace.
pub open spec fn spec_strip_multiplier(s: Seq<char>) -> Option<(Seq<char>, usize)> {
    let p = spec_last_index_of(s, '(');
    if p < 0 {
        None
    } else {
        let rest = spec_trim_end(s.take(p));
        let after = spec_trim_end(s.skip(p + 1));
        if after.len() > 0 && after.last() == ')' {
            let number = spec_trim_pad_start(spec_trim_pad_end(after.drop_last()));
            match spec_parse_usize(number) {
                Some(n) => Some((rest, n)),
                None => None,
            }
        } else {
            None
        }
    }
}

/// The last position of a character lies inside the text.
pub proof fn lemma_last_index_bounds(s: Seq<char>, c: char)
    ensures
        -1 <= spec_last_index_of(s, c) < s.len(),
        spec_last_index_of(s, c) >= 0 ==> s[spec_last_index_of(s, c)] == c,
    decreases s.len(),
{
    if s.len() > 0 && s.last() != c {
        lemma_last_index_bounds(s.drop_last(), c);
    }
}

fn last_index_of(s: &Vec<char>, c: char) -> (r: Option<usize>)
    ensures
        match r {
            Some(i) => i == spec_last_index_of(s@, c),
            None => spec_last_index_of(s@, c) < 0,
        },
{
    let mut i: usize = s.len();
    proof {
        assert(s@.take(s@.len() as int) == s@);
    }
    while i > 0
        invariant
            i <= s@.len(),
            spec_last_index_of(s@, c) == spec_last_index_of(s@.take(i as int), c),
        decreases i,
    {
        proof {
            assert(s@.take(i as int).drop_last() == s@.take(i - 1));
        }
        if s[i - 1] == c {
            return Some(i - 1);
        }
        i = i - 1;
    }
    None
}


fn trim_end(s: &Vec<char>) -> (r: Vec<char>)
    ensures
        r@ == spec_trim_end(s@),
{
    let mut end: usize = s.len();
    proof {
        assert(s@.take(s@.len() as int) == s@);
    }
    while end > 0 && is_whitespace_char(s[end - 1])
        invariant
            end <= s@.len(),
            spec_trim_end(s@) == spec_trim_end(s@.take(end as int)),
        decreases end,
    {
        proof {
            assert(s@.take(end as int).drop_last() == s@.take(end - 1));
        }
        end = end - 1;
    }
    proof {
        assert(s@.take(end as int) == s@.subrange(0, end as int));
    }
    slice_chars(s, 0, end)
}

fn is_multiplier_pad(c: char) -> (r: bool)
    ensures
        r == spec_is_multiplier_pad(c),
{
    is_whitespace_char(c) || c == 'x' || c == 'X'
}

fn trim_pad(s: &Vec<char>) -> (r: Vec<char>)
    ensures
        r@ == spec_trim_pad_start(spec_trim_pad_end(s@)),
{
    let mut end: usize = s.len();
    proof {
        assert(s@.take(s@.len() as int) == s@);
    }
    while end > 0 && is_multiplier_pad(s[end - 1])
        invariant
            end <= s@.len(),
            spec_trim_pad_end(s@) == spec_trim_pad_end(s@.take(end as int)),
        decreases end,
    {
        proof {
            assert(s@.take(end as int).drop_last() == s@.take(end - 1));
        }
        end = end - 1;
    }
    let ghost t = s@.take(end as int);
    proof {
        assert(spec_trim_pad_end(s@) == t);
    }
    let mut start: usize = 0;
    while start < end && is_multiplier_pad(s[start])
        invariant
            start <= end <= s@.len(),
            t == s@.take(end as int),
            spec_trim_pad_start(t) == spec_trim_pad_start(s@.subrange(start as int, end as int)),
        decreases end - start,
    {
        proof {
            assert(s@.subrange(start as int, end as int).drop_first() == s@.subrange(start + 1, end as int));
        }
        start = start + 1;
    }
    proof {
        assert(s@.subrange(0, end as int) == t);
    }
    slice_chars(s, start, end)
}

/// The name before a trailing multiplier such as `Fleet (2x)`, and the
/// multiplier; see [`spec_strip_multiplier`].
pub fn strip_multiplier(s: &str) -> (r: Option<(String, usize)>)
    ensures
        match spec_strip_multiplier(s@) {
            Some((rest, n)) => r matches Some((t, m)) && t@ == rest && m == n,
            None => r is None,
        },
{
    let chars = chars_of(s);
    let p = match last_index_of(&chars, '(') {
        Some(p) => p,
        None => return None,
    };
    proof {
        lemma_last_index_bounds(chars@, '(');
    }
    let before = slice_chars(&chars, 0, p);
    let after_raw = slice_chars(&chars, p + 1, chars.len());
    proof {
        assert(before@ == s@.take(p as int));
        assert(after_raw@ == s@.skip(p + 1));
    }
    let rest = trim_end(&before);
    let after = trim_end(&after_raw);
    if after.len() == 0 || after[after.len() - 1] != ')' {
        return None;
    }
    let inner = slice_chars(&after, 0, after.len() - 1);
    proof {
        assert(inner@ == after@.drop_last());
    }
    let number = trim_pad(&inner);
    let number_text = string_from_chars(&number);
    match parse_usize(number_text.as_str()) {
        Some(n) => Some((string_from_chars(&rest), n)),
        None => None,
    }
}

/// The text `s (2m x)` naming a fleet doubled from `s`, where `s` ends in a
/// multiplier `m` (read by [`spec_strip_multiplier`]) that is then dropped,
/// and `m` is 1 otherwise.
pub open spec fn spec_apply_double_suffix(s: Seq<char>) -> Seq<char> {
    let (name, m) = match spec_strip_multiplier(s) {
        Some((rest, n)) => (rest, n as nat),
        None => (s, 1nat),
    };
    name + " ("@ + spec_decimal(m * 2) + "x)"@
}

/// The name of a fleet doubled from one named `s`: `Fleet` becomes
/// `Fleet (2x)`, and `Fleet (2x)` becomes `Fleet (4x)`.
pub fn apply_double_suffix(s: &str) -> (r: String)
    requires
        match spec_strip_multiplier(s@) {
            Some((_, n)) => n * 2 <= usize::MAX,
            None => true,
        },
    ensures
        r@ == spec_apply_double_suffix(s@),
{
    let (name, mul) = match strip_multiplier(s) {
        Some((rest, n)) => (rest, n),
        None => (s.to_owned(), 1usize),
    };
    let digits = usize_to_decimal(mul * 2);
    let mut out = chars_of(name.as_str());
    let open = chars_of(" (");
    let close = chars_of("x)");
    let ghost prefix = out@;
    let mut i: usize = 0;
    while i < open.len()
        invariant
            i <= open@.len(),
            out@ == prefix + open@.take(i as int),
        decreases open.len() - i,
    {
        out.push(open[i]);
        proof {
            assert(open@.take(i + 1) == open@.take(i as int).push(open@[i as int]));
        }
        i = i + 1;
    }
    proof {
        assert(open@.take(open@.len() as int) == open@);
    }
    let d = chars_of(digits.as_str());
    let ghost prefix2 = out@;
    let mut j: usize = 0;
    while j < d.len()
        invariant
            j <= d@.len(),
            out@ == prefix2 + d@.take(j as int),
        decreases d.len() - j,
    {
        out.push(d[j]);
        proof {
            assert(d@.take(j + 1) == d@.take(j as int).push(d@[j as int]));
        }
        j = j + 1;
    }
    proof {
        assert(d@.take(d@.len() as int) == d@);
    }
    let ghost prefix3 = out@;
    let mut k: usize = 0;
    while k < close.len()
        invariant
            k <= close@.len(),
            out@ == prefix3 + close@.take(k as int),
        decreases close.len() - k,
    {
        out.push(close[k]);
        proof {
            assert(close@.take(k + 1) == close@.take(k as int).push(close@[k as int]));
        }
        k = k + 1;
    }
    proof {
        assert(close@.take(close@.len() as int) == close@);
        assert(out@ == name@ + " ("@ + spec_decimal((mul * 2) as nat) + "x)"@);
    }
    string_from_chars(&out)
}

} // verus!
