use vstd::prelude::*;
use crate::text::{chars_of, string_from_chars};

verus! {

/// Within the fleet files, a few fields are 22-character-long alphanumeric strings.
/// These are actually 16 bytes (128 bits) encoded as URL-safe Base64 without padding.
///
/// This struct represents those Base64 strings. Its value is the 128-bit
/// number whose big-endian bytes are the decoded bytes.
#[derive(Debug, Clone, Copy, PartialEq, Eq, Structural, PartialOrd, Ord, Hash)]
pub struct Key {
    inner: u128,
}

impl View for Key {
    type V = u128;

    closed spec fn view(&self) -> u128 {
        self.inner
    }
}

/// The value of one character of the URL-safe Base64 alphabet.
pub open spec fn spec_decode_char(c: char) -> Option<u8> {
    if 'A' <= c <= 'Z' {
        Some((c as int - 'A' as int) as u8)
    } else if 'a' <= c <= 'z' {
        Some((c as int - 'a' as int + 26) as u8)
    } else if '0' <= c <= '9' {
        Some((c as int - '0' as int + 52) as u8)
    } else if c == '-' {
        Some(62u8)
    } else if c == '_' {
        Some(63u8)
    } else {
        None
    }
}

/// The character of the URL-safe Base64 alphabet for a value below 64.
pub open spec fn spec_encode_char(n: u8) -> char {
    if n < 26 {
        (n as int + 'A' as int) as char
    } else if n < 52 {
        (n as int - 26 + 'a' as int) as char
    } else if n < 62 {
        (n as int - 52 + '0' as int) as char
    } else if n == 62 {
        '-'
    } else {
        '_'
    }
}

/// Whether `s` is the text of a key: 22 characters of the alphabet, the last
/// of which carries only two bits (`A`, `Q`, `g` or `w`).
pub open spec fn spec_is_key_text(s: Seq<char>) -> bool {
    &&& s.len() == 22
    &&& forall|i: int| 0 <= i < 22 ==> (#[trigger] spec_decode_char(s[i])) is Some
    &&& (s[21] == 'A' || s[21] == 'Q' || s[21] == 'g' || s[21] == 'w')
}

/// The number that the first `n` characters of `s` spell in base 64.
pub open spec fn spec_prefix_value(s: Seq<char>, n: nat) -> int
    decreases n,
{
    if n == 0 {
        0
    } else {
        spec_prefix_value(s, (n - 1) as nat) * 64 + spec_decode_char(s[n - 1]).unwrap() as int
    }
}

/// The value of a key's text: 21 six-bit digits followed by two bits.
pub open spec fn spec_decode(s: Seq<char>) -> Option<u128> {
    if spec_is_key_text(s) {
        Some((spec_prefix_value(s, 21) * 4 + spec_decode_char(s[21]).unwrap() as int / 16) as u128)
    } else {
        None
    }
}

/// The text of a key's value.
pub open spec fn spec_encode(v: u128) -> Seq<char> {
    Seq::new(
        22,
        |i: int|
            if i < 21 {
                spec_encode_char(((v >> ((2 + 6 * (20 - i)) as u128)) & 63) as u8)
            } else {
                spec_encode_char(((v & 3) << 4) as u8)
            },
    )
}

pub fn encode_char(n: u8) -> (c: char)
    requires
        n < 64,
    ensures
        c == spec_encode_char(n),
{
    if n < 26 {
        (n + 65u8) as char
    } else if n < 52 {
        (n - 26 + 97u8) as char
    } else if n < 62 {
        (n - 52 + 48u8) as char
    } else if n == 62 {
        '-'
    } else {
        '_'
    }
}

pub fn decode_char(c: char) -> (r: Option<u8>)
    ensures
        r == spec_decode_char(c),
{
    if 'A' <= c && c <= 'Z' {
        Some((c as u32 - 'A' as u32) as u8)
    } else if 'a' <= c && c <= 'z' {
        Some((c as u32 - 'a' as u32 + 26) as u8)
    } else if '0' <= c && c <= '9' {
        Some((c as u32 - '0' as u32 + 52) as u8)
    } else if c == '-' {
        Some(62)
    } else if c == '_' {
        Some(63)
    } else {
        None
    }
}

proof fn lemma_shift_in_digit(x: u128, v: u128, i: u128)
    requires
        i < 21,
        x >> (6 * i) == 0,
        v < 64,
    ensures
        (x << 6) | v == x * 64 + v,
        ((x << 6) | v) >> (6 * (i + 1)) == 0,
{
    assert((x << 6) | v == x * 64 + v) by (bit_vector)
        requires
            i < 21,
            x >> (6 * i) == 0,
            v < 64,
    ;
    assert(((x << 6) | v) >> (6 * (i + 1)) == 0) by (bit_vector)
        requires
            i < 21,
            x >> (6 * i) == 0,
            v < 64,
    ;
}

proof fn lemma_shift_in_last(x: u128, v: u128)
    requires
        x >> 126 == 0,
        v < 4,
    ensures
        (x << 2) | v == x * 4 + v,
{
    assert((x << 2) | v == x * 4 + v) by (bit_vector)
        requires
            x >> 126 == 0,
            v < 4,
    ;
}

proof fn lemma_decode_encode_char(n: u8)
    requires
        n < 64,
    ensures
        spec_decode_char(spec_encode_char(n)) == Some(n),
{
}

proof fn lemma_digit_step(v: u128, s: u128)
    requires
        s <= 116,
    ensures
        (v >> (s + 6)) as int * 64 + ((v >> s) & 63) as int == (v >> s) as int,
{
    assert((v >> (s + 6)) * 64 + ((v >> s) & 63) == (v >> s)) by (bit_vector)
        requires
            s <= 116,
    ;
}

proof fn lemma_prefix_of_encode(v: u128, n: nat)
    requires
        1 <= n <= 21,
    ensures
        spec_prefix_value(spec_encode(v), n) == (v >> ((2 + 6 * (21 - n)) as u128)) as int,
    decreases n,
{
    let t = spec_encode(v);
    if n == 1 {
        assert((v >> 122u128) & 63 == v >> 122u128) by (bit_vector);
        assert(((v >> 122u128) & 63) < 64) by (bit_vector);
        lemma_decode_encode_char(((v >> 122u128) & 63) as u8);
        assert(spec_prefix_value(t, 0) == 0);
    } else {
        lemma_prefix_of_encode(v, (n - 1) as nat);
        let sh = (2 + 6 * (21 - n)) as u128;
        assert(((v >> sh) & 63) < 64) by (bit_vector);
        lemma_decode_encode_char(((v >> sh) & 63) as u8);
        assert(t[n - 1] == spec_encode_char(((v >> sh) & 63) as u8));
        lemma_digit_step(v, sh);
        assert((2 + 6 * (21 - (n - 1))) as u128 == sh + 6);
    }
}

/// Decoding the text of a key's value gives that value back.
pub proof fn lemma_key_text_round_trip(v: u128)
    ensures
        spec_decode(spec_encode(v)) == Some(v),
{
    let t = spec_encode(v);
    assert forall|i: int| 0 <= i < 22 implies (#[trigger] spec_decode_char(t[i])) is Some by {
        if i < 21 {
            let sh = (2 + 6 * (20 - i)) as u128;
            assert(((v >> sh) & 63) < 64) by (bit_vector);
            lemma_decode_encode_char(((v >> sh) & 63) as u8);
        } else {
            assert(((v & 3) << 4) < 64) by (bit_vector);
            lemma_decode_encode_char(((v & 3) << 4) as u8);
        }
    }
    let last = ((v & 3) << 4) as u8;
    assert(last == 0 || last == 16 || last == 32 || last == 48) by {
        assert(((v & 3) << 4) == 0 || ((v & 3) << 4) == 16 || ((v & 3) << 4) == 32
            || ((v & 3) << 4) == 48) by (bit_vector);
    }
    assert(((v & 3) << 4) < 64) by (bit_vector);
    lemma_decode_encode_char(last);
    assert(spec_is_key_text(t));
    lemma_prefix_of_encode(v, 21);
    assert((v >> 2u128) * 4 + ((v & 3) << 4) / 16 == v) by (bit_vector);
}

/// A number below 2^120 with six bits put under it: the two parts come
/// back apart.
proof fn lemma_split64(x: u128, d: u128)
    requires
        x < 0x0100_0000_0000_0000_0000_0000_0000_0000u128,
        d < 64,
    ensures
        (x << 6u128) | d == x * 64 + d,
        ((x << 6u128) | d) >> 6u128 == x,
        ((x << 6u128) | d) & 63u128 == d,
{
    assert((x << 6u128) | d == x * 64 + d) by (bit_vector)
        requires x < 0x0100_0000_0000_0000_0000_0000_0000_0000u128, d < 64;
    assert(((x << 6u128) | d) >> 6u128 == x) by (bit_vector)
        requires x < 0x0100_0000_0000_0000_0000_0000_0000_0000u128, d < 64;
    assert(((x << 6u128) | d) & 63u128 == d) by (bit_vector)
        requires x < 0x0100_0000_0000_0000_0000_0000_0000_0000u128, d < 64;
}

/// A number below 2^126 with two bits put under it: the two parts come back
/// apart.
proof fn lemma_split4(x: u128, q: u128)
    requires
        x < 0x4000_0000_0000_0000_0000_0000_0000_0000u128,
        q < 4,
    ensures
        (x << 2u128) | q == x * 4 + q,
        ((x << 2u128) | q) >> 2u128 == x,
        (((x << 2u128) | q) & 3u128) << 4u128 == q * 16,
{
    assert((x << 2u128) | q == x * 4 + q) by (bit_vector)
        requires x < 0x4000_0000_0000_0000_0000_0000_0000_0000u128, q < 4;
    assert(((x << 2u128) | q) >> 2u128 == x) by (bit_vector)
        requires x < 0x4000_0000_0000_0000_0000_0000_0000_0000u128, q < 4;
    assert((((x << 2u128) | q) & 3u128) << 4u128 == q * 16) by (bit_vector)
        requires x < 0x4000_0000_0000_0000_0000_0000_0000_0000u128, q < 4;
}

/// Encoding the value of a character of the alphabet gives the character.
proof fn lemma_encode_decode_char(c: char)
    requires
        spec_decode_char(c) is Some,
    ensures
        spec_decode_char(c)->Some_0 < 64,
        spec_encode_char(spec_decode_char(c)->Some_0) == c,
{
}

/// The prefixes of a text of digits stay below a power of 64 that fits 126
/// bits.
proof fn lemma_prefix_bound(s: Seq<char>, n: nat)
    requires
        n <= 21,
        s.len() >= n,
        forall|i: int| 0 <= i < n ==> (#[trigger] spec_decode_char(s[i])) is Some,
    ensures
        0 <= spec_prefix_value(s, n),
        spec_prefix_value(s, n) < pow64(n),
        pow64(n) <= pow64(21),
    decreases n,
{
    reveal_with_fuel(pow64, 2);
    if n > 0 {
        lemma_prefix_bound(s, (n - 1) as nat);
        lemma_encode_decode_char(s[n - 1]);
        let p = spec_prefix_value(s, (n - 1) as nat);
        let d = spec_decode_char(s[n - 1])->Some_0 as int;
        assert(p * 64 + d < pow64((n - 1) as nat) * 64) by (nonlinear_arith)
            requires 0 <= p < pow64((n - 1) as nat), 0 <= d < 64;
    }
    lemma_pow64_mono(n, 21);
}

/// 64 to the power `n`.
pub open spec fn pow64(n: nat) -> int
    decreases n,
{
    if n == 0 { 1 } else { 64 * pow64((n - 1) as nat) }
}

/// Powers of 64 grow with the exponent.
proof fn lemma_pow64_mono(a: nat, b: nat)
    requires
        a <= b,
    ensures
        1 <= pow64(a) <= pow64(b),
    decreases b,
{
    reveal_with_fuel(pow64, 2);
    if b > 0 {
        if a < b {
            lemma_pow64_mono(a, (b - 1) as nat);
        } else {
            lemma_pow64_mono((a - 1) as nat, (b - 1) as nat);
        }
    }
}

/// The digits a key's value holds from the top: shifting it right past the
/// last `21 - m` digits and the two low bits leaves the value of the first
/// `m` digits of its text.
proof fn lemma_decoded_digits(s: Seq<char>, m: nat)
    requires
        spec_is_key_text(s),
        1 <= m <= 21,
    ensures
        (spec_decode(s)->Some_0 >> ((2 + 6 * (21 - m)) as u128)) as int == spec_prefix_value(s, m),
    decreases 21 - m,
{
    let v = spec_decode(s)->Some_0;
    lemma_prefix_bound(s, 21);
    reveal_with_fuel(pow64, 22);
    assert(pow64(21) == 0x4000_0000_0000_0000_0000_0000_0000_0000int);
    lemma_encode_decode_char(s[21]);
    let q = spec_decode_char(s[21])->Some_0 as int / 16;
    let p21 = spec_prefix_value(s, 21);
    if m == 21 {
        let x = p21 as u128;
        let qq = q as u128;
        lemma_split4(x, qq);
        assert(v == (x << 2u128) | qq);
    } else {
        lemma_decoded_digits(s, m + 1);
        lemma_prefix_bound(s, m + 1);
        lemma_pow64_mono(m + 1, 21);
        lemma_encode_decode_char(s[m as int]);
        let sh = (2 + 6 * (21 - (m + 1))) as u128;
        let x = spec_prefix_value(s, m) as u128;
        let d = spec_decode_char(s[m as int])->Some_0 as u128;
        assert(spec_prefix_value(s, m + 1) == spec_prefix_value(s, m) * 64 + d as int);
        lemma_prefix_bound(s, m);
        lemma_pow64_mono(m, 21);
        lemma_pow64_mono(m, 20);
        assert(pow64(20) == 0x0100_0000_0000_0000_0000_0000_0000_0000int);
        lemma_split64(x, d);
        assert((v >> sh) == (x << 6u128) | d);
        assert((v >> (sh + 6)) == (v >> sh) >> 6u128) by (bit_vector)
            requires sh <= 116;
        assert((2 + 6 * (21 - m)) as u128 == sh + 6);
    }
}

/// Encoding the value of a key's text gives the text back: the text of a
/// key and its value stand for each other one for one.
pub proof fn lemma_key_value_round_trip(s: Seq<char>)
    requires
        spec_is_key_text(s),
    ensures
        spec_decode(s) is Some,
        spec_encode(spec_decode(s)->Some_0) == s,
{
    let v = spec_decode(s)->Some_0;
    let t = spec_encode(v);
    assert forall|i: int| 0 <= i < 22 implies t[i] == s[i] by {
        lemma_encode_decode_char(s[i]);
        if i < 21 {
            lemma_decoded_digits(s, (i + 1) as nat);
            lemma_prefix_bound(s, (i + 1) as nat);
            lemma_prefix_bound(s, i as nat);
            lemma_pow64_mono((i + 1) as nat, 21);
            reveal_with_fuel(pow64, 22);
            let sh = (2 + 6 * (20 - i)) as u128;
            assert((2 + 6 * (21 - (i + 1))) as u128 == sh);
            let x = spec_prefix_value(s, i as nat) as u128;
            let d = spec_decode_char(s[i])->Some_0 as u128;
            assert(spec_prefix_value(s, (i + 1) as nat) == spec_prefix_value(s, i as nat) * 64 + d as int);
            lemma_pow64_mono(i as nat, 20);
            assert(pow64(20) == 0x0100_0000_0000_0000_0000_0000_0000_0000int);
            lemma_split64(x, d);
            assert((v >> sh) == (x << 6u128) | d);
        } else {
            lemma_prefix_bound(s, 21);
            reveal_with_fuel(pow64, 22);
            let x = spec_prefix_value(s, 21) as u128;
            let c = spec_decode_char(s[21])->Some_0 as u128;
            assert(c == 0 || c == 16 || c == 32 || c == 48);
            let qq = c / 16;
            lemma_split4(x, qq);
            assert(v == (x << 2u128) | qq);
            assert(qq * 16 == c);
        }
    }
    assert(t =~= s);
}

impl Key {
    /// The key whose value is `v`.
    pub fn from_u128(v: u128) -> (r: Key)
        ensures
            r@ == v,
    {
        Key { inner: v }
    }

    /// The bits that keys written by the game may have set.
    ///
    /// After testing a very large number of keys from fleet files generated by the game,
    /// a few bits in the decoded bytes appear to always be left as 0's.
    /// This has 0's set at those bits, and 1's elsewhere.
    pub fn mask_key() -> (r: Key)
        ensures
            r@ == Self::spec_mask(),
    {
        Key { inner: 0xffff_ffff_ffff_ff4f_bfff_ffff_ffff_ffffu128 }
    }

    pub open spec fn spec_mask() -> u128 {
        0xffff_ffff_ffff_ff4f_bfff_ffff_ffff_ffffu128
    }

    /// Whether this key has no bit set outside of [`Key::mask_key`].
    pub fn is_masked(self) -> (r: bool)
        ensures
            r == (self@ & !Self::spec_mask() == 0),
    {
        self.and(Self::mask_key().not()).inner == 0
    }

    /// This key with every bit outside of [`Key::mask_key`] cleared.
    pub fn mask(self) -> (r: Key)
        ensures
            r@ == self@ & Self::spec_mask(),
    {
        self.and(Self::mask_key())
    }

    /// The bitwise or of two keys.
    pub fn or(self, other: Key) -> (r: Key)
        ensures
            r@ == self@ | other@,
    {
        Key { inner: self.inner | other.inner }
    }

    /// The bitwise and of two keys.
    pub fn and(self, other: Key) -> (r: Key)
        ensures
            r@ == self@ & other@,
    {
        Key { inner: self.inner & other.inner }
    }

    /// The bitwise exclusive or of two keys.
    pub fn xor(self, other: Key) -> (r: Key)
        ensures
            r@ == self@ ^ other@,
    {
        Key { inner: self.inner ^ other.inner }
    }

    /// The bitwise complement of a key.
    pub fn not(self) -> (r: Key)
        ensures
            r@ == !self@,
    {
        Key { inner: !self.inner }
    }

    /// Decodes the 22-character text of a key, or gives `None` when `s` is not
    /// such a text.
    pub fn from_str(s: &str) -> (r: Option<Key>)
        ensures
            r is None <==> spec_decode(s@) is None,
            r matches Some(k) ==> spec_decode(s@) == Some(k@),
    {
        let chars = chars_of(s);
        if chars.len() != 22 {
            return None;
        }
        let last = chars[21];
        if !(last == 'A' || last == 'Q' || last == 'g' || last == 'w') {
            return None;
        }
        let last_value = match decode_char(last) {
            Some(v) => v,
            None => return None,
        };
        let mut inner: u128 = 0;
        let mut i: usize = 0;
        assert(0u128 >> 0u128 == 0) by (bit_vector);
        while i < 21
            invariant
                chars@ == s@,
                chars@.len() == 22,
                i <= 21,
                inner as int == spec_prefix_value(chars@, i as nat),
                inner >> (6 * i as u128) == 0,
                forall|j: int| 0 <= j < i ==> (#[trigger] spec_decode_char(chars@[j])) is Some,
            decreases 21 - i,
        {
            let value = match decode_char(chars[i]) {
                Some(v) => v,
                None => {
                    proof {
                        assert(spec_decode_char(chars@[i as int]) is None);
                        assert(!spec_is_key_text(s@));
                    }
                    return None;
                },
            };
            proof {
                lemma_shift_in_digit(inner, value as u128, i as u128);
            }
            inner = (inner << 6) | (value as u128);
            i = i + 1;
        }
        proof {
            assert(spec_decode_char(chars@[21]) is Some);
            assert(spec_is_key_text(s@));
            assert(inner >> 126 == 0);
            assert(last_value < 64);
            assert(last_value < 64 ==> (last_value >> 4) < 4) by (bit_vector);
            assert((last_value >> 4) == last_value / 16) by (bit_vector);
            assert(inner >> 126 == 0 ==> inner < 0x4000_0000_0000_0000_0000_0000_0000_0000u128) by (bit_vector);
            lemma_shift_in_last(inner, (last_value >> 4) as u128);
        }
        inner = (inner << 2) | ((last_value >> 4) as u128);
        Some(Key { inner })
    }

    /// The 22-character text of this key.
    pub fn to_str(self) -> (r: String)
        ensures
            r@ == spec_encode(self@),
    {
        let v = self.inner;
        let mut out: Vec<char> = Vec::new();
        let mut i: u128 = 0;
        while i < 21
            invariant
                i <= 21,
                out@ == spec_encode(v).take(i as int),
            decreases 21 - i,
        {
            let shift: u128 = 2 + 6 * (20 - i);
            let digit = ((v >> shift) & 63) as u8;
            assert(((v >> shift) & 63) < 64) by (bit_vector);
            let c = encode_char(digit);
            out.push(c);
            assert(out@ == spec_encode(v).take(i as int + 1));
            i = i + 1;
        }
        assert(((v & 3) << 4) < 64) by (bit_vector);
        let c = encode_char(((v & 3) << 4) as u8);
        out.push(c);
        assert(out@ == spec_encode(v));
        string_from_chars(&out)
    }
}

} // verus!

verus! {

/// The big-endian bytes of `v`: byte `i` holds bits `8 * (15 - i)` and up.
pub open spec fn spec_be_bytes(v: u128) -> Seq<u8> {
    Seq::new(16, |i: int| ((v >> (8 * (15 - i)) as u128) & 0xffu128) as u8)
}

/// The number whose big-endian bytes are `b`.
pub open spec fn spec_be_value(b: Seq<u8>) -> u128
    decreases b.len(),
{
    if b.len() == 0 {
        0
    } else {
        (spec_be_value(b.drop_last()) << 8u128) | (b.last() as u128)
    }
}

proof fn lemma_be_step(v: u128, k: u128)
    by (bit_vector)
    requires
        k < 16,
    ensures
        ((v >> ((8u128 * (16u128 - k)) as u128)) << 8u128) | (((v >> ((8u128 * (15u128 - k)) as u128)) & 0xffu128) as u8 as u128)
            == v >> ((8u128 * (15u128 - k)) as u128),
        v >> (8u128 * 16u128) == 0,
        v >> 0u128 == v,
{
}

proof fn lemma_be_prefix(v: u128, k: nat)
    requires
        k <= 16,
    ensures
        spec_be_value(spec_be_bytes(v).take(k as int)) == v >> (8 * (16 - k)) as u128,
    decreases k,
{
    lemma_be_step(v, 0);
    if k > 0 {
        lemma_be_prefix(v, (k - 1) as nat);
        let b = spec_be_bytes(v).take(k as int);
        assert(b.drop_last() == spec_be_bytes(v).take(k - 1));
        lemma_be_step(v, (k - 1) as u128);
        assert(b.last() == ((v >> (8 * (15 - (k - 1))) as u128) & 0xffu128) as u8);

    } else {
        assert(spec_be_bytes(v).take(0) == Seq::<u8>::empty());
    }
}

/// A key's value survives a trip through its big-endian bytes.
pub proof fn lemma_key_bytes_round_trip(v: u128)
    ensures
        spec_be_value(spec_be_bytes(v)) == v,
{
    lemma_be_prefix(v, 16);
    assert(spec_be_bytes(v).take(16) == spec_be_bytes(v));
    lemma_be_step(v, 0);
}

/// Why a text could not be read as a key.
#[derive(Debug, Clone, Copy)]
pub struct KeyFromStrError;

impl Key {
    /// The 16 bytes of this key, most significant first.
    pub fn to_bytes(self) -> (r: [u8; 16])
        ensures
            r@ == spec_be_bytes(self@),
    {
        let mut r = [0u8; 16];
        let mut i: usize = 0;
        while i < 16
            invariant
                i <= 16,
                r@.len() == 16,
                forall|j: int| 0 <= j < i ==> r@[j] == spec_be_bytes(self@)[j],
            decreases 16 - i,
        {
            let shift: u128 = 8 * (15 - i as u128);
            r.set(i, ((self.inner >> shift) & 0xff) as u8);
            i = i + 1;
        }
        proof {
            assert(r@ == spec_be_bytes(self@));
        }
        r
    }

    /// The key whose bytes, most significant first, are `bytes`.
    pub fn from_bytes(bytes: [u8; 16]) -> (r: Key)
        ensures
            r@ == spec_be_value(bytes@),
    {
        let mut inner: u128 = 0;
        let mut i: usize = 0;
        while i < 16
            invariant
                i <= 16,
                bytes@.len() == 16,
                inner == spec_be_value(bytes@.take(i as int)),
            decreases 16 - i,
        {
            proof {
                assert(bytes@.take(i as int + 1).drop_last() == bytes@.take(i as int));
            }
            inner = (inner << 8u128) | (bytes[i] as u128);
            i = i + 1;
        }
        proof {
            assert(bytes@.take(16) == bytes@);
        }
        Key { inner }
    }

    /// The key written as `s`, which must be the text of a key.
    pub fn from_str_unchecked(s: &str) -> (r: Key)
        requires
            spec_decode(s@) is Some,
        ensures
            spec_decode(s@) == Some(r@),
    {
        match Key::from_str(s) {
            Some(key) => key,
            None => {
                proof {
                    assert(false);
                }
                Key { inner: 0 }
            },
        }
    }

    /// Reads the text of a key, failing with [`KeyFromStrError`].
    pub fn parse(s: &str) -> (r: Result<Key, KeyFromStrError>)
        ensures
            r is Err <==> spec_decode(s@) is None,
            r matches Ok(k) ==> spec_decode(s@) == Some(k@),
    {
        match Key::from_str(s) {
            Some(key) => Ok(key),
            None => Err(KeyFromStrError),
        }
    }
}

} // verus!

verus! {

/// The value of the `i`-th character of `s` in the Base64 alphabet.
pub open spec fn spec_digit(s: Seq<char>, i: int) -> int {
    spec_decode_char(s[i])->Some_0 as int
}

/// Byte `k` of the Base64 decoding of `s`: each group of four characters
/// (24 bits) gives three bytes, the first two characters' 12 bits giving
/// the first byte and half of the second, and so on; the last group holds
/// two characters and gives one byte.
pub open spec fn spec_base64_byte(s: Seq<char>, k: int) -> u8 {
    let g = k / 3;
    let r = k % 3;
    if r == 0 {
        (spec_digit(s, 4 * g) * 4 + spec_digit(s, 4 * g + 1) / 16) as u8
    } else if r == 1 {
        ((spec_digit(s, 4 * g + 1) % 16) * 16 + spec_digit(s, 4 * g + 2) / 4) as u8
    } else {
        ((spec_digit(s, 4 * g + 2) % 4) * 64 + spec_digit(s, 4 * g + 3)) as u8
    }
}

/// The URL-safe, unpadded Base64 decoding of a 22-character text into 16
/// bytes: every character of the alphabet, and the bits of the last one
/// that fall past the 16 bytes all 0; else none.
pub open spec fn spec_base64_decode(s: Seq<char>) -> Option<Seq<u8>> {
    if s.len() == 22 && (forall|i: int| 0 <= i < 22 ==> (#[trigger] spec_decode_char(s[i])) is Some)
        && spec_digit(s, 21) % 16 == 0 {
        Some(Seq::new(16, |k: int| spec_base64_byte(s, k)))
    } else {
        None
    }
}

/// The number that the first `m` bytes of `b` spell in base 256.
pub open spec fn spec_bytes_int(b: Seq<u8>, m: nat) -> int
    decreases m,
{
    if m == 0 { 0 } else { spec_bytes_int(b, (m - 1) as nat) * 256 + b[m - 1] as int }
}

proof fn lemma_shift_byte(x: u128, b: u128)
    requires
        x < 0x0100_0000_0000_0000_0000_0000_0000_0000u128,
        b < 256,
    ensures
        (x << 8u128) | b == x * 256 + b,
{
    assert((x << 8u128) | b == x * 256 + b) by (bit_vector)
        requires x < 0x0100_0000_0000_0000_0000_0000_0000_0000u128, b < 256;
}

/// The big-endian value of the first `m` bytes, as a number.
proof fn lemma_be_value_int(b: Seq<u8>, m: nat)
    requires
        m <= 16,
        m <= b.len(),
    ensures
        spec_be_value(b.take(m as int)) as int == spec_bytes_int(b, m),
        0 <= spec_bytes_int(b, m) < pow256(m),
    decreases m,
{
    reveal_with_fuel(pow256, 2);
    if m == 0 {
        assert(b.take(0) =~= Seq::<u8>::empty());
    } else {
        lemma_be_value_int(b, (m - 1) as nat);
        assert(b.take(m as int).drop_last() == b.take(m - 1));
        assert(b.take(m as int).last() == b[m - 1]);
        let x = spec_be_value(b.take(m - 1));
        lemma_pow256_le((m - 1) as nat);
        lemma_shift_byte(x, b[m - 1] as u128);
        let p = spec_bytes_int(b, (m - 1) as nat);
        assert(p * 256 + (b[m - 1] as int) < pow256((m - 1) as nat) * 256) by (nonlinear_arith)
            requires 0 <= p < pow256((m - 1) as nat), 0 <= (b[m - 1] as int) < 256;
    }
}

/// 256 to the power `n`.
pub open spec fn pow256(n: nat) -> int
    decreases n,
{
    if n == 0 { 1 } else { 256 * pow256((n - 1) as nat) }
}

/// 256 to a power below 16 is at most 2^120.
proof fn lemma_pow256_le(n: nat)
    requires
        n <= 15,
    ensures
        pow256(n) <= 0x0100_0000_0000_0000_0000_0000_0000_0000int,
{
    reveal_with_fuel(pow256, 16);
    if n < 15 {
        lemma_pow256_mono(n, 15);
    }
}

proof fn lemma_pow256_mono(a: nat, b: nat)
    requires
        a <= b,
    ensures
        1 <= pow256(a) <= pow256(b),
    decreases b,
{
    reveal_with_fuel(pow256, 2);
    if b > 0 {
        if a < b {
            lemma_pow256_mono(a, (b - 1) as nat);
        } else {
            lemma_pow256_mono((a - 1) as nat, (b - 1) as nat);
        }
    }
}

/// Three bytes of a group spell the group's four characters.
proof fn lemma_group_bytes(a: int, b: int, c: int, d: int)
    requires
        0 <= a < 64,
        0 <= b < 64,
        0 <= c < 64,
        0 <= d < 64,
    ensures
        (a * 4 + b / 16) * 65536 + ((b % 16) * 16 + c / 4) * 256 + ((c % 4) * 64 + d)
            == ((a * 64 + b) * 64 + c) * 64 + d,
        0 <= a * 4 + b / 16 < 256,
        0 <= (b % 16) * 16 + c / 4 < 256,
        0 <= (c % 4) * 64 + d < 256,
{
    let b1 = b / 16;
    let b0 = b % 16;
    let c1 = c / 4;
    let c0 = c % 4;
    assert(b == 16 * b1 + b0);
    assert(c == 4 * c1 + c0);
    assert((a * 4 + b1) * 65536 + (b0 * 16 + c1) * 256 + (c0 * 64 + d)
        == ((a * 64 + (16 * b1 + b0)) * 64 + (4 * c1 + c0)) * 64 + d) by (nonlinear_arith);
}

/// The first `3g` bytes of the decoding spell the first `4g` characters.
proof fn lemma_groups(s: Seq<char>, g: nat)
    requires
        g <= 5,
        spec_base64_decode(s) is Some,
    ensures
        spec_bytes_int(spec_base64_decode(s)->Some_0, 3 * g) == spec_prefix_value(s, 4 * g),
    decreases g,
{
    let bytes = spec_base64_decode(s)->Some_0;
    if g > 0 {
        lemma_groups(s, (g - 1) as nat);
        let h = (g - 1) as int;
        let a = spec_digit(s, 4 * h);
        let b = spec_digit(s, 4 * h + 1);
        let c = spec_digit(s, 4 * h + 2);
        let d = spec_digit(s, 4 * h + 3);
        lemma_encode_decode_char(s[4 * h]);
        lemma_encode_decode_char(s[4 * h + 1]);
        lemma_encode_decode_char(s[4 * h + 2]);
        lemma_encode_decode_char(s[4 * h + 3]);
        lemma_group_bytes(a, b, c, d);
        assert((3 * h) / 3 == h && (3 * h) % 3 == 0);
        assert((3 * h + 1) / 3 == h && (3 * h + 1) % 3 == 1);
        assert((3 * h + 2) / 3 == h && (3 * h + 2) % 3 == 2);
        assert(bytes[3 * h] as int == a * 4 + b / 16);
        assert(bytes[3 * h + 1] as int == (b % 16) * 16 + c / 4);
        assert(bytes[3 * h + 2] as int == (c % 4) * 64 + d);
        let p = spec_bytes_int(bytes, (3 * h) as nat);
        reveal_with_fuel(spec_bytes_int, 4);
        reveal_with_fuel(spec_prefix_value, 5);
        assert(spec_bytes_int(bytes, (3 * h + 3) as nat)
            == ((p * 256 + bytes[3 * h] as int) * 256 + bytes[3 * h + 1] as int) * 256 + bytes[3 * h + 2] as int);
        assert(spec_prefix_value(s, (4 * h + 4) as nat)
            == (((spec_prefix_value(s, (4 * h) as nat) * 64 + a) * 64 + b) * 64 + c) * 64 + d);
        assert(((p * 256 + (a * 4 + b / 16)) * 256 + ((b % 16) * 16 + c / 4)) * 256 + ((c % 4) * 64 + d)
            == p * 16777216 + ((a * 4 + b / 16) * 65536 + ((b % 16) * 16 + c / 4) * 256 + ((c % 4) * 64 + d))) by (nonlinear_arith);
        assert((((p * 64 + a) * 64 + b) * 64 + c) * 64 + d == p * 16777216 + (((a * 64 + b) * 64 + c) * 64 + d)) by (nonlinear_arith);
    }
}

/// Reading a key's text is URL-safe, unpadded Base64 decoding: a text
/// reads as a key exactly when it decodes, and the key's value is the
/// number the 16 decoded bytes spell, most significant first.
pub proof fn lemma_decode_is_base64(s: Seq<char>)
    ensures
        spec_decode(s) == match spec_base64_decode(s) {
            Some(b) => Some(spec_be_value(b)),
            None => None::<u128>,
        },
{
    let ok = s.len() == 22 && (forall|i: int| 0 <= i < 22 ==> (#[trigger] spec_decode_char(s[i])) is Some);
    if ok {
        lemma_encode_decode_char(s[21]);
        let d = spec_digit(s, 21);
        let c = s[21];
        assert(spec_is_key_text(s) <==> d % 16 == 0) by {
            if d % 16 == 0 {
                assert(d == 0 || d == 16 || d == 32 || d == 48);
                assert(c == spec_encode_char(d as u8));
            }
        }
        if spec_is_key_text(s) {
            let bytes = spec_base64_decode(s)->Some_0;
            lemma_groups(s, 5);
            lemma_be_value_int(bytes, 16);
            assert(bytes.take(16) == bytes);
            lemma_encode_decode_char(s[20]);
            let a = spec_digit(s, 20);
            assert(15int / 3 == 5 && 15int % 3 == 0);
            assert(bytes[15] as int == a * 4 + d / 16);
            assert(spec_bytes_int(bytes, 16) == spec_prefix_value(s, 20) * 256 + a * 4 + d / 16);
            assert(spec_prefix_value(s, 21) == spec_prefix_value(s, 20) * 64 + a);
            assert(spec_bytes_int(bytes, 16) == spec_prefix_value(s, 21) * 4 + d / 16);
        }
    }
}

} // verus!
