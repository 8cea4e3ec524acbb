//! Character-level helpers shared by the command handlers: string equality,
//! unsigned decimal parsing with the semantics of `u64::from_str`, and the
//! boolean switch vocabularies accepted on the command line.

use vstd::prelude::*;
use vstd::utf8::{encode_utf8, encode_scalar};

use crate::bounded::{text_chars, text_new, text_push, TEXT_CAPACITY};

verus! {

/// True when `c` is an ASCII decimal digit.
pub open spec fn is_digit(c: char) -> bool {
    '0' <= c && c <= '9'
}

/// The numeric value of an ASCII decimal digit.
pub open spec fn digit_value(c: char) -> nat {
    (c as u32 - '0' as u32) as nat
}

/// Every character of `s` is an ASCII decimal digit.
pub open spec fn all_digits(s: Seq<char>) -> bool {
    forall|i: int| 0 <= i < s.len() ==> is_digit(#[trigger] s[i])
}

/// The value of a string of decimal digits, most significant first.
pub open spec fn digits_value(s: Seq<char>) -> nat
    decreases s.len(),
{
    if s.len() == 0 {
        0
    } else {
        digits_value(s.drop_last()) * 10 + digit_value(s.last())
    }
}

/// The digits that an unsigned `from_str` reads: one optional leading `+`
/// is skipped.
pub open spec fn unsigned_body(s: Seq<char>) -> Seq<char> {
    if s.len() > 0 && s[0] == '+' {
        s.drop_first()
    } else {
        s
    }
}

/// Parsing an unsigned decimal integer no larger than `max`, as the standard
/// library's `from_str` for unsigned types does: an optional `+`, then at
/// least one digit and nothing else, and a value that fits.
pub open spec fn parse_unsigned(s: Seq<char>, max: nat) -> Option<nat> {
    let d = unsigned_body(s);
    if d.len() > 0 && all_digits(d) && digits_value(d) <= max {
        Some(digits_value(d))
    } else {
        None
    }
}

/// Appending digits never makes the value smaller.
pub proof fn lemma_digits_value_prefix(s: Seq<char>, k: int)
    requires
        0 <= k <= s.len(),
        all_digits(s),
    ensures
        digits_value(s.subrange(0, k)) <= digits_value(s),
    decreases s.len() - k,
{
    if k < s.len() {
        lemma_digits_value_prefix(s, k + 1);
        let p = s.subrange(0, k + 1);
        assert(p.drop_last() =~= s.subrange(0, k));
    } else {
        assert(s.subrange(0, k) =~= s);
    }
}

/// Character-wise equality of two strings.
pub fn str_eq(a: &str, b: &str) -> (r: bool)
    ensures
        r == (a@ == b@),
{
    let n = a.unicode_len();
    let m = b.unicode_len();
    if n != m {
        return false;
    }
    let mut i: usize = 0;
    while i < n
        invariant
            n == a@.len(),
            m == b@.len(),
            n == m,
            i <= n,
            forall|j: int| 0 <= j < i ==> a@[j] == b@[j],
        decreases n - i,
    {
        if a.get_char(i) != b.get_char(i) {
            return false;
        }
        i = i + 1;
    }
    assert(a@ =~= b@);
    true
}

/// Parses an unsigned decimal integer that must not exceed `max`.
pub fn parse_bounded(s: &str, max: u64) -> (r: Option<u64>)
    ensures
        match parse_unsigned(s@, max as nat) {
            Some(v) => r == Some(v as u64),
            None => r is None,
        },
{
    let n = s.unicode_len();
    let mut start: usize = 0;
    if n > 0 && s.get_char(0) == '+' {
        start = 1;
    }
    let ghost d = unsigned_body(s@);
    assert(d =~= s@.subrange(start as int, n as int));
    if start >= n {
        return None;
    }
    let mut value: u64 = 0;
    let mut i: usize = start;
    while i < n
        invariant
            n == s@.len(),
            start <= i <= n,
            d =~= s@.subrange(start as int, n as int),
            d == unsigned_body(s@),
            all_digits(d.subrange(0, i - start)),
            value as nat == digits_value(d.subrange(0, i - start)),
            value <= max,
        decreases n - i,
    {
        let c = s.get_char(i);
        assert(d[i - start] == c);
        if c < '0' || c > '9' {
            assert(!is_digit(d[i - start]));
            assert(!all_digits(d));
            return None;
        }
        let dv = (c as u32 - '0' as u32) as u64;
        let ghost next = d.subrange(0, i - start + 1);
        assert(next.drop_last() =~= d.subrange(0, i - start));
        assert(next.last() == c);
        let wide: u128 = value as u128 * 10 + dv as u128;
        if wide > max as u128 {
            proof {
                if all_digits(d) {
                    lemma_digits_value_prefix(d, i - start + 1);
                }
            }
            return None;
        }
        value = wide as u64;
        i = i + 1;
    }
    assert(d.subrange(0, n - start) =~= d);
    Some(value)
}

/// The boolean vocabulary of the on/off options: `on`, `true`, `1`, `yes`
/// switch on, `off`, `false`, `0`, `no` switch off; anything else is refused.
pub open spec fn on_off(s: Seq<char>) -> Option<bool> {
    if s == "on"@ || s == "true"@ || s == "1"@ || s == "yes"@ {
        Some(true)
    } else if s == "off"@ || s == "false"@ || s == "0"@ || s == "no"@ {
        Some(false)
    } else {
        None
    }
}

/// The vocabulary of the CSI feature switches: that of [`on_off`], and also
/// `enable` / `disable`.
pub open spec fn feature_switch(s: Seq<char>) -> Option<bool> {
    if s == "enable"@ {
        Some(true)
    } else if s == "disable"@ {
        Some(false)
    } else {
        on_off(s)
    }
}

/// Reads an on/off value.
pub fn parse_on_off(s: &str) -> (r: Option<bool>)
    ensures
        r == on_off(s@),
{
    if str_eq(s, "on") || str_eq(s, "true") || str_eq(s, "1") || str_eq(s, "yes") {
        Some(true)
    } else if str_eq(s, "off") || str_eq(s, "false") || str_eq(s, "0") || str_eq(s, "no") {
        Some(false)
    } else {
        None
    }
}

/// Reads a CSI feature switch.
pub fn parse_feature_switch(s: &str) -> (r: Option<bool>)
    ensures
        r == feature_switch(s@),
{
    if str_eq(s, "enable") {
        Some(true)
    } else if str_eq(s, "disable") {
        Some(false)
    } else {
        parse_on_off(s)
    }
}

/// `String::push` of the standard library: appends `c` to the end of `s`.
#[verifier::external_body]
pub fn string_push(s: &mut String, c: char)
    ensures
        final(s)@ == old(s)@.push(c),
{
    s.push(c)
}

/// The separator that the line preprocessor forwards for a space typed
/// inside quotes, so that the word splitter keeps the quoted text together.
pub const QUOTED_SPACE: char = '\u{1F}';

/// A free-text value as the user meant it: every quoted-space separator
/// turned back into a space.
pub open spec fn decode_spaces(s: Seq<char>) -> Seq<char> {
    s.map_values(|c: char| if c == QUOTED_SPACE { ' ' } else { c })
}

/// The number of bytes of the UTF-8 encoding of `s`.
pub open spec fn utf8_len(s: Seq<char>) -> nat {
    encode_utf8(s).len()
}

/// The UTF-8 encoding of a concatenation is the concatenation of the
/// encodings.
pub proof fn lemma_encode_utf8_concat(a: Seq<char>, b: Seq<char>)
    ensures
        encode_utf8(a + b) == encode_utf8(a) + encode_utf8(b),
    decreases a.len(),
{
    if a.len() == 0 {
        assert(a + b =~= b);
        assert(encode_utf8(a) =~= Seq::<u8>::empty());
        assert(encode_utf8(a) + encode_utf8(b) =~= encode_utf8(b));
    } else {
        assert((a + b).drop_first() =~= a.drop_first() + b);
        assert((a + b)[0] == a[0]);
        lemma_encode_utf8_concat(a.drop_first(), b);
        assert(encode_utf8(a + b) =~= encode_scalar(a[0] as u32) + encode_utf8(a.drop_first() + b));
        assert(encode_utf8(a) + encode_utf8(b) =~= encode_scalar(a[0] as u32) + (encode_utf8(
            a.drop_first(),
        ) + encode_utf8(b)));
    }
}

/// Appending one character adds the length of its encoding.
pub proof fn lemma_utf8_len_push(a: Seq<char>, c: char)
    ensures
        utf8_len(a.push(c)) == utf8_len(a) + encode_scalar(c as u32).len(),
{
    lemma_encode_utf8_concat(a, seq![c]);
    assert(a.push(c) =~= a + seq![c]);
    assert(seq![c].drop_first() =~= Seq::<char>::empty());
    assert(encode_utf8(seq![c]) =~= encode_scalar(c as u32) + encode_utf8(Seq::<char>::empty()));
}

/// A prefix never encodes to more bytes than the whole.
pub proof fn lemma_utf8_len_prefix(s: Seq<char>, k: int)
    requires
        0 <= k <= s.len(),
    ensures
        utf8_len(s.take(k)) <= utf8_len(s),
{
    lemma_encode_utf8_concat(s.take(k), s.skip(k));
    assert(s.take(k) + s.skip(k) =~= s);
}

/// Decoding the quoted-space separators keeps the encoded length: both the
/// separator and the space take one byte.
pub proof fn lemma_decode_spaces_len(s: Seq<char>)
    ensures
        utf8_len(decode_spaces(s)) == utf8_len(s),
    decreases s.len(),
{
    if s.len() > 0 {
        let p = s.drop_last();
        lemma_decode_spaces_len(p);
        assert(s =~= p.push(s.last()));
        assert(decode_spaces(s) =~= decode_spaces(p).push(decode_spaces(s).last()));
        lemma_utf8_len_push(p, s.last());
        lemma_utf8_len_push(decode_spaces(p), decode_spaces(s).last());
    } else {
        assert(decode_spaces(s) =~= s);
    }
}

/// Copies a command-line value into a 32-byte text field, turning quoted
/// spaces back into spaces when `spaces` is set. Fails, with nothing
/// copied, when the value does not fit.
pub fn text_field(s: &str, spaces: bool) -> (r: Option<heapless::String<32>>)
    ensures
        r is Some <==> utf8_len(s@) <= TEXT_CAPACITY,
        r is Some ==> text_chars(r->0) == (if spaces { decode_spaces(s@) } else { s@ }),
{
    let ghost target = if spaces { decode_spaces(s@) } else { s@ };
    proof {
        lemma_decode_spaces_len(s@);
    }
    if s.as_bytes().len() > TEXT_CAPACITY {
        return None;
    }
    let n = s.unicode_len();
    let mut out = text_new();
    let mut i: usize = 0;
    while i < n
        invariant
            n == s@.len(),
            i <= n,
            target.len() == n,
            target == (if spaces { decode_spaces(s@) } else { s@ }),
            utf8_len(target) <= TEXT_CAPACITY,
            text_chars(out) == target.take(i as int),
        decreases n - i,
    {
        let c = s.get_char(i);
        let d = if spaces && c == QUOTED_SPACE { ' ' } else { c };
        assert(target[i as int] == d);
        assert(target.take(i as int).push(d) =~= target.take(i + 1));
        proof {
            lemma_utf8_len_prefix(target, i + 1);
        }
        let ok = text_push(&mut out, d);
        assert(ok);
        i = i + 1;
    }
    assert(target.take(n as int) =~= target);
    Some(out)
}

} // verus!
