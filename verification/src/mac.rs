//! MAC addresses on the command line: reading `aa:bb:cc:dd:ee:ff` (colons or
//! dashes, any case) and writing the colon-separated hex form that the
//! status reports print.

use vstd::prelude::*;

use crate::text::string_push;

verus! {

/// The value of a hexadecimal digit (either case), if `c` is one.
pub open spec fn hex_value(c: char) -> Option<nat> {
    if '0' <= c && c <= '9' {
        Some((c as u32 - '0' as u32) as nat)
    } else if 'a' <= c && c <= 'f' {
        Some((c as u32 - 'a' as u32 + 10) as nat)
    } else if 'A' <= c && c <= 'F' {
        Some((c as u32 - 'A' as u32 + 10) as nat)
    } else {
        None
    }
}

/// The byte spelled by the two hexadecimal digits `a b` (either case);
/// `None` unless both are hexadecimal digits.
pub open spec fn hex_pair(a: char, b: char) -> Option<u8> {
    match (hex_value(a), hex_value(b)) {
        (Some(x), Some(y)) => Some((x * 16 + y) as u8),
        _ => None,
    }
}

/// A character that separates the groups of a MAC address.
pub open spec fn is_mac_separator(c: char) -> bool {
    c == ':' || c == '-'
}

/// The address that `s` spells: six groups of exactly two hexadecimal
/// digits (either case), each a byte, separated by `:` or `-`. `None` for
/// any other text.
pub open spec fn mac_of(s: Seq<char>) -> Option<Seq<u8>> {
    if s.len() == 17
        && (forall|k: int| 0 <= k < 5 ==> is_mac_separator(#[trigger] s[3 * k + 2]))
        && (forall|k: int| 0 <= k < 6 ==> (#[trigger] hex_pair(s[3 * k], s[3 * k + 1])) is Some)
    {
        Some(Seq::new(6, |k: int| hex_pair(s[3 * k], s[3 * k + 1])->0))
    } else {
        None
    }
}

/// The hexadecimal digit for `v` (below 16), upper or lower case.
pub open spec fn hex_digit(v: nat, upper: bool) -> char {
    if v < 10 {
        ((v + 48) as u32) as char
    } else if upper {
        ((v + 55) as u32) as char
    } else {
        ((v + 87) as u32) as char
    }
}

/// `m` written as six two-digit hexadecimal groups separated by colons.
pub open spec fn mac_text(m: Seq<u8>, upper: bool) -> Seq<char> {
    Seq::new(
        17,
        |i: int|
            if i % 3 == 2 {
                ':'
            } else if i % 3 == 0 {
                hex_digit((m[i / 3] / 16) as nat, upper)
            } else {
                hex_digit((m[i / 3] % 16) as nat, upper)
            },
    )
}

fn hex_value_exec(c: char) -> (r: Option<u8>)
    ensures
        match hex_value(c) {
            Some(v) => r == Some(v as u8) && v < 16,
            None => r is None,
        },
{
    if '0' <= c && c <= '9' {
        Some((c as u32 - '0' as u32) as u8)
    } else if 'a' <= c && c <= 'f' {
        Some((c as u32 - 'a' as u32 + 10) as u8)
    } else if 'A' <= c && c <= 'F' {
        Some((c as u32 - 'A' as u32 + 10) as u8)
    } else {
        None
    }
}

/// The byte spelled by the group that starts at character `3 * k`.
fn group_at(s: &str, k: usize) -> (r: Option<u8>)
    requires
        s@.len() == 17,
        k < 6,
    ensures
        r == hex_pair(s@[3 * k as int], s@[3 * k as int + 1]),
{
    let a = s.get_char(3 * k);
    let b = s.get_char(3 * k + 1);
    match (hex_value_exec(a), hex_value_exec(b)) {
        (Some(x), Some(y)) => Some(x * 16 + y),
        _ => None,
    }
}

/// Parses a MAC address of the form `aa:bb:cc:dd:ee:ff` (dashes are
/// accepted as separators too), case-insensitive. `None` on any malformed
/// input.
pub fn parse_mac(s: &str) -> (r: Option<[u8; 6]>)
    ensures
        match mac_of(s@) {
            Some(m) => r is Some && r->0@ == m,
            None => r is None,
        },
{
    if s.unicode_len() != 17 {
        return None;
    }
    let mut k: usize = 0;
    while k < 5
        invariant
            s@.len() == 17,
            k <= 5,
            forall|j: int| 0 <= j < k ==> is_mac_separator(#[trigger] s@[3 * j + 2]),
        decreases 5 - k,
    {
        let c = s.get_char(3 * k + 2);
        if c != ':' && c != '-' {
            assert(!is_mac_separator(s@[3 * k as int + 2]));
            return None;
        }
        k = k + 1;
    }
    let g0 = group_at(s, 0);
    let g1 = group_at(s, 1);
    let g2 = group_at(s, 2);
    let g3 = group_at(s, 3);
    let g4 = group_at(s, 4);
    let g5 = group_at(s, 5);
    match (g0, g1, g2, g3, g4, g5) {
        (Some(b0), Some(b1), Some(b2), Some(b3), Some(b4), Some(b5)) => {
            let out = [b0, b1, b2, b3, b4, b5];
            proof {
                assert forall|k: int| 0 <= k < 6 implies (#[trigger] hex_pair(
                    s@[3 * k],
                    s@[3 * k + 1],
                )) is Some by {
                    if k == 0 {} else if k == 1 {} else if k == 2 {} else if k == 3 {} else if k == 4 {} else {}
                }
                assert(out@ =~= Seq::new(6, |k: int| hex_pair(s@[3 * k], s@[3 * k + 1])->0));
            }
            Some(out)
        },
        _ => {
            proof {
                if g0 is None {
                    assert(hex_pair(s@[3 * 0int], s@[3 * 0int + 1]) is None);
                } else if g1 is None {
                    assert(hex_pair(s@[3 * 1int], s@[3 * 1int + 1]) is None);
                } else if g2 is None {
                    assert(hex_pair(s@[3 * 2int], s@[3 * 2int + 1]) is None);
                } else if g3 is None {
                    assert(hex_pair(s@[3 * 3int], s@[3 * 3int + 1]) is None);
                } else if g4 is None {
                    assert(hex_pair(s@[3 * 4int], s@[3 * 4int + 1]) is None);
                } else {
                    assert(hex_pair(s@[3 * 5int], s@[3 * 5int + 1]) is None);
                }
            }
            None
        },
    }
}

fn hex_digit_exec(v: u8, upper: bool) -> (c: char)
    requires
        v < 16,
    ensures
        c == hex_digit(v as nat, upper),
{
    if v < 10 {
        (v + 48) as char
    } else if upper {
        (v + 55) as char
    } else {
        (v + 87) as char
    }
}

/// Writes `m` as six two-digit hexadecimal groups separated by colons, in
/// upper or lower case.
pub fn format_mac(m: &[u8; 6], upper: bool) -> (r: String)
    ensures
        r@ == mac_text(m@, upper),
{
    let mut out = String::new();
    let mut k: usize = 0;
    while k < 6
        invariant
            k <= 6,
            out@.len() == (if k == 0 { 0 } else { 3 * k - 1 }),
            forall|i: int| 0 <= i < out@.len() ==> out@[i] == #[trigger] mac_text(m@, upper)[i],
        decreases 6 - k,
    {
        if k > 0 {
            string_push(&mut out, ':');
        }
        let b = m[k];
        string_push(&mut out, hex_digit_exec(b / 16, upper));
        string_push(&mut out, hex_digit_exec(b % 16, upper));
        proof {
            let t = mac_text(m@, upper);
            assert(t[3 * k + 0] == hex_digit((m@[k as int] / 16) as nat, upper));
            assert(t[3 * k + 1] == hex_digit((m@[k as int] % 16) as nat, upper));
            if k > 0 {
                assert(t[3 * k - 1] == ':');
            }
        }
        k = k + 1;
    }
    assert(out@ =~= mac_text(m@, upper));
    out
}

/// Reading back what `format_mac` writes gives the address that was
/// written, in either case.
pub proof fn lemma_mac_round_trip(m: Seq<u8>, upper: bool)
    requires
        m.len() == 6,
    ensures
        mac_of(mac_text(m, upper)) == Some(m),
{
    let t = mac_text(m, upper);
    assert forall|k: int| 0 <= k < 6 implies #[trigger] hex_pair(t[3 * k], t[3 * k + 1]) == Some(
        m[k],
    ) by {
        assert((3 * k) / 3 == k);
        assert((3 * k + 1) / 3 == k);
        assert((3 * k) % 3 == 0);
        assert((3 * k + 1) % 3 == 1);
        lemma_hex_digit_value((m[k] / 16) as nat, upper);
        lemma_hex_digit_value((m[k] % 16) as nat, upper);
        assert(t[3 * k] == hex_digit((m[k] / 16) as nat, upper));
        assert(t[3 * k + 1] == hex_digit((m[k] % 16) as nat, upper));
        assert((m[k] / 16) * 16 + m[k] % 16 == m[k]);
    }
    assert forall|k: int| 0 <= k < 5 implies is_mac_separator(#[trigger] t[3 * k + 2]) by {
        assert((3 * k + 2) % 3 == 2);
    }
    assert(Seq::new(6, |k: int| hex_pair(t[3 * k], t[3 * k + 1])->0) =~= m);
}

proof fn lemma_hex_digit_value(v: nat, upper: bool)
    requires
        v < 16,
    ensures
        hex_value(hex_digit(v, upper)) == Some(v),
{
    let c = hex_digit(v, upper);
    if v < 10 {
        assert(c as u32 == v + 48);
    } else if upper {
        assert(c as u32 == v + 55);
    } else {
        assert(c as u32 == v + 87);
    }
}

/// The parts of `s` between the separators, as `str::split` on `:` and
/// `-` gives them: one more part than there are separators, possibly empty.
pub open spec fn split_parts(s: Seq<char>) -> Seq<Seq<char>>
    decreases s.len(),
{
    if s.len() == 0 {
        seq![Seq::<char>::empty()]
    } else {
        let before = split_parts(s.drop_last());
        if is_mac_separator(s.last()) {
            before.push(Seq::empty())
        } else {
            before.update(before.len() - 1, before.last().push(s.last()))
        }
    }
}

/// The address read the way the documented form describes it: split at
/// every `:` or `-` into exactly six parts, each exactly two hexadecimal
/// digits.
pub open spec fn mac_by_parts(s: Seq<char>) -> Option<Seq<u8>> {
    let p = split_parts(s);
    if p.len() == 6 && (forall|j: int| 0 <= j < 6 ==> (#[trigger] p[j]).len() == 2 && hex_pair(p[j][0], p[j][1]) is Some) {
        Some(Seq::new(6, |j: int| hex_pair(p[j][0], p[j][1])->0))
    } else {
        None
    }
}

proof fn lemma_split_parts_nonempty(s: Seq<char>)
    ensures
        split_parts(s).len() >= 1,
    decreases s.len(),
{
    if s.len() > 0 {
        lemma_split_parts_nonempty(s.drop_last());
    }
}

/// Text whose separators stand exactly at every third place splits into
/// its two-character groups.
proof fn lemma_split_grouped(s: Seq<char>)
    requires
        forall|i: int| 0 <= i < s.len() ==> (is_mac_separator(#[trigger] s[i]) <==> i % 3 == 2),
    ensures
        split_parts(s).len() == s.len() / 3 + 1,
        forall|j: int| 0 <= j < s.len() / 3 ==> #[trigger] split_parts(s)[j] == s.subrange(3 * j, 3 * j + 2),
        split_parts(s).last() == s.subrange((3 * (s.len() / 3)) as int, s.len() as int),
    decreases s.len(),
{
    if s.len() > 0 {
        let t = s.drop_last();
        let n = s.len() - 1;
        assert forall|i: int| 0 <= i < t.len() implies (is_mac_separator(#[trigger] t[i]) <==> i % 3 == 2) by {
            assert(t[i] == s[i]);
        }
        lemma_split_grouped(t);
        lemma_split_parts_nonempty(t);
        let before = split_parts(t);
        assert(s.last() == s[n]);
        if n % 3 == 2 {
            assert(s.len() / 3 == t.len() / 3 + 1);
            assert(3 * (t.len() / 3) + 2 == n);
            assert(before.last() =~= s.subrange((3 * (t.len() / 3)) as int, (3 * (t.len() / 3) + 2) as int));
            assert(3 * (s.len() / 3) == s.len());
            assert forall|j: int| 0 <= j < s.len() / 3 implies #[trigger] split_parts(s)[j] == s.subrange(3 * j, 3 * j + 2) by {
                if j < t.len() / 3 {
                    assert(before[j] =~= t.subrange(3 * j, 3 * j + 2));
                    assert(t.subrange(3 * j, 3 * j + 2) =~= s.subrange(3 * j, 3 * j + 2));
                } else {
                    assert(j == t.len() / 3);
                }
            }
            assert(split_parts(s).last() =~= s.subrange((3 * (s.len() / 3)) as int, s.len() as int));
        } else {
            assert(s.len() / 3 == t.len() / 3);
            assert forall|j: int| 0 <= j < s.len() / 3 implies #[trigger] split_parts(s)[j] == s.subrange(3 * j, 3 * j + 2) by {
                assert(before[j] =~= t.subrange(3 * j, 3 * j + 2));
                assert(t.subrange(3 * j, 3 * j + 2) =~= s.subrange(3 * j, 3 * j + 2));
            }
            assert(before.last() =~= t.subrange((3 * (t.len() / 3)) as int, t.len() as int));
            assert(split_parts(s).last() =~= s.subrange((3 * (s.len() / 3)) as int, s.len() as int));
        }
    }
}

/// Text that splits into two-character parts (the last one shorter) has
/// its separators at every third place.
proof fn lemma_parts_grouped(s: Seq<char>)
    requires
        forall|j: int| 0 <= j < split_parts(s).len() - 1 ==> (#[trigger] split_parts(s)[j]).len() == 2,
        split_parts(s).last().len() <= 2,
    ensures
        split_parts(s).len() >= 1,
        s.len() == 3 * (split_parts(s).len() - 1) + split_parts(s).last().len(),
        forall|j: int| 0 <= j < split_parts(s).len() - 1 ==> {
            &&& is_mac_separator(#[trigger] s[3 * j + 2])
            &&& s[3 * j] == split_parts(s)[j][0]
            &&& s[3 * j + 1] == split_parts(s)[j][1]
        },
        s.subrange(3 * (split_parts(s).len() - 1), s.len() as int) == split_parts(s).last(),
    decreases s.len(),
{
    lemma_split_parts_nonempty(s);
    if s.len() > 0 {
        let t = s.drop_last();
        let before = split_parts(t);
        let p = split_parts(s);
        lemma_split_parts_nonempty(t);
        let k = before.len() - 1;
        if is_mac_separator(s.last()) {
            assert(p == before.push(Seq::<char>::empty()));
            assert forall|j: int| 0 <= j < before.len() - 1 implies (#[trigger] before[j]).len() == 2 by {
                assert(p[j] == before[j]);
            }
            assert(p[k] == before.last());
            lemma_parts_grouped(t);
            assert forall|j: int| 0 <= j < p.len() - 1 implies {
                &&& is_mac_separator(#[trigger] s[3 * j + 2])
                &&& s[3 * j] == p[j][0]
                &&& s[3 * j + 1] == p[j][1]
            } by {
                if j < k {
                    assert(s[3 * j + 2] == t[3 * j + 2]);
                    assert(s[3 * j] == t[3 * j]);
                    assert(s[3 * j + 1] == t[3 * j + 1]);
                } else {
                    assert(t.subrange(3 * k, t.len() as int)[0] == t[3 * k]);
                    assert(t.subrange(3 * k, t.len() as int)[1] == t[3 * k + 1]);
                    assert(s[3 * j + 2] == s.last());
                }
            }
            assert(s.subrange(3 * (p.len() - 1), s.len() as int) =~= p.last());
        } else {
            assert forall|j: int| 0 <= j < before.len() - 1 implies (#[trigger] before[j]).len() == 2 by {
                assert(p[j] == before[j]);
            }
            assert(p.last() == before.last().push(s.last()));
            lemma_parts_grouped(t);
            assert forall|j: int| 0 <= j < p.len() - 1 implies {
                &&& is_mac_separator(#[trigger] s[3 * j + 2])
                &&& s[3 * j] == p[j][0]
                &&& s[3 * j + 1] == p[j][1]
            } by {
                assert(p[j] == before[j]);
                assert(s[3 * j + 2] == t[3 * j + 2]);
                assert(s[3 * j] == t[3 * j]);
                assert(s[3 * j + 1] == t[3 * j + 1]);
            }
            assert(s.subrange(3 * (p.len() - 1), s.len() as int) =~= t.subrange(
                3 * (before.len() - 1),
                t.len() as int,
            ).push(s.last()));
        }
    }
}

/// Reading an address position by position, as [`parse_mac`] does, is the
/// documented reading: split at every `:` or `-` into exactly six parts of
/// exactly two hexadecimal digits each.
pub proof fn lemma_mac_of_is_split_form(s: Seq<char>)
    ensures
        mac_of(s) == mac_by_parts(s),
{
    let p = split_parts(s);
    if mac_of(s) is Some {
        assert forall|i: int| 0 <= i < s.len() implies (is_mac_separator(#[trigger] s[i]) <==> i % 3 == 2) by {
            let k = i / 3;
            if i % 3 == 2 {
                assert(s[3 * k + 2] == s[i]);
            } else {
                assert(hex_pair(s[3 * k], s[3 * k + 1]) is Some);
                if i % 3 == 0 {
                    assert(s[3 * k] == s[i]);
                } else {
                    assert(s[3 * k + 1] == s[i]);
                }
            }
        }
        lemma_split_grouped(s);
        assert forall|j: int| 0 <= j < 6 implies (#[trigger] p[j]).len() == 2 && p[j][0] == s[3 * j] && p[j][1]
            == s[3 * j + 1] by {
            if j < 5 {
                assert(p[j] == s.subrange(3 * j, 3 * j + 2));
            } else {
                assert(p[5] == p.last());
            }
        }
        assert(forall|j: int| 0 <= j < 6 ==> (#[trigger] hex_pair(s[3 * j], s[3 * j + 1])) is Some);
        assert(mac_by_parts(s) is Some);
        assert(mac_by_parts(s)->0 =~= mac_of(s)->0);
    } else if mac_by_parts(s) is Some {
        assert(p.last() == p[5]);
        assert(p[5].len() == 2);
        assert forall|j: int| 0 <= j < p.len() - 1 implies (#[trigger] p[j]).len() == 2 by {}
        lemma_parts_grouped(s);
        assert(s.len() == 17);
        assert forall|j: int| 0 <= j < 6 implies (#[trigger] hex_pair(s[3 * j], s[3 * j + 1])) is Some by {
            if j == 5 {
                assert(s.subrange(15, 17)[0] == s[15]);
                assert(s.subrange(15, 17)[1] == s[16]);
                assert(p[5][0] == s[15] && p[5][1] == s[16]);
            } else {
                assert(is_mac_separator(s[3 * j + 2]));
                assert(p[j].len() == 2);
            }
        }
        assert forall|k: int| 0 <= k < 5 implies is_mac_separator(#[trigger] s[3 * k + 2]) by {
            assert(is_mac_separator(s[3 * k + 2]));
        }
        assert(false);
    }
}

} // verus!
