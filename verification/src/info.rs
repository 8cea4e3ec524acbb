//! The `features=` line of the `info` report: the build features that are
//! switched on, in a fixed order, joined by commas.

use vstd::prelude::*;

use crate::text::string_push;

verus! {

/// The number of build features the report knows.
pub const FEATURE_COUNT: usize = 7;

/// The name of the `i`-th build feature, in report order.
pub open spec fn feature_name(i: int) -> Seq<char> {
    if i == 0 {
        "statistics"@
    } else if i == 1 {
        "defmt"@
    } else if i == 2 {
        "println"@
    } else if i == 3 {
        "async-print"@
    } else if i == 4 {
        "auto"@
    } else if i == 5 {
        "jtag-serial"@
    } else {
        "uart"@
    }
}

/// The names of the first `n` features that are switched on in `on`,
/// joined by commas.
pub open spec fn features_text(on: Seq<bool>, n: int) -> Seq<char>
    decreases n,
{
    if n <= 0 {
        Seq::empty()
    } else {
        let before = features_text(on, n - 1);
        if on[n - 1] {
            if before.len() == 0 {
                feature_name(n - 1)
            } else {
                before + seq![','] + feature_name(n - 1)
            }
        } else {
            before
        }
    }
}

fn feature_name_str(i: usize) -> (r: &'static str)
    requires
        i < FEATURE_COUNT,
    ensures
        r@ == feature_name(i as int),
        r@.len() > 0,
{
    proof {
        reveal_strlit("statistics");
        reveal_strlit("defmt");
        reveal_strlit("println");
        reveal_strlit("async-print");
        reveal_strlit("auto");
        reveal_strlit("jtag-serial");
        reveal_strlit("uart");
    }
    if i == 0 {
        "statistics"
    } else if i == 1 {
        "defmt"
    } else if i == 2 {
        "println"
    } else if i == 3 {
        "async-print"
    } else if i == 4 {
        "auto"
    } else if i == 5 {
        "jtag-serial"
    } else {
        "uart"
    }
}

/// Appends the characters of `t` to `out`.
fn push_text(out: &mut String, t: &str)
    ensures
        final(out)@ == old(out)@ + t@,
{
    let n = t.unicode_len();
    let mut i: usize = 0;
    while i < n
        invariant
            n == t@.len(),
            i <= n,
            out@ == old(out)@ + t@.take(i as int),
        decreases n - i,
    {
        string_push(out, t.get_char(i));
        assert(t@.take(i as int).push(t@[i as int]) =~= t@.take(i + 1));
        i = i + 1;
    }
    assert(t@.take(n as int) =~= t@);
}

/// The `features=` value of the `info` report: the names of the features
/// switched on in `on` (statistics, defmt, println, async-print, auto,
/// jtag-serial, uart, in that order), joined by commas; empty when none is.
pub fn features_line(on: &[bool; 7]) -> (r: String)
    ensures
        r@ == features_text(on@, 7),
{
    let mut out = String::new();
    let mut i: usize = 0;
    while i < FEATURE_COUNT
        invariant
            i <= FEATURE_COUNT,
            on@.len() == FEATURE_COUNT,
            out@ == features_text(on@, i as int),
        decreases FEATURE_COUNT - i,
    {
        if on[i] {
            let name = feature_name_str(i);
            if out.unicode_len() > 0 {
                string_push(&mut out, ',');
            }
            push_text(&mut out, name);
        }
        i = i + 1;
    }
    out
}

} // verus!
