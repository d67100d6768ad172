//! Texts shown while downloading.

use vstd::prelude::*;

use crate::text::{decimal, decimal_chars, push_all, push_str_chars, string_from_chars};

verus! {

/// A duration in whole seconds as hours and minutes, minutes and seconds, or
/// seconds, whichever is the largest unit present: `2h 5m`, `3m 7s`, `42s`.
pub open spec fn duration_text(secs: nat) -> Seq<char> {
    let minutes = secs / 60;
    let hours = minutes / 60;
    if hours > 0 {
        decimal(hours) + "h "@ + decimal(minutes % 60) + "m"@
    } else if minutes > 0 {
        decimal(minutes) + "m "@ + decimal(secs % 60) + "s"@
    } else {
        decimal(secs) + "s"@
    }
}

/// A duration of `secs` whole seconds as text.
pub fn format_duration_secs(secs: u64) -> (r: String)
    ensures
        r@ == duration_text(secs as nat),
{
    let minutes = secs / 60;
    let hours = minutes / 60;
    let mut text: Vec<char>;
    if hours > 0 {
        text = decimal_chars(hours);
        push_str_chars(&mut text, "h ");
        push_all(&mut text, &decimal_chars(minutes % 60));
        push_str_chars(&mut text, "m");
    } else if minutes > 0 {
        text = decimal_chars(minutes);
        push_str_chars(&mut text, "m ");
        push_all(&mut text, &decimal_chars(secs % 60));
        push_str_chars(&mut text, "s");
    } else {
        text = decimal_chars(secs);
        push_str_chars(&mut text, "s");
    }
    string_from_chars(&text)
}

} // verus!

verus! {

/// A duration of `h` hours, `m` minutes and `s` seconds reads `<h>h <m>m`
/// where there are hours (the seconds left out), `<m>m <s>s` where there are
/// minutes but no hours, and `<s>s` under a minute.
pub proof fn durations_read_in_their_largest_units(h: nat, m: nat, s: nat)
    requires
        m < 60,
        s < 60,
    ensures
        h > 0 ==> duration_text(h * 3600 + m * 60 + s) == decimal(h) + "h "@ + decimal(m) + "m"@,
        h == 0 && m > 0 ==> duration_text(m * 60 + s) == decimal(m) + "m "@ + decimal(s) + "s"@,
        duration_text(s) == decimal(s) + "s"@,
{
    let total = h * 3600 + m * 60 + s;
    assert(total / 60 == h * 60 + m) by (nonlinear_arith)
        requires
            total == h * 3600 + m * 60 + s,
            s < 60,
    ;
    assert((h * 60 + m) / 60 == h) by (nonlinear_arith)
        requires
            m < 60,
    ;
    assert((h * 60 + m) % 60 == m) by (nonlinear_arith)
        requires
            m < 60,
    ;
    assert((m * 60 + s) / 60 == m) by (nonlinear_arith)
        requires
            s < 60,
    ;
    assert((m * 60 + s) % 60 == s) by (nonlinear_arith)
        requires
            s < 60,
    ;
    assert(m / 60 == 0);
}

} // verus!
