//! Display rules of the terminal screens: how durations and clocks read.

use vstd::prelude::*;
use crate::text::{
    digit, div_trunc, int_chars, int_text, nat_chars, pad2_chars, pad2_text, push_chars, rem_trunc,
    string_of, tdiv, trem,
};

verus! {

/// What the dashboard shows for a duration of `secs` seconds: `"{h}h{mm}m"`
/// when there is at least one whole hour, else `"{m}m"`.
pub open spec fn short_duration_text(secs: int) -> Seq<char> {
    let h = tdiv(secs, 3600);
    let m = tdiv(trem(secs, 3600), 60);
    if h > 0 {
        int_text(h) + seq!['h'] + pad2_text(m) + seq!['m']
    } else {
        int_text(m) + seq!['m']
    }
}

/// What the entries table shows for a duration of `secs` seconds: `"{h}:{mm}"`.
pub open spec fn hours_minutes_text(secs: int) -> Seq<char> {
    let h = tdiv(secs, 3600);
    let m = tdiv(trem(secs, 3600), 60);
    int_text(h) + seq![':'] + pad2_text(m)
}

/// A running clock of `secs` seconds: `"{hh}:{mm}:{ss}"`.
pub open spec fn clock_text(secs: nat) -> Seq<char> {
    pad2_text((secs / 3600) as int) + seq![':'] + pad2_text(((secs % 3600) / 60) as int) + seq![':']
        + pad2_text((secs % 60) as int)
}

/// Dashboard duration, such as `"2h05m"` or `"45m"`.
pub fn format_duration_short(secs: i64) -> (s: String)
    ensures
        s@ == short_duration_text(secs as int),
{
    let h = div_trunc(secs, 3600);
    let m = div_trunc(rem_trunc(secs, 3600), 60);
    let mut v: Vec<char>;
    if h > 0 {
        v = int_chars(h);
        v.push('h');
        let mm = pad2_chars(m);
        push_chars(&mut v, &mm);
        v.push('m');
    } else {
        v = int_chars(m);
        v.push('m');
    }
    string_of(v.as_slice())
}

/// Entries-table duration, such as `"2:05"`.
pub fn format_duration(secs: i64) -> (s: String)
    ensures
        s@ == hours_minutes_text(secs as int),
{
    let h = div_trunc(secs, 3600);
    let m = div_trunc(rem_trunc(secs, 3600), 60);
    let mut v = int_chars(h);
    v.push(':');
    let mm = pad2_chars(m);
    push_chars(&mut v, &mm);
    string_of(v.as_slice())
}

/// The timer clock, such as `"01:02:03"`.
pub fn clock(secs: u64) -> (s: String)
    ensures
        s@ == clock_text(secs as nat),
{
    let h = secs / 3600;
    let m = (secs % 3600) / 60;
    let sec = secs % 60;
    let mut v: Vec<char> = Vec::new();
    if h < 10 {
        v.push('0');
        v.push(digit(h));
    } else {
        v = nat_chars(h);
    }
    v.push(':');
    let mm = pad2_chars(m as i64);
    push_chars(&mut v, &mm);
    v.push(':');
    let ss = pad2_chars(sec as i64);
    push_chars(&mut v, &ss);
    string_of(v.as_slice())
}

} // verus!
