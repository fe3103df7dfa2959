//! The rules behind the command-line commands: how they read times, write
//! durations, choose the span a log or report covers, build the log query,
//! and read configuration values. The commands themselves (the store, the
//! terminal) run around these rules.

use vstd::prelude::*;
use crate::calendar::{day_and_weekday, day_start, moment_ok, period_range, report_range, week_start};
use crate::clock::{
    format_stamp, formatted_stamp, parse_clock, parse_date_time, parsed_clock, parsed_date_time,
    pattern_text, StampFormat,
};
use crate::models::{same_text, stamp_ok, ProjectBreakdown, RateType};
use crate::replies::{adds_up, checked_total, total};
use crate::state::ReportPeriod;
use crate::text::{
    chars_of, int_chars, int_text, nat_chars, nat_text, pad2_chars, pad2_text, pad4_chars, pad4_text,
    push_chars, push_text, string_of,
};

verus! {

/// Whether `c` is white space (the Unicode `White_Space` property, which
/// `char::is_whitespace` tests).
pub open spec fn white_space(c: char) -> bool {
    let u = c as u32;
    ||| 0x09 <= u <= 0x0D
    ||| u == 0x20
    ||| u == 0x85
    ||| u == 0xA0
    ||| u == 0x1680
    ||| 0x2000 <= u <= 0x200A
    ||| u == 0x2028
    ||| u == 0x2029
    ||| u == 0x202F
    ||| u == 0x205F
    ||| u == 0x3000
}

/// `s` without its leading white space.
pub open spec fn trim_start(s: Seq<char>) -> Seq<char>
    decreases s.len(),
{
    if s.len() > 0 && white_space(s[0]) {
        trim_start(s.drop_first())
    } else {
        s
    }
}

/// `s` without its trailing white space.
pub open spec fn trim_end(s: Seq<char>) -> Seq<char>
    decreases s.len(),
{
    if s.len() > 0 && white_space(s.last()) {
        trim_end(s.drop_last())
    } else {
        s
    }
}

/// `s` without white space at either end (`str::trim`).
pub open spec fn trimmed(s: Seq<char>) -> Seq<char> {
    trim_end(trim_start(s))
}

/// Whether `c` is white space.
pub fn is_white_space(c: char) -> (b: bool)
    ensures
        b == white_space(c),
{
    let u = c as u32;
    (0x09 <= u && u <= 0x0D) || u == 0x20 || u == 0x85 || u == 0xA0 || u == 0x1680 || (0x2000 <= u
        && u <= 0x200A) || u == 0x2028 || u == 0x2029 || u == 0x202F || u == 0x205F || u == 0x3000
}

/// Dropping white space from the end of a longer run that only adds white
/// space at its end gives the same text.
proof fn lemma_trim_end_extend(s: Seq<char>, j: int, n: int)
    requires
        0 <= j <= n <= s.len(),
        forall|k: int| j <= k < n ==> white_space(#[trigger] s[k]),
    ensures
        trim_end(s.subrange(0, n)) == trim_end(s.subrange(0, j)),
    decreases n - j,
{
    if n > j {
        assert(s.subrange(0, n).drop_last() =~= s.subrange(0, n - 1));
        lemma_trim_end_extend(s, j, n - 1);
    }
}

/// `s` without white space at either end.
pub fn trim(s: &str) -> (r: String)
    ensures
        r@ == trimmed(s@),
{
    let cs = chars_of(s);
    let n = cs.len();
    let mut i: usize = 0;
    assert(s@.skip(0) =~= s@);
    while i < n && is_white_space(cs[i])
        invariant
            cs@ == s@,
            n == cs@.len(),
            0 <= i <= n,
            trim_start(s@) == trim_start(s@.skip(i as int)),
        decreases n - i,
    {
        proof {
            assert(s@.skip(i as int).drop_first() =~= s@.skip(i + 1));
        }
        i = i + 1;
    }
    let ghost start = s@.skip(i as int);
    proof {
        assert(trim_start(start) == start);
    }
    let mut j: usize = n;
    while j > i && is_white_space(cs[j - 1])
        invariant
            cs@ == s@,
            n == cs@.len(),
            0 <= i <= j <= n,
            start == s@.skip(i as int),
            forall|k: int| j <= k < n ==> white_space(#[trigger] cs@[k]),
        decreases j,
    {
        j = j - 1;
    }
    let mut out: Vec<char> = Vec::new();
    let mut k: usize = i;
    while k < j
        invariant
            cs@ == s@,
            0 <= i <= k <= j <= n,
            n == cs@.len(),
            out@ == s@.subrange(i as int, k as int),
        decreases j - k,
    {
        out.push(cs[k]);
        k = k + 1;
        proof {
            assert(out@ =~= s@.subrange(i as int, k as int));
        }
    }
    proof {
        let body = s@.subrange(i as int, n as int);
        assert(start =~= body);
        lemma_trim_end_extend(body, (j - i) as int, (n - i) as int);
        assert(body.subrange(0, (n - i) as int) =~= body);
        assert(body.subrange(0, (j - i) as int) =~= out@);
        if out@.len() > 0 {
            assert(!white_space(out@.last()));
        }
    }
    string_of(out.as_slice())
}

/// What the command line writes for a duration of `secs` seconds:
/// `"0s"` when negative, else `"{h}h {mm}m {ss}s"`, `"{m}m {ss}s"` or
/// `"{s}s"`, by the largest unit that is not zero.
pub open spec fn elapsed_text(secs: int) -> Seq<char> {
    if secs < 0 {
        seq!['0', 's']
    } else {
        let h = secs / 3600;
        let m = (secs % 3600) / 60;
        let s = secs % 60;
        if h > 0 {
            nat_text(h as nat) + seq!['h', ' '] + pad2_text(m) + seq!['m', ' '] + pad2_text(s)
                + seq!['s']
        } else if m > 0 {
            nat_text(m as nat) + seq!['m', ' '] + pad2_text(s) + seq!['s']
        } else {
            nat_text(s as nat) + seq!['s']
        }
    }
}

/// A duration as the command line writes it, such as `"2h 15m 03s"`.
pub fn format_duration(total_secs: i64) -> (r: String)
    ensures
        r@ == elapsed_text(total_secs as int),
{
    if total_secs < 0 {
        let mut v: Vec<char> = Vec::new();
        v.push('0');
        v.push('s');
        proof {
            assert(v@ =~= seq!['0', 's']);
        }
        return string_of(v.as_slice());
    }
    let t = total_secs as u64;
    let h = t / 3600;
    let m = (t % 3600) / 60;
    let s = t % 60;
    let mut v: Vec<char>;
    if h > 0 {
        v = nat_chars(h);
        v.push('h');
        v.push(' ');
        let mm = pad2_chars(m as i64);
        push_chars(&mut v, &mm);
        v.push('m');
        v.push(' ');
        let ss = pad2_chars(s as i64);
        push_chars(&mut v, &ss);
        v.push('s');
        proof {
            assert(v@ =~= nat_text(h as nat) + seq!['h', ' '] + pad2_text(m as int) + seq!['m', ' ']
                + pad2_text(s as int) + seq!['s']);
        }
    } else if m > 0 {
        v = nat_chars(m);
        v.push('m');
        v.push(' ');
        let ss = pad2_chars(s as i64);
        push_chars(&mut v, &ss);
        v.push('s');
        proof {
            assert(v@ =~= nat_text(m as nat) + seq!['m', ' '] + pad2_text(s as int) + seq!['s']);
        }
    } else {
        v = nat_chars(s);
        v.push('s');
        proof {
            assert(v@ =~= nat_text(s as nat) + seq!['s']);
        }
    }
    string_of(v.as_slice())
}

/// The stamp a command-line time comes to, from what was read of its text:
/// a full date and time (`full`), one with seconds (`seconds`), or else a
/// time of day (`clock`, seconds after midnight) on the day of `now`; the
/// first reading that succeeded counts.
pub open spec fn time_pick(full: Option<i64>, seconds: Option<i64>, clock: Option<i64>, now: i64) -> Option<i64> {
    match full {
        Some(dt) => Some(dt),
        None => match seconds {
            Some(dt) => Some(dt),
            None => match clock {
                Some(c) => Some((day_start(now as int) + c) as i64),
                None => None,
            },
        },
    }
}

/// The stamp a command-line time reads as on the day of `now`: a full
/// `YYYY-MM-DD HH:MM` (or with seconds), or `HH:MM` on that day; white space
/// around it does not count.
pub open spec fn time_read(input: Seq<char>, now: i64) -> Option<i64> {
    let t = trimmed(input);
    time_pick(
        parsed_date_time(t, pattern_text(StampFormat::DateClock)),
        parsed_date_time(t, pattern_text(StampFormat::DateClockSeconds)),
        parsed_clock(t),
        now,
    )
}

/// The complaint about a time that does not read.
pub open spec fn time_error(t: Seq<char>) -> Seq<char> {
    "Could not parse time '"@ + t + "'. Use HH:MM or YYYY-MM-DD HH:MM."@
}

/// The stamp of the time `t` on the day of `now`, from the three readings of
/// its text (see `time_pick`), or the complaint about `t` when none read.
pub fn time_from_readings(
    t: &str,
    full: Option<i64>,
    seconds: Option<i64>,
    clock: Option<i64>,
    now: i64,
) -> (r: Result<i64, String>)
    requires
        moment_ok(now),
        full matches Some(x) ==> stamp_ok(x),
        seconds matches Some(x) ==> stamp_ok(x),
        clock matches Some(c) ==> 0 <= c < 86400,
    ensures
        match time_pick(full, seconds, clock, now) {
            Some(v) => r == Ok::<i64, String>(v),
            None => r matches Err(e) && e@ == time_error(t@),
        },
        r matches Ok(v) ==> stamp_ok(v),
{
    match full {
        Some(dt) => return Ok(dt),
        None => {},
    }
    match seconds {
        Some(dt) => return Ok(dt),
        None => {},
    }
    match clock {
        Some(c) => {
            let (today, _) = day_and_weekday(now);
            return Ok(today + c);
        },
        None => {},
    }
    let mut v = chars_of("Could not parse time '");
    push_text(&mut v, t);
    push_text(&mut v, "'. Use HH:MM or YYYY-MM-DD HH:MM.");
    Err(string_of(v.as_slice()))
}

/// Reads a command-line time on the day of `now`.
pub fn parse_time(input: &str, now: i64) -> (r: Result<i64, String>)
    requires
        moment_ok(now),
    ensures
        match time_read(input@, now) {
            Some(t) => r == Ok::<i64, String>(t),
            None => r matches Err(e) && e@ == time_error(trimmed(input@)),
        },
        r matches Ok(t) ==> stamp_ok(t),
{
    let t = trim(input);
    let full = parse_date_time(t.as_str(), StampFormat::DateClock);
    let seconds = parse_date_time(t.as_str(), StampFormat::DateClockSeconds);
    let clock = parse_clock(t.as_str());
    time_from_readings(t.as_str(), full, seconds, clock, now)
}

/// What adding a finished entry from `start` to `end` (on the day of `now`)
/// comes to: the two stamps and the seconds between them, or the complaint
/// about the first time that does not read, or about an end that is not
/// after the start.
pub open spec fn add_outcome(start: Seq<char>, end: Seq<char>, now: i64) -> Result<
    (i64, i64, i64),
    Seq<char>,
> {
    match time_read(start, now) {
        None => Err(time_error(trimmed(start))),
        Some(s) => match time_read(end, now) {
            None => Err(time_error(trimmed(end))),
            Some(e) => if e <= s {
                Err("End time must be after start time."@)
            } else {
                Ok((s, e, (e - s) as i64))
            },
        },
    }
}

/// Reads the times of `saga add`.
pub fn plan_add(start: &str, end: &str, now: i64) -> (r: Result<(i64, i64, i64), String>)
    requires
        moment_ok(now),
    ensures
        match add_outcome(start@, end@, now) {
            Ok(v) => r == Ok::<(i64, i64, i64), String>(v),
            Err(m) => r matches Err(e) && e@ == m,
        },
        r matches Ok(v) ==> stamp_ok(v.0) && stamp_ok(v.1) && v.2 == v.1 - v.0,
{
    let s = match parse_time(start, now) {
        Ok(t) => t,
        Err(e) => return Err(e),
    };
    let e = match parse_time(end, now) {
        Ok(t) => t,
        Err(x) => return Err(x),
    };
    if e <= s {
        return Err(string_of(chars_of("End time must be after start time.").as_slice()));
    }
    Ok((s, e, e - s))
}

/// Whether `a` and `b` hold the same characters.
pub fn same_str(a: &str, b: &str) -> (r: bool)
    ensures
        r == (a@ == b@),
{
    same_text(&chars_of(a), &chars_of(b))
}

/// The string made of the characters of `s`.
pub fn text_of(s: &str) -> (r: String)
    ensures
        r@ == s@,
{
    string_of(chars_of(s).as_slice())
}

/// The text given, or `current` when none is given.
pub fn given_or(given: Option<&str>, current: &str) -> (r: String)
    ensures
        r@ == match given {
            Some(g) => g@,
            None => current@,
        },
{
    match given {
        Some(g) => text_of(g),
        None => text_of(current),
    }
}

/// The view of an optional text.
pub open spec fn opt_text(o: Option<&str>) -> Option<Seq<char>> {
    match o {
        Some(t) => Some(t@),
        None => None,
    }
}

/// The views of a list of strings.
pub open spec fn texts_of(v: Seq<String>) -> Seq<Seq<char>> {
    v.map_values(|s: String| s@)
}

/// Where the span `saga log` lists begins: midnight today with `--today`,
/// Monday's midnight with `--week`, the first of the month's midnight with
/// `--month` (checked in that order), and seven days before `now` otherwise.
pub open spec fn log_since(today: bool, week: bool, month: bool, now: i64) -> int {
    if today {
        day_start(now as int)
    } else if week {
        week_start(now as int)
    } else if month {
        report_range(ReportPeriod::Monthly, now as int).0
    } else {
        now - 7 * 86400
    }
}

/// Where the span `saga log` lists begins.
pub fn log_start(today: bool, week: bool, month: bool, now: i64) -> (r: i64)
    requires
        moment_ok(now),
    ensures
        r == log_since(today, week, month, now),
{
    if today {
        period_range(ReportPeriod::Daily, now).0
    } else if week {
        period_range(ReportPeriod::Weekly, now).0
    } else if month {
        period_range(ReportPeriod::Monthly, now).0
    } else {
        now - 7 * 86400
    }
}

/// The query `saga log` runs: entries since the first parameter, of the
/// project named by the next parameter when one is given, of the client
/// named by the next one after that when one is given; newest first, fifty
/// at most.
pub open spec fn log_sql(has_project: bool, has_client: bool) -> Seq<char> {
    "SELECT te.start_time, te.end_time, te.duration_secs, te.description, p.name AS project_name\n         FROM time_entries te\n         JOIN projects p ON te.project_id = p.id"@
        + (if has_client {
        " LEFT JOIN clients c ON p.client_id = c.id"@
    } else {
        Seq::<char>::empty()
    }) + " WHERE te.start_time >= ?1"@ + (if has_project {
        " AND p.name = ?2 COLLATE NOCASE"@
    } else {
        Seq::<char>::empty()
    }) + (if has_client {
        if has_project {
            " AND c.name = ?3 COLLATE NOCASE"@
        } else {
            " AND c.name = ?2 COLLATE NOCASE"@
        }
    } else {
        Seq::<char>::empty()
    }) + " ORDER BY te.start_time DESC LIMIT 50"@
}

/// The parameters of the log query: the start of the span as the store
/// writes stamps, then the project and the client names given.
pub open spec fn log_params(since: i64, project: Option<Seq<char>>, client: Option<Seq<char>>) -> Seq<Seq<char>> {
    seq![formatted_stamp(since, pattern_text(StampFormat::Stored))] + match project {
        Some(p) => seq![p],
        None => Seq::empty(),
    } + match client {
        Some(c) => seq![c],
        None => Seq::empty(),
    }
}

/// The query text and parameters of `saga log`.
pub fn log_query(since: i64, project: Option<&str>, client: Option<&str>) -> (r: (String, Vec<String>))
    ensures
        r.0@ == log_sql(project is Some, client is Some),
        texts_of(r.1@) == log_params(since, opt_text(project), opt_text(client)),
{
    let mut sql = chars_of(
        "SELECT te.start_time, te.end_time, te.duration_secs, te.description, p.name AS project_name\n         FROM time_entries te\n         JOIN projects p ON te.project_id = p.id",
    );
    let ghost base = sql@;
    if client.is_some() {
        push_text(&mut sql, " LEFT JOIN clients c ON p.client_id = c.id");
    }
    let ghost joined = sql@;
    push_text(&mut sql, " WHERE te.start_time >= ?1");
    let ghost dated = sql@;
    if project.is_some() {
        push_text(&mut sql, " AND p.name = ?2 COLLATE NOCASE");
    }
    let ghost named = sql@;
    if client.is_some() {
        if project.is_some() {
            push_text(&mut sql, " AND c.name = ?3 COLLATE NOCASE");
        } else {
            push_text(&mut sql, " AND c.name = ?2 COLLATE NOCASE");
        }
    }
    let ghost clients = sql@;
    push_text(&mut sql, " ORDER BY te.start_time DESC LIMIT 50");
    proof {
        assert(sql@ =~= log_sql(project is Some, client is Some));
    }
    let mut params: Vec<String> = Vec::new();
    params.push(format_stamp(since, StampFormat::Stored));
    match project {
        Some(p) => params.push(text_of(p)),
        None => {},
    }
    match client {
        Some(c) => params.push(text_of(c)),
        None => {},
    }
    proof {
        assert(texts_of(params@) =~= log_params(since, opt_text(project), opt_text(client)));
    }
    (string_of(sql.as_slice()), params)
}

/// One line of `saga log`: the date and start of the entry, its end
/// (`None` while it runs), and its duration.
#[derive(Debug)]
pub struct LogLine {
    pub date: String,
    pub start: String,
    pub end: Option<String>,
    pub duration: String,
}

/// The stamp a stored time reads as, or the epoch when it does not read.
pub open spec fn stored_or_epoch(text: Seq<char>) -> i64 {
    match parsed_date_time(text, pattern_text(StampFormat::Stored)) {
        Some(t) => t,
        None => 0,
    }
}

/// The line `saga log` prints for an entry stored from `start` to `end`
/// with `secs` seconds, at `now`: a running entry shows `~` and the time
/// since its start; an end that does not read shows `??:??`.
pub open spec fn log_line_of(l: LogLine, start: Seq<char>, end: Option<Seq<char>>, secs: Option<i64>, now: i64) -> bool {
    let s = stored_or_epoch(start);
    &&& l.date@ == formatted_stamp(s, pattern_text(StampFormat::Date))
    &&& l.start@ == formatted_stamp(s, pattern_text(StampFormat::Clock))
    &&& match end {
        Some(e) => l.end matches Some(x) && x@ == match parsed_date_time(
            e,
            pattern_text(StampFormat::Stored),
        ) {
            Some(t) => formatted_stamp(t, pattern_text(StampFormat::Clock)),
            None => "??:??"@,
        },
        None => l.end is None,
    }
    &&& l.duration@ == match secs {
        Some(d) => elapsed_text(d as int),
        None => seq!['~'] + elapsed_text(now - s),
    }
}

/// The line `saga log` prints for one entry.
pub fn log_line(start: &str, end: Option<&str>, secs: Option<i64>, now: i64) -> (l: LogLine)
    requires
        moment_ok(now),
    ensures
        log_line_of(l, start@, opt_text(end), secs, now),
{
    let s = match parse_date_time(start, StampFormat::Stored) {
        Some(t) => t,
        None => 0,
    };
    let date = format_stamp(s, StampFormat::Date);
    let clock = format_stamp(s, StampFormat::Clock);
    let end_text = match end {
        Some(e) => match parse_date_time(e, StampFormat::Stored) {
            Some(t) => Some(format_stamp(t, StampFormat::Clock)),
            None => Some(text_of("??:??")),
        },
        None => None,
    };
    let duration = match secs {
        Some(d) => format_duration(d),
        None => {
            let mut v: Vec<char> = Vec::new();
            v.push('~');
            let rest = format_duration(now - s);
            push_text(&mut v, rest.as_str());
            proof {
                assert(v@ =~= seq!['~'] + elapsed_text(now - s));
            }
            string_of(v.as_slice())
        },
    };
    LogLine { date, start: clock, end: end_text, duration }
}

/// The durations that are known, in order.
pub open spec fn known(durations: Seq<Option<i64>>) -> Seq<i64>
    decreases durations.len(),
{
    if durations.len() == 0 {
        Seq::empty()
    } else {
        let rest = known(durations.drop_last());
        match durations.last() {
            Some(d) => rest.push(d),
            None => rest,
        }
    }
}

/// The total `saga log` prints: the sum of the known durations, when adding
/// them up in `i64` does not overflow.
pub fn log_total(durations: &Vec<Option<i64>>) -> (r: Option<i64>)
    ensures
        r == if adds_up(known(durations@)) {
            Some(total(known(durations@)) as i64)
        } else {
            None::<i64>
        },
{
    let mut v: Vec<i64> = Vec::new();
    let mut i: usize = 0;
    proof {
        assert(durations@.take(0) =~= Seq::<Option<i64>>::empty());
    }
    while i < durations.len()
        invariant
            0 <= i <= durations@.len(),
            v@ == known(durations@.take(i as int)),
        decreases durations@.len() - i,
    {
        proof {
            assert(durations@.take(i + 1).drop_last() =~= durations@.take(i as int));
        }
        match durations[i] {
            Some(d) => v.push(d),
            None => {},
        }
        i = i + 1;
    }
    proof {
        assert(durations@.take(durations@.len() as int) =~= durations@);
    }
    checked_total(&v)
}

/// The span a report covers at `now`, by the name of its period: from
/// midnight today, from Monday's midnight, or from the first of the month's
/// midnight, up to `now`.
pub open spec fn report_span(period: Seq<char>, now: i64) -> Option<(int, int)> {
    if period == "daily"@ {
        Some((day_start(now as int), now as int))
    } else if period == "weekly"@ {
        Some((week_start(now as int), now as int))
    } else if period == "monthly"@ {
        Some((report_range(ReportPeriod::Monthly, now as int).0, now as int))
    } else {
        None
    }
}

/// The span a report of the named period covers, or the complaint about an
/// unknown period.
pub fn report_window(period: &str, now: i64) -> (r: Result<(i64, i64), String>)
    requires
        moment_ok(now),
    ensures
        match report_span(period@, now) {
            Some(w) => r matches Ok(x) && x.0 == w.0 && x.1 == w.1,
            None => r matches Err(e) && e@ == "Unknown period '"@ + period@
                + "'. Use daily, weekly, or monthly."@,
        },
{
    if same_str(period, "daily") {
        Ok((period_range(ReportPeriod::Daily, now).0, now))
    } else if same_str(period, "weekly") {
        Ok((period_range(ReportPeriod::Weekly, now).0, now))
    } else if same_str(period, "monthly") {
        Ok((period_range(ReportPeriod::Monthly, now).0, now))
    } else {
        let mut v = chars_of("Unknown period '");
        push_text(&mut v, period);
        push_text(&mut v, "'. Use daily, weekly, or monthly.");
        Err(string_of(v.as_slice()))
    }
}

/// How a report is written out.
#[derive(Debug, Clone, Copy, PartialEq, Eq, Structural)]
pub enum ReportFormat {
    Table,
    Csv,
    Pdf,
}

/// The report format of a name, if it names one.
pub open spec fn format_named(name: Seq<char>) -> Option<ReportFormat> {
    if name == "table"@ {
        Some(ReportFormat::Table)
    } else if name == "csv"@ {
        Some(ReportFormat::Csv)
    } else if name == "pdf"@ {
        Some(ReportFormat::Pdf)
    } else {
        None
    }
}

/// The report format named `name`, or the complaint about an unknown one.
pub fn report_format(name: &str) -> (r: Result<ReportFormat, String>)
    ensures
        match format_named(name@) {
            Some(f) => r == Ok::<ReportFormat, String>(f),
            None => r matches Err(e) && e@ == "Unknown format '"@ + name@
                + "'. Use table, csv, or pdf."@,
        },
{
    if same_str(name, "table") {
        Ok(ReportFormat::Table)
    } else if same_str(name, "csv") {
        Ok(ReportFormat::Csv)
    } else if same_str(name, "pdf") {
        Ok(ReportFormat::Pdf)
    } else {
        let mut v = chars_of("Unknown format '");
        push_text(&mut v, name);
        push_text(&mut v, "'. Use table, csv, or pdf.");
        Err(string_of(v.as_slice()))
    }
}

/// One project's line of a report: its name, seconds, entries and
/// billable seconds.
#[derive(Debug)]
pub struct ReportRow {
    pub project: String,
    pub total_secs: i64,
    pub count: i64,
    pub billable_secs: i64,
}

/// The CSV line of a report row: name, seconds, duration, entries and
/// billable seconds, separated by commas.
pub open spec fn csv_line(r: ReportRow) -> Seq<char> {
    r.project@ + seq![','] + int_text(r.total_secs as int) + seq![','] + elapsed_text(
        r.total_secs as int,
    ) + seq![','] + int_text(r.count as int) + seq![','] + int_text(r.billable_secs as int)
        + seq!['\n']
}

/// The CSV lines of the rows, in order.
pub open spec fn csv_lines(rows: Seq<ReportRow>) -> Seq<char>
    decreases rows.len(),
{
    if rows.len() == 0 {
        Seq::empty()
    } else {
        csv_lines(rows.drop_last()) + csv_line(rows.last())
    }
}

/// The header of a CSV report.
pub open spec fn csv_header() -> Seq<char> {
    "Project,Total Seconds,Total Duration,Entries,Billable Seconds\n"@
}

/// A report written as CSV: the header, then one line per row.
pub fn report_csv(rows: &Vec<ReportRow>) -> (r: String)
    ensures
        r@ == csv_header() + csv_lines(rows@),
{
    let mut v = chars_of("Project,Total Seconds,Total Duration,Entries,Billable Seconds\n");
    let mut i: usize = 0;
    proof {
        assert(rows@.take(0) =~= Seq::<ReportRow>::empty());
        assert(v@ =~= csv_header() + csv_lines(rows@.take(0)));
    }
    while i < rows.len()
        invariant
            0 <= i <= rows@.len(),
            v@ == csv_header() + csv_lines(rows@.take(i as int)),
        decreases rows@.len() - i,
    {
        let ghost before = v@;
        let row = &rows[i];
        push_text(&mut v, row.project.as_str());
        v.push(',');
        let t = int_chars(row.total_secs);
        push_chars(&mut v, &t);
        v.push(',');
        let d = format_duration(row.total_secs);
        push_text(&mut v, d.as_str());
        v.push(',');
        let c = int_chars(row.count);
        push_chars(&mut v, &c);
        v.push(',');
        let b = int_chars(row.billable_secs);
        push_chars(&mut v, &b);
        v.push('\n');
        proof {
            assert(rows@.take(i + 1).drop_last() =~= rows@.take(i as int));
            assert(v@ =~= before + csv_line(rows@[i as int]));
        }
        i = i + 1;
    }
    proof {
        assert(rows@.take(rows@.len() as int) =~= rows@);
    }
    string_of(v.as_slice())
}

/// The report row of a project's breakdown: its name, seconds, entries and
/// billable seconds.
pub open spec fn row_of(b: ProjectBreakdown) -> ReportRow {
    ReportRow {
        project: b.project_name,
        total_secs: b.total_seconds,
        count: b.entry_count,
        billable_secs: b.billable_seconds,
    }
}

/// The report rows of a breakdown, one per project, in order.
pub open spec fn rows_of(bs: Seq<ProjectBreakdown>) -> Seq<ReportRow> {
    bs.map_values(|b: ProjectBreakdown| row_of(b))
}

/// A breakdown written as a CSV report.
pub open spec fn breakdown_csv(bs: Seq<ProjectBreakdown>) -> Seq<char> {
    csv_header() + csv_lines(rows_of(bs))
}

/// The report rows of a breakdown.
pub fn breakdown_rows(bs: &Vec<ProjectBreakdown>) -> (r: Vec<ReportRow>)
    ensures
        r@ == rows_of(bs@),
{
    let mut r: Vec<ReportRow> = Vec::new();
    let mut i: usize = 0;
    while i < bs.len()
        invariant
            0 <= i <= bs@.len(),
            r@ == rows_of(bs@.take(i as int)),
        decreases bs@.len() - i,
    {
        let b = &bs[i];
        r.push(
            ReportRow {
                project: b.project_name.clone(),
                total_secs: b.total_seconds,
                count: b.entry_count,
                billable_secs: b.billable_seconds,
            },
        );
        proof {
            assert(rows_of(bs@.take(i + 1)) =~= rows_of(bs@.take(i as int)).push(row_of(bs@[i as int])));
        }
        i = i + 1;
    }
    proof {
        assert(bs@.take(bs@.len() as int) =~= bs@);
    }
    r
}

/// The name of a report file written at stamp `t`, ending in `ext`.
pub open spec fn report_file_text(t: i64, ext: Seq<char>) -> Seq<char> {
    "saga-report-"@ + formatted_stamp(t, pattern_text(StampFormat::FileStamp)) + ext
}

/// Names a report file after the time it is written.
pub fn report_file_name(t: i64, ext: &str) -> (r: String)
    ensures
        r@ == report_file_text(t, ext@),
{
    let mut v = chars_of("saga-report-");
    let stamp = format_stamp(t, StampFormat::FileStamp);
    push_text(&mut v, stamp.as_str());
    push_text(&mut v, ext);
    string_of(v.as_slice())
}

/// The seconds of each row.
pub open spec fn row_totals(rows: Seq<ReportRow>) -> Seq<i64> {
    rows.map_values(|r: ReportRow| r.total_secs)
}

/// The billable seconds of each row.
pub open spec fn row_billables(rows: Seq<ReportRow>) -> Seq<i64> {
    rows.map_values(|r: ReportRow| r.billable_secs)
}

/// The grand totals of a report table: all seconds and billable seconds,
/// when adding them up in `i64` does not overflow.
pub fn report_totals(rows: &Vec<ReportRow>) -> (r: Option<(i64, i64)>)
    ensures
        r == if adds_up(row_totals(rows@)) && adds_up(row_billables(rows@)) {
            Some((total(row_totals(rows@)) as i64, total(row_billables(rows@)) as i64))
        } else {
            None::<(i64, i64)>
        },
{
    let mut totals: Vec<i64> = Vec::new();
    let mut billables: Vec<i64> = Vec::new();
    let mut i: usize = 0;
    while i < rows.len()
        invariant
            0 <= i <= rows@.len(),
            totals@.len() == i,
            billables@.len() == i,
            forall|j: int| 0 <= j < i ==> totals@[j] == (#[trigger] rows@[j]).total_secs,
            forall|j: int| 0 <= j < i ==> billables@[j] == (#[trigger] rows@[j]).billable_secs,
        decreases rows@.len() - i,
    {
        totals.push(rows[i].total_secs);
        billables.push(rows[i].billable_secs);
        i = i + 1;
    }
    proof {
        assert(totals@ =~= row_totals(rows@));
        assert(billables@ =~= row_billables(rows@));
    }
    match (checked_total(&totals), checked_total(&billables)) {
        (Some(t), Some(b)) => Some((t, b)),
        _ => None,
    }
}

/// The number of the invoice that follows `count` earlier ones:
/// `INV-` and the next number, zero-padded to four digits.
pub open spec fn invoice_text(count: i64) -> Seq<char> {
    "INV-"@ + pad4_text(count + 1)
}

/// The number of the next invoice, when `count + 1` fits an `i64`.
pub fn invoice_number(count: i64) -> (r: Option<String>)
    ensures
        match r {
            Some(n) => count < i64::MAX && n@ == invoice_text(count),
            None => count == i64::MAX,
        },
{
    if count == i64::MAX {
        return None;
    }
    let mut v = chars_of("INV-");
    let n = pad4_chars(count + 1);
    push_chars(&mut v, &n);
    Some(string_of(v.as_slice()))
}

/// The first and last stored moments of the days `from` to `to` that an
/// invoice covers.
pub fn invoice_bounds(from: &str, to: &str) -> (r: (String, String))
    ensures
        r.0@ == from@ + "T00:00:00"@,
        r.1@ == to@ + "T23:59:59"@,
{
    let mut a = chars_of(from);
    push_text(&mut a, "T00:00:00");
    let mut b = chars_of(to);
    push_text(&mut b, "T23:59:59");
    (string_of(a.as_slice()), string_of(b.as_slice()))
}

/// The description of an invoice line: the project's name, followed by
/// `": "` and the entry's description when it has one.
pub open spec fn line_text(project: Seq<char>, description: Seq<char>) -> Seq<char> {
    if description.len() == 0 {
        project
    } else {
        project + ": "@ + description
    }
}

/// The description of an invoice line.
pub fn line_description(project: &str, description: &str) -> (r: String)
    ensures
        r@ == line_text(project@, description@),
{
    if description.is_empty() {
        text_of(project)
    } else {
        let mut v = chars_of(project);
        push_text(&mut v, ": ");
        push_text(&mut v, description);
        string_of(v.as_slice())
    }
}

/// The kind of rate `saga rates set` stores: for the project when one is
/// named, else for the client when one is named, else the default rate.
pub open spec fn rate_target(project_named: bool, client_named: bool) -> RateType {
    if project_named {
        RateType::Project
    } else if client_named {
        RateType::Client
    } else {
        RateType::Default
    }
}

/// The kind of rate `saga rates set` stores.
pub fn rate_kind(project_named: bool, client_named: bool) -> (r: RateType)
    ensures
        r == rate_target(project_named, client_named),
{
    if project_named {
        RateType::Project
    } else if client_named {
        RateType::Client
    } else {
        RateType::Default
    }
}

/// What a rate applies to, as shown: the project's name, else the
/// client's, else `fallback`.
pub fn scope_label(project: Option<&str>, client: Option<&str>, fallback: &str) -> (r: String)
    ensures
        r@ == match project {
            Some(p) => p@,
            None => match client {
                Some(c) => c@,
                None => fallback@,
            },
        },
{
    match project {
        Some(p) => text_of(p),
        None => match client {
            Some(c) => text_of(c),
            None => text_of(fallback),
        },
    }
}

/// Why a text does not read as an unsigned number (as `u64::from_str`
/// reports it).
#[derive(Debug, Clone, Copy, PartialEq, Eq, Structural)]
pub enum NumberError {
    Empty,
    InvalidDigit,
    TooLarge,
}

/// The value of decimal digit `c`, if it is one.
pub open spec fn digit_value(c: char) -> Option<nat> {
    if '0' <= c && c <= '9' {
        Some((c as u32 - '0' as u32) as nat)
    } else {
        None
    }
}

/// Reading the digits `d` after the value `acc` read so far.
pub open spec fn digits_read(d: Seq<char>, acc: nat) -> Result<u64, NumberError>
    decreases d.len(),
{
    if d.len() == 0 {
        Ok(acc as u64)
    } else {
        match digit_value(d[0]) {
            None => Err(NumberError::InvalidDigit),
            Some(v) => if acc * 10 + v > u64::MAX {
                Err(NumberError::TooLarge)
            } else {
                digits_read(d.drop_first(), acc * 10 + v)
            },
        }
    }
}

/// How `u64::from_str` reads `s`: decimal digits after an optional `+`;
/// a lone sign, or any other character, is an invalid digit, and the first
/// fault from the left is the one reported.
pub open spec fn number_read(s: Seq<char>) -> Result<u64, NumberError> {
    if s.len() == 0 {
        Err(NumberError::Empty)
    } else if s.len() == 1 && (s[0] == '+' || s[0] == '-') {
        Err(NumberError::InvalidDigit)
    } else if s[0] == '+' {
        digits_read(s.drop_first(), 0)
    } else {
        digits_read(s, 0)
    }
}

/// Reads an unsigned number as `u64::from_str` does.
pub fn parse_number(s: &str) -> (r: Result<u64, NumberError>)
    ensures
        r == number_read(s@),
{
    let cs = chars_of(s);
    if cs.len() == 0 {
        return Err(NumberError::Empty);
    }
    if cs.len() == 1 && (cs[0] == '+' || cs[0] == '-') {
        return Err(NumberError::InvalidDigit);
    }
    let mut i: usize = if cs[0] == '+' {
        1
    } else {
        0
    };
    let ghost digits = if cs@[0] == '+' {
        s@.drop_first()
    } else {
        s@
    };
    proof {
        assert(digits =~= s@.skip(i as int));
    }
    let mut acc: u64 = 0;
    while i < cs.len()
        invariant
            cs@ == s@,
            0 <= i <= cs@.len(),
            number_read(s@) == digits_read(s@.skip(i as int), acc as nat),
        decreases cs@.len() - i,
    {
        let c = cs[i];
        proof {
            assert(s@.skip(i as int)[0] == c);
            assert(s@.skip(i as int).drop_first() =~= s@.skip(i + 1));
        }
        if !('0' <= c && c <= '9') {
            return Err(NumberError::InvalidDigit);
        }
        let v = (c as u32 - '0' as u32) as u64;
        if acc > (u64::MAX - v) / 10 {
            proof {
                assert(acc * 10 + v > u64::MAX) by (nonlinear_arith)
                    requires
                        acc > (u64::MAX - v) / 10,
                        v <= 9,
                ;
            }
            return Err(NumberError::TooLarge);
        }
        proof {
            assert(acc * 10 + v <= u64::MAX) by (nonlinear_arith)
                requires
                    acc <= (u64::MAX - v) / 10,
                    v <= 9,
            ;
        }
        acc = acc * 10 + v;
        i = i + 1;
    }
    proof {
        assert(s@.skip(i as int) =~= Seq::<char>::empty());
    }
    Ok(acc)
}

/// What `std` says about a number that does not read.
pub open spec fn number_error_text(e: NumberError) -> Seq<char> {
    match e {
        NumberError::Empty => "cannot parse integer from empty string"@,
        NumberError::InvalidDigit => "invalid digit found in string"@,
        NumberError::TooLarge => "number too large to fit in target type"@,
    }
}

impl NumberError {
    /// What `std` says about the fault.
    pub fn describe(&self) -> (r: &'static str)
        ensures
            r@ == number_error_text(*self),
    {
        match self {
            NumberError::Empty => "cannot parse integer from empty string",
            NumberError::InvalidDigit => "invalid digit found in string",
            NumberError::TooLarge => "number too large to fit in target type",
        }
    }
}

/// How `bool::from_str` reads `s`: exactly `true` or `false`.
pub open spec fn flag_read(s: Seq<char>) -> Option<bool> {
    if s == "true"@ {
        Some(true)
    } else if s == "false"@ {
        Some(false)
    } else {
        None
    }
}

/// Reads a flag as `bool::from_str` does.
pub fn parse_flag(s: &str) -> (r: Option<bool>)
    ensures
        r == flag_read(s@),
{
    if same_str(s, "true") {
        Some(true)
    } else if same_str(s, "false") {
        Some(false)
    } else {
        None
    }
}

/// The subcommands of `saga config`.
#[derive(Debug)]
pub enum ConfigAction {
    /// Show the configuration.
    Show,
    /// Set one key to a value (`saga config set`).
    Assign { key: String, value: String },
    /// Show where the configuration file is.
    Path,
}

/// The settings of the configuration file.
#[derive(Debug, Clone, Copy, PartialEq, Eq, Structural)]
pub enum ConfigKey {
    DefaultCurrency,
    DefaultHourlyRate,
    DefaultBillable,
    DailyGoalHours,
    WeeklyGoalHours,
    TickRateMs,
    Theme,
    DateFormat,
    TimeFormat,
    ReminderIntervalMins,
}

/// The name of each setting.
pub open spec fn key_name(k: ConfigKey) -> Seq<char> {
    match k {
        ConfigKey::DefaultCurrency => "default_currency"@,
        ConfigKey::DefaultHourlyRate => "default_hourly_rate"@,
        ConfigKey::DefaultBillable => "default_billable"@,
        ConfigKey::DailyGoalHours => "daily_goal_hours"@,
        ConfigKey::WeeklyGoalHours => "weekly_goal_hours"@,
        ConfigKey::TickRateMs => "tick_rate_ms"@,
        ConfigKey::Theme => "theme"@,
        ConfigKey::DateFormat => "date_format"@,
        ConfigKey::TimeFormat => "time_format"@,
        ConfigKey::ReminderIntervalMins => "reminder_interval_mins"@,
    }
}

impl ConfigKey {
    /// The setting's name.
    pub fn name(&self) -> (r: &'static str)
        ensures
            r@ == key_name(*self),
    {
        match self {
            ConfigKey::DefaultCurrency => "default_currency",
            ConfigKey::DefaultHourlyRate => "default_hourly_rate",
            ConfigKey::DefaultBillable => "default_billable",
            ConfigKey::DailyGoalHours => "daily_goal_hours",
            ConfigKey::WeeklyGoalHours => "weekly_goal_hours",
            ConfigKey::TickRateMs => "tick_rate_ms",
            ConfigKey::Theme => "theme",
            ConfigKey::DateFormat => "date_format",
            ConfigKey::TimeFormat => "time_format",
            ConfigKey::ReminderIntervalMins => "reminder_interval_mins",
        }
    }
}

/// The setting named `name`, if any.
pub open spec fn key_named(name: Seq<char>) -> Option<ConfigKey> {
    if name == key_name(ConfigKey::DefaultCurrency) {
        Some(ConfigKey::DefaultCurrency)
    } else if name == key_name(ConfigKey::DefaultHourlyRate) {
        Some(ConfigKey::DefaultHourlyRate)
    } else if name == key_name(ConfigKey::DefaultBillable) {
        Some(ConfigKey::DefaultBillable)
    } else if name == key_name(ConfigKey::DailyGoalHours) {
        Some(ConfigKey::DailyGoalHours)
    } else if name == key_name(ConfigKey::WeeklyGoalHours) {
        Some(ConfigKey::WeeklyGoalHours)
    } else if name == key_name(ConfigKey::TickRateMs) {
        Some(ConfigKey::TickRateMs)
    } else if name == key_name(ConfigKey::Theme) {
        Some(ConfigKey::Theme)
    } else if name == key_name(ConfigKey::DateFormat) {
        Some(ConfigKey::DateFormat)
    } else if name == key_name(ConfigKey::TimeFormat) {
        Some(ConfigKey::TimeFormat)
    } else if name == key_name(ConfigKey::ReminderIntervalMins) {
        Some(ConfigKey::ReminderIntervalMins)
    } else {
        None
    }
}

/// The setting named `name`, or the complaint about an unknown key.
pub fn config_key(name: &str) -> (r: Result<ConfigKey, String>)
    ensures
        match key_named(name@) {
            Some(k) => r == Ok::<ConfigKey, String>(k),
            None => r matches Err(e) && e@ == "Unknown config key: '"@ + name@ + "'"@,
        },
{
    let keys = [
        ConfigKey::DefaultCurrency,
        ConfigKey::DefaultHourlyRate,
        ConfigKey::DefaultBillable,
        ConfigKey::DailyGoalHours,
        ConfigKey::WeeklyGoalHours,
        ConfigKey::TickRateMs,
        ConfigKey::Theme,
        ConfigKey::DateFormat,
        ConfigKey::TimeFormat,
        ConfigKey::ReminderIntervalMins,
    ];
    let mut i: usize = 0;
    while i < 10
        invariant
            0 <= i <= 10,
            keys@ == seq![
                ConfigKey::DefaultCurrency,
                ConfigKey::DefaultHourlyRate,
                ConfigKey::DefaultBillable,
                ConfigKey::DailyGoalHours,
                ConfigKey::WeeklyGoalHours,
                ConfigKey::TickRateMs,
                ConfigKey::Theme,
                ConfigKey::DateFormat,
                ConfigKey::TimeFormat,
                ConfigKey::ReminderIntervalMins,
            ],
            forall|j: int| 0 <= j < i ==> name@ != key_name(#[trigger] keys@[j]),
        decreases 10 - i,
    {
        let k = keys[i];
        if same_str(name, k.name()) {
            return Ok(k);
        }
        i = i + 1;
    }
    proof {
        assert(name@ != key_name(keys@[0]));
        assert(name@ != key_name(keys@[1]));
        assert(name@ != key_name(keys@[2]));
        assert(name@ != key_name(keys@[3]));
        assert(name@ != key_name(keys@[4]));
        assert(name@ != key_name(keys@[5]));
        assert(name@ != key_name(keys@[6]));
        assert(name@ != key_name(keys@[7]));
        assert(name@ != key_name(keys@[8]));
        assert(name@ != key_name(keys@[9]));
    }
    let mut v = chars_of("Unknown config key: '");
    push_text(&mut v, name);
    push_text(&mut v, "'");
    Err(string_of(v.as_slice()))
}

/// A value for a setting, read as the setting wants it. Hour and money
/// figures are decimal fractions, which the caller reads.
#[derive(Debug)]
pub enum ConfigValue {
    Text(String),
    Fraction(String),
    Flag(bool),
    Count(u64),
}

/// Why a value does not suit its setting: the complaint, and what the
/// reader said.
#[derive(Debug)]
pub struct ValueError {
    pub message: String,
    pub cause: String,
}

/// The value `text` given for setting `k`, or why it does not suit: a
/// flag must read as `bool`, a count as `u64`.
pub open spec fn value_read(k: ConfigKey, text: Seq<char>) -> Result<ConfigValue, (Seq<char>, Seq<char>)> {
    match k {
        ConfigKey::DefaultBillable => match flag_read(text) {
            Some(b) => Ok(ConfigValue::Flag(b)),
            None => Err(
                (
                    "Invalid boolean for default_billable (use true/false)"@,
                    "provided string was not `true` or `false`"@,
                ),
            ),
        },
        ConfigKey::TickRateMs => match number_read(text) {
            Ok(n) => Ok(ConfigValue::Count(n)),
            Err(e) => Err(("Invalid number for tick_rate_ms"@, number_error_text(e))),
        },
        ConfigKey::ReminderIntervalMins => match number_read(text) {
            Ok(n) => Ok(ConfigValue::Count(n)),
            Err(e) => Err(("Invalid number for reminder_interval_mins"@, number_error_text(e))),
        },
        _ => Err((Seq::empty(), Seq::empty())),
    }
}

/// Whether `v` is the value `text` gives setting `k`, or `e` why it does not
/// suit. Text settings take the text as it is, fractions are handed on as
/// text.
pub open spec fn value_of(k: ConfigKey, text: Seq<char>, r: Result<ConfigValue, ValueError>) -> bool {
    match k {
        ConfigKey::DefaultCurrency | ConfigKey::Theme | ConfigKey::DateFormat
        | ConfigKey::TimeFormat => r matches Ok(ConfigValue::Text(t)) && t@ == text,
        ConfigKey::DefaultHourlyRate | ConfigKey::DailyGoalHours
        | ConfigKey::WeeklyGoalHours => r matches Ok(ConfigValue::Fraction(t)) && t@ == text,
        _ => match value_read(k, text) {
            Ok(v) => r matches Ok(w) && w == v,
            Err(m) => r matches Err(e) && e.message@ == m.0 && e.cause@ == m.1,
        },
    }
}

/// Reads the value given for setting `k`.
pub fn config_value(k: ConfigKey, text: &str) -> (r: Result<ConfigValue, ValueError>)
    ensures
        value_of(k, text@, r),
{
    match k {
        ConfigKey::DefaultCurrency | ConfigKey::Theme | ConfigKey::DateFormat
        | ConfigKey::TimeFormat => Ok(ConfigValue::Text(text_of(text))),
        ConfigKey::DefaultHourlyRate | ConfigKey::DailyGoalHours
        | ConfigKey::WeeklyGoalHours => Ok(ConfigValue::Fraction(text_of(text))),
        ConfigKey::DefaultBillable => match parse_flag(text) {
            Some(b) => Ok(ConfigValue::Flag(b)),
            None => Err(
                ValueError {
                    message: text_of("Invalid boolean for default_billable (use true/false)"),
                    cause: text_of("provided string was not `true` or `false`"),
                },
            ),
        },
        ConfigKey::TickRateMs => match parse_number(text) {
            Ok(n) => Ok(ConfigValue::Count(n)),
            Err(e) => Err(
                ValueError {
                    message: text_of("Invalid number for tick_rate_ms"),
                    cause: text_of(e.describe()),
                },
            ),
        },
        ConfigKey::ReminderIntervalMins => match parse_number(text) {
            Ok(n) => Ok(ConfigValue::Count(n)),
            Err(e) => Err(
                ValueError {
                    message: text_of("Invalid number for reminder_interval_mins"),
                    cause: text_of(e.describe()),
                },
            ),
        },
    }
}

/// The subcommands of `saga clients`.
#[derive(Debug)]
pub enum ClientAction {
    List,
    Add { name: String, contact: Option<String>, email: Option<String> },
    Edit { name: String, new_name: Option<String>, contact: Option<String>, email: Option<String> },
    Delete { name: String },
}

/// The subcommands of `saga tags`.
#[derive(Debug)]
pub enum TagAction {
    List,
    Add { name: String, color: Option<String> },
    Delete { name: String },
}

/// The subcommands of `saga invoice`.
#[derive(Debug)]
pub enum InvoiceAction {
    Generate { client: String, from: String, to: String, output: Option<String> },
    List,
}


/// Each setting is read under its own name, as `saga config set` and the
/// configuration file spell it, and under no other: `daily_goal_hours`
/// names the daily goal, `weekly_goal_hours` the weekly one, and so on for
/// every setting; and every setting's name reads back as that setting.
pub proof fn law_config_key_names(k: ConfigKey)
    ensures
        key_named("default_currency"@) == Some(ConfigKey::DefaultCurrency),
        key_named("default_hourly_rate"@) == Some(ConfigKey::DefaultHourlyRate),
        key_named("default_billable"@) == Some(ConfigKey::DefaultBillable),
        key_named("daily_goal_hours"@) == Some(ConfigKey::DailyGoalHours),
        key_named("weekly_goal_hours"@) == Some(ConfigKey::WeeklyGoalHours),
        key_named("tick_rate_ms"@) == Some(ConfigKey::TickRateMs),
        key_named("theme"@) == Some(ConfigKey::Theme),
        key_named("date_format"@) == Some(ConfigKey::DateFormat),
        key_named("time_format"@) == Some(ConfigKey::TimeFormat),
        key_named("reminder_interval_mins"@) == Some(ConfigKey::ReminderIntervalMins),
        key_named(key_name(k)) == Some(k),
{
    reveal_strlit("default_currency");
    reveal_strlit("default_hourly_rate");
    reveal_strlit("default_billable");
    reveal_strlit("daily_goal_hours");
    reveal_strlit("weekly_goal_hours");
    reveal_strlit("tick_rate_ms");
    reveal_strlit("theme");
    reveal_strlit("date_format");
    reveal_strlit("time_format");
    reveal_strlit("reminder_interval_mins");
    assert("default_currency"@.len() != "default_hourly_rate"@.len());
    assert("default_currency"@[8] != "default_billable"@[8]);
    assert("default_currency"@[1] != "daily_goal_hours"@[1]);
    assert("default_currency"@.len() != "weekly_goal_hours"@.len());
    assert("default_currency"@.len() != "tick_rate_ms"@.len());
    assert("default_currency"@.len() != "theme"@.len());
    assert("default_currency"@.len() != "date_format"@.len());
    assert("default_currency"@.len() != "time_format"@.len());
    assert("default_currency"@.len() != "reminder_interval_mins"@.len());
    assert("default_hourly_rate"@.len() != "default_billable"@.len());
    assert("default_hourly_rate"@.len() != "daily_goal_hours"@.len());
    assert("default_hourly_rate"@.len() != "weekly_goal_hours"@.len());
    assert("default_hourly_rate"@.len() != "tick_rate_ms"@.len());
    assert("default_hourly_rate"@.len() != "theme"@.len());
    assert("default_hourly_rate"@.len() != "date_format"@.len());
    assert("default_hourly_rate"@.len() != "time_format"@.len());
    assert("default_hourly_rate"@.len() != "reminder_interval_mins"@.len());
    assert("default_billable"@[1] != "daily_goal_hours"@[1]);
    assert("default_billable"@.len() != "weekly_goal_hours"@.len());
    assert("default_billable"@.len() != "tick_rate_ms"@.len());
    assert("default_billable"@.len() != "theme"@.len());
    assert("default_billable"@.len() != "date_format"@.len());
    assert("default_billable"@.len() != "time_format"@.len());
    assert("default_billable"@.len() != "reminder_interval_mins"@.len());
    assert("daily_goal_hours"@.len() != "weekly_goal_hours"@.len());
    assert("daily_goal_hours"@.len() != "tick_rate_ms"@.len());
    assert("daily_goal_hours"@.len() != "theme"@.len());
    assert("daily_goal_hours"@.len() != "date_format"@.len());
    assert("daily_goal_hours"@.len() != "time_format"@.len());
    assert("daily_goal_hours"@.len() != "reminder_interval_mins"@.len());
    assert("weekly_goal_hours"@.len() != "tick_rate_ms"@.len());
    assert("weekly_goal_hours"@.len() != "theme"@.len());
    assert("weekly_goal_hours"@.len() != "date_format"@.len());
    assert("weekly_goal_hours"@.len() != "time_format"@.len());
    assert("weekly_goal_hours"@.len() != "reminder_interval_mins"@.len());
    assert("tick_rate_ms"@.len() != "theme"@.len());
    assert("tick_rate_ms"@.len() != "date_format"@.len());
    assert("tick_rate_ms"@.len() != "time_format"@.len());
    assert("tick_rate_ms"@.len() != "reminder_interval_mins"@.len());
    assert("theme"@.len() != "date_format"@.len());
    assert("theme"@.len() != "time_format"@.len());
    assert("theme"@.len() != "reminder_interval_mins"@.len());
    assert("date_format"@[0] != "time_format"@[0]);
    assert("date_format"@.len() != "reminder_interval_mins"@.len());
    assert("time_format"@.len() != "reminder_interval_mins"@.len());
}

} // verus!
