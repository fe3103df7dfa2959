//! What the interface does with the answers of the store.
//!
//! `apply` takes the state and the reply to a request that `step` (or an
//! earlier `apply`) asked for, folds the reply into the state, and says what
//! comes next, exactly as `step` does.

use vstd::prelude::*;
use crate::calendar::moment_ok;
use crate::clock::{format_stamp, formatted_stamp, parse_clock, parse_date, parsed_clock, parsed_date, pattern_text, StampFormat};
use crate::message::Message;
use crate::models::{
    lowercase, stamp_ok, to_lowercase, Client, DailySummary, NewTimeEntry, Project,
    ProjectBreakdown, TimeEntry,
};
use crate::state::{entry_ok, frame, names_unique, selection_ok, App, EntryFormState, Field, InputMode, Modal};
use crate::text::{chars_of, text_fits};
use crate::update::{just_status, now_ok, performs, say, say_with, status_set, Command, Now, Request};

verus! {

/// The sum of `s`, as a mathematical integer.
pub open spec fn total(s: Seq<i64>) -> int
    decreases s.len(),
{
    if s.len() == 0 {
        0
    } else {
        total(s.drop_last()) + s.last()
    }
}

/// Every running sum of `s`, from the left, fits an `i64`: adding `s` up in
/// `i64` arithmetic does not overflow.
pub open spec fn adds_up(s: Seq<i64>) -> bool {
    forall|k: int| 0 <= k <= s.len() ==> i64::MIN <= #[trigger] total(s.take(k)) <= i64::MAX
}

/// Adds `v` up.
pub fn add_up(v: &Vec<i64>) -> (r: i64)
    requires
        adds_up(v@),
    ensures
        r == total(v@),
{
    let mut acc: i64 = 0;
    let mut i: usize = 0;
    proof {
        assert(v@.take(0) =~= Seq::<i64>::empty());
    }
    while i < v.len()
        invariant
            0 <= i <= v@.len(),
            adds_up(v@),
            acc == total(v@.take(i as int)),
        decreases v@.len() - i,
    {
        proof {
            assert(v@.take(i + 1).drop_last() =~= v@.take(i as int));
            assert(i64::MIN <= total(v@.take(i + 1)) <= i64::MAX);
        }
        acc = acc + v[i];
        i = i + 1;
    }
    proof {
        assert(v@.take(v@.len() as int) =~= v@);
    }
    acc
}

/// The project ids of `s` in order of first appearance.
pub open spec fn first_ids(s: Seq<TimeEntry>) -> Seq<i64>
    decreases s.len(),
{
    if s.len() == 0 {
        Seq::empty()
    } else {
        let ids = first_ids(s.drop_last());
        if ids.contains(s.last().project_id) {
            ids
        } else {
            ids.push(s.last().project_id)
        }
    }
}

/// Whether `x` occurs in `v`.
pub fn has_id(v: &Vec<i64>, x: i64) -> (r: bool)
    ensures
        r == v@.contains(x),
{
    let mut i: usize = 0;
    while i < v.len()
        invariant
            0 <= i <= v@.len(),
            forall|j: int| 0 <= j < i ==> v@[j] != x,
        decreases v@.len() - i,
    {
        if v[i] == x {
            assert(v@[i as int] == x);
            return true;
        }
        i = i + 1;
    }
    false
}

/// The project ids of `entries`, each once, in order of first appearance.
pub fn first_project_ids(entries: &Vec<TimeEntry>) -> (r: Vec<i64>)
    ensures
        r@ == first_ids(entries@),
{
    let mut ids: Vec<i64> = Vec::new();
    let mut i: usize = 0;
    proof {
        assert(entries@.take(0) =~= Seq::<TimeEntry>::empty());
    }
    while i < entries.len()
        invariant
            0 <= i <= entries@.len(),
            ids@ == first_ids(entries@.take(i as int)),
        decreases entries@.len() - i,
    {
        proof {
            assert(entries@.take(i + 1).drop_last() =~= entries@.take(i as int));
        }
        let pid = entries[i].project_id;
        if !has_id(&ids, pid) {
            ids.push(pid);
        }
        i = i + 1;
    }
    proof {
        assert(entries@.take(entries@.len() as int) =~= entries@);
    }
    ids
}

/// The project ids of a name book.
pub open spec fn ids_of(book: Seq<(i64, String)>) -> Seq<i64> {
    book.map_values(|p: (i64, String)| p.0)
}

/// The name book made of the names found: for each project whose name was
/// found, the first name found for it.
pub open spec fn name_book(found: Seq<(i64, Option<String>)>) -> Seq<(i64, String)>
    decreases found.len(),
{
    if found.len() == 0 {
        Seq::empty()
    } else {
        let book = name_book(found.drop_last());
        let last = found.last();
        match last.1 {
            Some(name) => if ids_of(book).contains(last.0) {
                book
            } else {
                book.push((last.0, name))
            },
            None => book,
        }
    }
}

/// Whether the name book has a name for project `pid`.
pub fn book_has(book: &Vec<(i64, String)>, pid: i64) -> (r: bool)
    ensures
        r == ids_of(book@).contains(pid),
{
    let mut i: usize = 0;
    while i < book.len()
        invariant
            0 <= i <= book@.len(),
            forall|j: int| 0 <= j < i ==> book@[j].0 != pid,
        decreases book@.len() - i,
    {
        if book[i].0 == pid {
            assert(ids_of(book@)[i as int] == pid);
            return true;
        }
        i = i + 1;
    }
    proof {
        if ids_of(book@).contains(pid) {
            let k = choose|k: int| 0 <= k < ids_of(book@).len() && ids_of(book@)[k] == pid;
            assert(book@[k].0 == pid);
        }
    }
    false
}

/// A name book has one name per project, and its names are the found ones.
pub proof fn lemma_name_book(found: Seq<(i64, Option<String>)>)
    ensures
        names_unique(name_book(found)),
        forall|i: int| 0 <= i < name_book(found).len() ==> exists|j: int|
            0 <= j < found.len() && found[j].1 == Some(#[trigger] name_book(found)[i].1),
    decreases found.len(),
{
    if found.len() > 0 {
        let rest = found.drop_last();
        lemma_name_book(rest);
        let book = name_book(rest);
        let last = found.last();
        assert forall|i: int| 0 <= i < name_book(found).len() implies exists|j: int|
            0 <= j < found.len() && found[j].1 == Some(#[trigger] name_book(found)[i].1) by {
            if i < book.len() {
                let j = choose|j: int| 0 <= j < rest.len() && rest[j].1 == Some(book[i].1);
                assert(found[j] == rest[j]);
            } else {
                assert(found[found.len() - 1] == last);
            }
        }
        if last.1 is Some && !ids_of(book).contains(last.0) {
            assert forall|i: int, j: int| 0 <= i < j < name_book(found).len() implies
                name_book(found)[i].0 != name_book(found)[j].0 by {
                if j == book.len() {
                    assert(ids_of(book)[i] == book[i].0);
                }
            }
        }
    }
}

/// Builds the name book from the names found.
pub fn build_book(found: Vec<(i64, Option<String>)>) -> (book: Vec<(i64, String)>)
    ensures
        book@ == name_book(found@),
{
    let ghost all = found@;
    assert(all.len() == found.len());
    let mut rest = found;
    let mut book: Vec<(i64, String)> = Vec::new();
    let mut i: usize = 0;
    proof {
        assert(all.take(0) =~= Seq::<(i64, Option<String>)>::empty());
        assert(all.skip(0) =~= all);
    }
    while rest.len() > 0
        invariant
            0 <= i <= all.len(),
            all.len() <= usize::MAX,
            rest@ == all.skip(i as int),
            book@ == name_book(all.take(i as int)),
        decreases rest@.len(),
    {
        proof {
            assert(all.take(i + 1).drop_last() =~= all.take(i as int));
            assert(all.skip(i as int)[0] == all[i as int]);
            assert(all.skip(i as int).remove(0) =~= all.skip(i + 1));
        }
        let (pid, name) = rest.remove(0);
        match name {
            Some(n) => {
                if !book_has(&book, pid) {
                    book.push((pid, n));
                }
            },
            None => {},
        }
        i = i + 1;
    }
    proof {
        assert(all.take(i as int) =~= all);
    }
    book
}

/// `needle` occurs in `hay` as a run of consecutive characters.
pub open spec fn has_infix(hay: Seq<char>, needle: Seq<char>) -> bool {
    exists|i: int| 0 <= i && i + needle.len() <= hay.len() && #[trigger] hay.subrange(
        i,
        i + needle.len(),
    ) == needle
}

/// Whether `needle` occurs at position `at` of `hay`.
fn occurs_at(hay: &Vec<char>, needle: &Vec<char>, at: usize) -> (r: bool)
    requires
        at + needle@.len() <= hay@.len(),
    ensures
        r == (hay@.subrange(at as int, at + needle@.len()) == needle@),
{
    let mut k: usize = 0;
    assert(hay@.len() == hay.len());
    while k < needle.len()
        invariant
            at + needle@.len() <= hay@.len(),
            hay@.len() <= usize::MAX,
            0 <= k <= needle@.len(),
            forall|j: int| 0 <= j < k ==> hay@[at + j] == needle@[j],
        decreases needle@.len() - k,
    {
        if hay[at + k] != needle[k] {
            assert(hay@.subrange(at as int, at + needle@.len())[k as int] != needle@[k as int]);
            return false;
        }
        k = k + 1;
    }
    assert(hay@.subrange(at as int, at + needle@.len()) =~= needle@);
    true
}

/// Whether `needle` occurs in `hay` (`str::contains` on characters).
pub fn text_contains(hay: &Vec<char>, needle: &Vec<char>) -> (r: bool)
    ensures
        r == has_infix(hay@, needle@),
{
    if needle.len() > hay.len() {
        return false;
    }
    let last = hay.len() - needle.len();
    let mut at: usize = 0;
    loop
        invariant
            last == hay@.len() - needle@.len(),
            0 <= at <= last,
            forall|i: int| 0 <= i < at ==> #[trigger] hay@.subrange(i, i + needle@.len()) != needle@,
        decreases last - at,
    {
        if occurs_at(hay, needle, at) {
            return true;
        }
        if at == last {
            return false;
        }
        at = at + 1;
    }
}

/// The candidates whose lowercase name holds `filter`, in their order.
pub open spec fn picked(candidates: Seq<Project>, filter: Seq<char>) -> Seq<Project>
    decreases candidates.len(),
{
    if candidates.len() == 0 {
        Seq::empty()
    } else {
        let kept = picked(candidates.drop_last(), filter);
        if has_infix(lowercase(candidates.last().name@), filter) {
            kept.push(candidates.last())
        } else {
            kept
        }
    }
}

/// The picker keeps exactly the candidates whose lowercase name holds the
/// search text: each project kept is a candidate that matches, each
/// matching candidate is kept, and no more are kept than were offered.
pub proof fn law_picker_keeps_matches(candidates: Seq<Project>, filter: Seq<char>)
    ensures
        picked(candidates, filter).len() <= candidates.len(),
        forall|i: int|
            0 <= i < picked(candidates, filter).len() ==> has_infix(
                lowercase((#[trigger] picked(candidates, filter)[i]).name@),
                filter,
            ) && candidates.contains(picked(candidates, filter)[i]),
        forall|i: int|
            0 <= i < candidates.len() && has_infix(lowercase((#[trigger] candidates[i]).name@), filter)
                ==> picked(candidates, filter).contains(candidates[i]),
    decreases candidates.len(),
{
    if candidates.len() > 0 {
        let rest = candidates.drop_last();
        law_picker_keeps_matches(rest, filter);
        let kept = picked(rest, filter);
        let last = candidates.last();
        let all = picked(candidates, filter);
        assert forall|i: int| 0 <= i < all.len() implies has_infix(
            lowercase((#[trigger] all[i]).name@),
            filter,
        ) && candidates.contains(all[i]) by {
            if i < kept.len() {
                assert(all[i] == kept[i]);
                assert(rest.contains(kept[i]));
                let j = choose|j: int| 0 <= j < rest.len() && rest[j] == kept[i];
                assert(candidates[j] == rest[j]);
                assert(candidates.contains(all[i]));
            } else {
                assert(all[i] == last);
                assert(candidates[candidates.len() - 1] == last);
            }
        }
        assert forall|i: int|
            0 <= i < candidates.len() && has_infix(lowercase((#[trigger] candidates[i]).name@), filter)
                implies all.contains(candidates[i]) by {
            if i < rest.len() {
                assert(rest[i] == candidates[i]);
                let j = choose|j: int| 0 <= j < kept.len() && kept[j] == rest[i];
                assert(all[j] == kept[j]);
            } else {
                assert(all[all.len() - 1] == last);
            }
        }
    }
}

/// Keeps the candidates whose lowercase name holds `filter`.
pub fn pick_projects(candidates: Vec<Project>, filter: &Vec<char>) -> (r: Vec<Project>)
    ensures
        r@ == picked(candidates@, filter@),
{
    let ghost all = candidates@;
    assert(all.len() == candidates.len());
    let mut rest = candidates;
    let mut kept: Vec<Project> = Vec::new();
    let mut i: usize = 0;
    proof {
        assert(all.take(0) =~= Seq::<Project>::empty());
        assert(all.skip(0) =~= all);
    }
    while rest.len() > 0
        invariant
            0 <= i <= all.len(),
            all.len() <= usize::MAX,
            rest@ == all.skip(i as int),
            kept@ == picked(all.take(i as int), filter@),
        decreases rest@.len(),
    {
        proof {
            assert(all.take(i + 1).drop_last() =~= all.take(i as int));
            assert(all.skip(i as int)[0] == all[i as int]);
            assert(all.skip(i as int).remove(0) =~= all.skip(i + 1));
        }
        let p = rest.remove(0);
        let lower = to_lowercase(p.name.as_str());
        let name = chars_of(lower.as_str());
        if text_contains(&name, filter) {
            kept.push(p);
        }
        i = i + 1;
    }
    proof {
        assert(all.take(i as int) =~= all);
    }
    kept
}

/// The answer of the store to a request.
#[derive(Debug)]
pub enum Reply {
    /// To `LoadActiveTimer`: the running entry, if any, with the name of its
    /// project when looking the project up succeeded.
    ActiveTimer(Result<Option<(TimeEntry, Option<String>)>, String>),
    /// To `LoadToday`.
    Today(Result<Vec<TimeEntry>, String>),
    /// To `LoadEntries`.
    Entries(Result<Vec<TimeEntry>, String>),
    /// To `LookupNames`: each project asked for, with its name when found.
    Names(Vec<(i64, Option<String>)>),
    /// To `LoadProjects`.
    Projects(Result<Vec<Project>, String>),
    /// To `LoadClients`.
    Clients(Result<Vec<Client>, String>),
    /// To `LoadWeek`: the Monday asked for, and the seconds tracked on each
    /// of its seven days (`None` where reading a day failed).
    Week(i64, Vec<Option<i64>>),
    /// To `LoadReport`: the per-project breakdown and the daily summaries.
    Report(Result<Vec<ProjectBreakdown>, String>, Result<Vec<DailySummary>, String>),
    /// To `StartEntry`.
    Started(Result<(), String>),
    /// To `StopActive`: whether a timer was running.
    Stopped(Result<bool, String>),
    /// To `CancelActive`: whether a timer was running.
    Cancelled(Result<bool, String>),
    /// To `DeleteEntry`.
    EntryDeleted(Result<(), String>),
    /// To `ArchiveProject` and `ActivateProject`.
    ProjectStatusChanged(Result<(), String>),
    /// To `DeleteClient`.
    ClientDeleted(Result<(), String>),
    /// To `FindProject`: the id of the project found, if any.
    ProjectFound(Result<Option<i64>, String>),
    /// To `CreateProject`: the id of the new project.
    ProjectCreated(Result<i64, String>),
    /// To `RemoveEditedEntry`, with the replacement entry it carried.
    EditedEntryRemoved(Result<(), String>, NewTimeEntry),
    /// To `SaveEntry`, with its flag.
    EntrySaved(Result<(), String>, bool),
    /// To `LoadPicker`.
    PickerProjects(Result<Vec<Project>, String>),
    /// To `FilterPicker`: the active projects, before filtering.
    PickerCandidates(Result<Vec<Project>, String>),
    /// To `SaveReportCsv` and `SaveReportPdf`: the name of the file written.
    ReportSaved(Result<String, String>),
}

/// A selection moved back onto the last item when the list shrank below it.
pub open spec fn clamped(sel: usize, len: nat) -> usize {
    if sel >= len && len > 0 {
        (len - 1) as usize
    } else {
        sel
    }
}

/// The seconds an entry of today counts: its duration once stopped, the
/// time since its start while it runs.
pub open spec fn entry_seconds(e: TimeEntry, now: Now) -> i64 {
    match e.duration_secs {
        Some(d) => d,
        None => (now.local - e.start_time) as i64,
    }
}

/// The seconds each of `s` counts.
pub open spec fn today_seconds(s: Seq<TimeEntry>, now: Now) -> Seq<i64> {
    s.map_values(|e: TimeEntry| entry_seconds(e, now))
}

/// The total seconds of each project in a breakdown.
pub open spec fn breakdown_totals(s: Seq<ProjectBreakdown>) -> Seq<i64> {
    s.map_values(|b: ProjectBreakdown| b.total_seconds)
}

/// The billable seconds of each project in a breakdown.
pub open spec fn breakdown_billables(s: Seq<ProjectBreakdown>) -> Seq<i64> {
    s.map_values(|b: ProjectBreakdown| b.billable_seconds)
}

/// The seconds shown for day `i` of the week: what was read, or zero.
pub open spec fn day_total(totals: Seq<Option<i64>>, i: int) -> i64 {
    if 0 <= i < totals.len() {
        match totals[i] {
            Some(t) => t,
            None => 0,
        }
    } else {
        0
    }
}

/// The seven rows of the week chart from `monday`: each day's abbreviated
/// weekday name and its seconds.
pub open spec fn week_rows_of(rows: Seq<(String, i64)>, monday: i64, totals: Seq<Option<i64>>) -> bool {
    &&& rows.len() == 7
    &&& forall|i: int|
        0 <= i < 7 ==> (#[trigger] rows[i]).0@ == formatted_stamp(
            (monday + i * 86400) as i64,
            pattern_text(StampFormat::Weekday),
        ) && rows[i].1 == day_total(totals, i)
}

/// The stamp of the date-time the form reads from a date text and a clock
/// text, if both read.
pub open spec fn parsed_moment(date: Seq<char>, clock: Seq<char>) -> Option<i64> {
    moment_from(parsed_date(date), parsed_clock(clock))
}

/// The moment a date (the stamp of its midnight) and a time of day (seconds
/// after midnight) make together, when both were read.
pub open spec fn moment_from(date: Option<i64>, clock: Option<i64>) -> Option<i64> {
    match (date, clock) {
        (Some(d), Some(t)) => Some((d + t) as i64),
        _ => None,
    }
}

/// Puts a date and a time of day together into one moment, when both were
/// read.
pub fn moment_of(date: Option<i64>, clock: Option<i64>) -> (r: Option<i64>)
    requires
        date matches Some(d) ==> stamp_ok(d),
        clock matches Some(t) ==> 0 <= t < 86400,
    ensures
        r == moment_from(date, clock),
{
    match date {
        Some(d) => match clock {
            Some(t) => Some(d + t),
            None => None,
        },
        None => None,
    }
}

/// `e` is the entry the form stores for project `pid`, from `start` to `end`.
pub open spec fn form_entry(e: NewTimeEntry, f: EntryFormState, pid: i64, start: i64, end: Option<i64>) -> bool {
    &&& e.project_id == pid
    &&& e.description@ == f.description.value@
    &&& e.start_time == start
    &&& e.end_time == end
    &&& e.billable == f.billable
    &&& e.tags@.len() == 0
}

/// `cmd` stores the form's entry: after removing the edited entry when the
/// form edits one, directly otherwise.
pub open spec fn stores(cmd: Command, f: EntryFormState, pid: i64, start: i64, end: Option<i64>) -> bool {
    cmd matches Command::Perform(rs) && rs@.len() == 1 && match f.editing_id {
        Some(id) => rs@[0] matches Request::RemoveEditedEntry(eid, e) && eid == id && form_entry(
            e,
            f,
            pid,
            start,
            end,
        ),
        None => rs@[0] matches Request::SaveEntry(e, editing) && !editing && form_entry(
            e,
            f,
            pid,
            start,
            end,
        ),
    }
}

/// How submitting the form goes on once its project is known to be `pid`:
/// the date and times are read, and the entry is stored, or the status says
/// which time did not read.
pub open spec fn submitted(a: App, pid: i64, now: Now, b: App, cmd: Command) -> bool {
    let f = a.entry_form;
    match parsed_moment(f.date.value@, f.start_time.value@) {
        None => just_status(a, b, "Invalid start time format."@, now, cmd),
        Some(start) => if f.end_time.value@.len() == 0 {
            b == a && stores(cmd, f, pid, start, None)
        } else {
            match parsed_moment(f.date.value@, f.end_time.value@) {
                None => just_status(a, b, "Invalid end time format."@, now, cmd),
                Some(end) => b == a && stores(cmd, f, pid, start, Some(end)),
            }
        },
    }
}

/// A name found, if any, fits in memory.
pub open spec fn name_fits(p: (i64, Option<String>)) -> bool {
    match p.1 {
        Some(n) => text_fits(n@),
        None => true,
    }
}

/// `cmd` looks up the names of exactly the projects `ids`.
pub open spec fn looks_up(cmd: Command, ids: Seq<i64>) -> bool {
    match cmd {
        Command::Perform(rs) => rs@.len() == 1 && match rs@[0] {
            Request::LookupNames(asked) => asked@ == ids,
            _ => false,
        },
        _ => false,
    }
}

/// `cmd` creates a project named `name`.
pub open spec fn creates_project(cmd: Command, name: Seq<char>) -> bool {
    match cmd {
        Command::Perform(rs) => rs@.len() == 1 && match rs@[0] {
            Request::CreateProject(n) => n@ == name,
            _ => false,
        },
        _ => false,
    }
}

/// The replies `apply` can take in state `a`: what the store handed back
/// lies in the ranges the interface works in. Stamps and texts that come
/// from the store always do; the sums are the ones the interface adds up in
/// `i64`, and a picker list arrives right after the picker's selection was
/// reset.
pub open spec fn reply_ok(a: App, r: Reply, now: Now) -> bool {
    match r {
        Reply::ActiveTimer(Ok(Some(found))) => stamp_ok(found.0.start_time),
        Reply::Today(Ok(v)) => {
            &&& forall|i: int| 0 <= i < v@.len() ==> stamp_ok(#[trigger] v@[i].start_time)
            &&& adds_up(today_seconds(v@, now))
        },
        Reply::Entries(Ok(v)) => forall|i: int| 0 <= i < v@.len() ==> entry_ok(#[trigger] v@[i]),
        Reply::Names(v) => forall|i: int| 0 <= i < v@.len() ==> name_fits(#[trigger] v@[i]),
        Reply::Week(monday, _) => moment_ok(monday),
        Reply::Report(Ok(v), _) => adds_up(breakdown_totals(v@)) && adds_up(
            breakdown_billables(v@),
        ),
        Reply::PickerProjects(Ok(v)) => selection_ok(a.picker_selected, v@.len()),
        _ => true,
    }
}

/// How the state and the next command follow from `a` on reply `r` at `now`.
pub open spec fn applied(a: App, r: Reply, now: Now, b: App, cmd: Command) -> bool {
    match r {
        Reply::ActiveTimer(res) => match res {
            Ok(Some(found)) => {
                &&& b.active_entry == Some(found.0)
                &&& b.timer_seconds == (now.local - found.0.start_time) as u64
                &&& b.active_project_name == match found.1 {
                    Some(n) => Some(n),
                    None => a.active_project_name,
                }
                &&& frame(a, b, set![Field::ActiveEntry, Field::TimerSeconds, Field::ActiveProjectName])
                &&& cmd is Done
            },
            Ok(None) => {
                &&& b.active_entry is None
                &&& b.active_project_name is None
                &&& b.timer_seconds == 0
                &&& frame(a, b, set![Field::ActiveEntry, Field::TimerSeconds, Field::ActiveProjectName])
                &&& cmd is Done
            },
            Err(_) => b == a && cmd is Done,
        },
        Reply::Today(res) => match res {
            Ok(v) => {
                &&& b.today_entries == v
                &&& b.today_total_secs == total(today_seconds(v@, now))
                &&& frame(a, b, set![Field::TodayEntries, Field::TodayTotalSecs])
                &&& cmd is Done
            },
            Err(_) => b == a && cmd is Done,
        },
        Reply::Entries(res) => match res {
            Ok(v) => {
                &&& b.entries == v
                &&& b.entries_selected == clamped(a.entries_selected, v@.len())
                &&& b.entry_project_names@.len() == 0
                &&& frame(a, b, set![Field::Entries, Field::EntriesSelected, Field::EntryProjectNames])
                &&& looks_up(cmd, first_ids(v@))
            },
            Err(_) => b == a && cmd is Done,
        },
        Reply::Names(found) => {
            &&& b.entry_project_names@ == name_book(found@)
            &&& frame(a, b, set![Field::EntryProjectNames])
            &&& cmd is Done
        },
        Reply::Projects(res) => match res {
            Ok(v) => {
                &&& b.projects == v
                &&& b.projects_selected == clamped(a.projects_selected, v@.len())
                &&& frame(a, b, set![Field::Projects, Field::ProjectsSelected])
                &&& cmd is Done
            },
            Err(_) => b == a && cmd is Done,
        },
        Reply::Clients(res) => match res {
            Ok(v) => {
                &&& b.clients == v
                &&& b.clients_selected == clamped(a.clients_selected, v@.len())
                &&& frame(a, b, set![Field::Clients, Field::ClientsSelected])
                &&& cmd is Done
            },
            Err(_) => b == a && cmd is Done,
        },
        Reply::Week(monday, totals) => {
            &&& week_rows_of(b.week_daily_totals@, monday, totals@)
            &&& frame(a, b, set![Field::WeekDailyTotals])
            &&& cmd is Done
        },
        Reply::Report(breakdown, summaries) => {
            &&& match breakdown {
                Ok(v) => {
                    &&& b.report_project_breakdown == v
                    &&& b.report_total_secs == total(breakdown_totals(v@))
                    &&& b.report_billable_secs == total(breakdown_billables(v@))
                },
                Err(_) => {
                    &&& b.report_project_breakdown == a.report_project_breakdown
                    &&& b.report_total_secs == a.report_total_secs
                    &&& b.report_billable_secs == a.report_billable_secs
                },
            }
            &&& b.report_daily_summaries == match summaries {
                Ok(v) => v,
                Err(_) => a.report_daily_summaries,
            }
            &&& frame(
                a,
                b,
                set![
                    Field::ReportProjectBreakdown,
                    Field::ReportTotalSecs,
                    Field::ReportBillableSecs,
                    Field::ReportDailySummaries,
                ],
            )
            &&& cmd is Done
        },
        Reply::Started(res) => match res {
            Ok(_) => {
                &&& status_set(b, "Timer started!"@, now)
                &&& frame(a, b, set![Field::StatusMessage])
                &&& performs(cmd, seq![Request::LoadActiveTimer])
            },
            Err(e) => just_status(a, b, "Error: "@ + e@, now, cmd),
        },
        Reply::Stopped(res) => match res {
            Ok(true) => {
                &&& b.active_entry is None
                &&& b.active_project_name is None
                &&& b.timer_seconds == 0
                &&& status_set(b, "Timer stopped."@, now)
                &&& frame(
                    a,
                    b,
                    set![
                        Field::ActiveEntry,
                        Field::ActiveProjectName,
                        Field::TimerSeconds,
                        Field::StatusMessage,
                    ],
                )
                &&& performs(cmd, seq![Request::LoadToday])
            },
            Ok(false) => just_status(a, b, "No timer running."@, now, cmd),
            Err(e) => just_status(a, b, "Error: "@ + e@, now, cmd),
        },
        Reply::Cancelled(res) => match res {
            Ok(true) => {
                &&& b.active_entry is None
                &&& b.active_project_name is None
                &&& b.timer_seconds == 0
                &&& status_set(b, "Timer cancelled."@, now)
                &&& frame(
                    a,
                    b,
                    set![
                        Field::ActiveEntry,
                        Field::ActiveProjectName,
                        Field::TimerSeconds,
                        Field::StatusMessage,
                    ],
                )
                &&& cmd is Done
            },
            Ok(false) => just_status(a, b, "No timer running."@, now, cmd),
            Err(e) => just_status(a, b, "Error: "@ + e@, now, cmd),
        },
        Reply::EntryDeleted(res) => match res {
            Ok(_) => {
                &&& status_set(b, "Entry deleted."@, now)
                &&& frame(a, b, set![Field::StatusMessage])
                &&& performs(cmd, seq![Request::LoadEntries, Request::LoadToday])
            },
            Err(e) => just_status(a, b, "Error: "@ + e@, now, cmd),
        },
        Reply::ProjectStatusChanged(res) => match res {
            Ok(_) => {
                &&& status_set(b, "Project status updated."@, now)
                &&& frame(a, b, set![Field::StatusMessage])
                &&& performs(cmd, seq![Request::LoadProjects(a.show_archived_projects)])
            },
            Err(e) => just_status(a, b, "Error: "@ + e@, now, cmd),
        },
        Reply::ClientDeleted(res) => match res {
            Ok(_) => {
                &&& status_set(b, "Client deleted."@, now)
                &&& frame(a, b, set![Field::StatusMessage])
                &&& performs(cmd, seq![Request::LoadClients])
            },
            Err(e) => just_status(a, b, "Error: "@ + e@, now, cmd),
        },
        Reply::ReportSaved(res) => match res {
            Ok(path) => just_status(a, b, "Report saved to "@ + path@, now, cmd),
            Err(e) => just_status(a, b, "Error: "@ + e@, now, cmd),
        },
        Reply::ProjectFound(res) => match res {
            Ok(Some(pid)) => submitted(a, pid, now, b, cmd),
            Ok(None) => {
                &&& b == a
                &&& creates_project(cmd, a.entry_form.project_name.value@)
            },
            Err(e) => just_status(a, b, "Error: "@ + e@, now, cmd),
        },
        Reply::ProjectCreated(res) => match res {
            Ok(pid) => submitted(a, pid, now, b, cmd),
            Err(e) => just_status(a, b, "Error creating project: "@ + e@, now, cmd),
        },
        Reply::EditedEntryRemoved(res, e) => match res {
            Ok(_) => b == a && performs(cmd, seq![Request::SaveEntry(e, true)]),
            Err(x) => just_status(a, b, "Error: "@ + x@, now, cmd),
        },
        Reply::EntrySaved(res, editing) => {
            &&& status_set(
                b,
                match res {
                    Ok(_) => if editing {
                        "Entry updated."@
                    } else {
                        "Entry created."@
                    },
                    Err(x) => "Error: "@ + x@,
                },
                now,
            )
            &&& b.modal == Modal::Closed
            &&& b.input_mode == InputMode::Normal
            &&& frame(a, b, set![Field::StatusMessage, Field::Modal, Field::InputMode])
            &&& performs(cmd, seq![Request::LoadEntries, Request::LoadToday])
        },
        Reply::PickerProjects(res) => match res {
            Ok(v) => {
                &&& b.picker_projects == v
                &&& frame(a, b, set![Field::PickerProjects])
                &&& cmd is Done
            },
            Err(_) => b == a && cmd is Done,
        },
        Reply::PickerCandidates(res) => match res {
            Ok(v) => {
                let filter = lowercase(a.picker_filter.value@);
                &&& b.picker_projects@ == if filter.len() == 0 {
                    v@
                } else {
                    picked(v@, filter)
                }
                &&& b.picker_selected == 0
                &&& frame(a, b, set![Field::PickerProjects, Field::PickerSelected])
                &&& cmd is Done
            },
            Err(_) => b == a && cmd is Done,
        },
    }
}

/// The seconds each of today's entries counts.
fn today_values(v: &Vec<TimeEntry>, now: Now) -> (r: Vec<i64>)
    requires
        now_ok(now),
        forall|i: int| 0 <= i < v@.len() ==> stamp_ok(#[trigger] v@[i].start_time),
    ensures
        r@ == today_seconds(v@, now),
{
    let mut r: Vec<i64> = Vec::new();
    let mut i: usize = 0;
    while i < v.len()
        invariant
            now_ok(now),
            forall|j: int| 0 <= j < v@.len() ==> stamp_ok(#[trigger] v@[j].start_time),
            0 <= i <= v@.len(),
            r@.len() == i,
            forall|j: int| 0 <= j < i ==> r@[j] == entry_seconds(#[trigger] v@[j], now),
        decreases v@.len() - i,
    {
        let secs = match v[i].duration_secs {
            Some(d) => d,
            None => {
                assert(stamp_ok(v@[i as int].start_time));
                now.local - v[i].start_time
            },
        };
        r.push(secs);
        i = i + 1;
    }
    assert(r@ =~= today_seconds(v@, now));
    r
}

/// The total and billable seconds of each project in a breakdown.
fn breakdown_values(v: &Vec<ProjectBreakdown>) -> (r: (Vec<i64>, Vec<i64>))
    ensures
        r.0@ == breakdown_totals(v@),
        r.1@ == breakdown_billables(v@),
{
    let mut totals: Vec<i64> = Vec::new();
    let mut billables: Vec<i64> = Vec::new();
    let mut i: usize = 0;
    while i < v.len()
        invariant
            0 <= i <= v@.len(),
            totals@.len() == i,
            billables@.len() == i,
            forall|j: int| 0 <= j < i ==> totals@[j] == (#[trigger] v@[j]).total_seconds,
            forall|j: int| 0 <= j < i ==> billables@[j] == (#[trigger] v@[j]).billable_seconds,
        decreases v@.len() - i,
    {
        totals.push(v[i].total_seconds);
        billables.push(v[i].billable_seconds);
        i = i + 1;
    }
    assert(totals@ =~= breakdown_totals(v@));
    assert(billables@ =~= breakdown_billables(v@));
    (totals, billables)
}

/// The seven rows of the week chart from `monday`.
fn week_rows(monday: i64, totals: &Vec<Option<i64>>) -> (rows: Vec<(String, i64)>)
    requires
        moment_ok(monday),
    ensures
        week_rows_of(rows@, monday, totals@),
{
    let mut rows: Vec<(String, i64)> = Vec::new();
    let mut i: usize = 0;
    while i < 7
        invariant
            moment_ok(monday),
            0 <= i <= 7,
            rows@.len() == i,
            forall|j: int|
                0 <= j < i ==> (#[trigger] rows@[j]).0@ == formatted_stamp(
                    (monday + j * 86400) as i64,
                    pattern_text(StampFormat::Weekday),
                ) && rows@[j].1 == day_total(totals@, j),
        decreases 7 - i,
    {
        let day = monday + (i as i64) * 86400;
        let label = format_stamp(day, StampFormat::Weekday);
        let secs = if i < totals.len() {
            match totals[i] {
                Some(t) => t,
                None => 0,
            }
        } else {
            0
        };
        rows.push((label, secs));
        i = i + 1;
    }
    rows
}

/// The stamp of the date-time read from a date text and a clock text.
fn read_moment(date: &str, clock: &str) -> (r: Option<i64>)
    ensures
        r == parsed_moment(date@, clock@),
{
    let d = parse_date(date);
    let t = parse_clock(clock);
    moment_of(d, t)
}

/// Goes on submitting the form once its project is known to be `pid`.
fn submit_with_project(app: &mut App, pid: i64, now: Now) -> (cmd: Command)
    requires
        old(app).wf(),
    ensures
        submitted(*old(app), pid, now, *final(app), cmd),
        final(app).wf(),
{
    let start = match read_moment(
        app.entry_form.date.value.as_str(),
        app.entry_form.start_time.value.as_str(),
    ) {
        Some(t) => t,
        None => {
            say(app, "Invalid start time format.", now);
            return Command::Done;
        },
    };
    let end = if app.entry_form.end_time.value.as_str().is_empty() {
        None
    } else {
        match read_moment(
            app.entry_form.date.value.as_str(),
            app.entry_form.end_time.value.as_str(),
        ) {
            Some(t) => Some(t),
            None => {
                say(app, "Invalid end time format.", now);
                return Command::Done;
            },
        }
    };
    let entry = NewTimeEntry {
        project_id: pid,
        description: app.entry_form.description.value.clone(),
        start_time: start,
        end_time: end,
        billable: app.entry_form.billable,
        tags: Vec::new(),
    };
    let request = match app.entry_form.editing_id {
        Some(id) => Request::RemoveEditedEntry(id, entry),
        None => Request::SaveEntry(entry, false),
    };
    let mut rs: Vec<Request> = Vec::new();
    rs.push(request);
    Command::Perform(rs)
}

/// The messages `apply_timer` handles.
pub open spec fn timer_reply(r: Reply) -> bool {
    r is ActiveTimer || r is Started || r is Stopped || r is Cancelled
}

/// The replies `apply_lists` handles.
pub open spec fn list_reply(r: Reply) -> bool {
    r is Today || r is Entries || r is Names || r is Projects || r is Clients || r is Week
        || r is Report
}

/// The replies `apply_change` handles.
pub open spec fn change_reply(r: Reply) -> bool {
    r is EntryDeleted || r is ProjectStatusChanged || r is ClientDeleted || r is ReportSaved
}

/// The replies `apply_form` handles.
pub open spec fn form_reply(r: Reply) -> bool {
    r is ProjectFound || r is ProjectCreated || r is EditedEntryRemoved || r is EntrySaved
}

/// Folds in the running entry, and the outcome of starting, stopping or
/// cancelling a timer.
fn apply_timer(app: &mut App, reply: Reply, now: Now) -> (cmd: Command)
    requires
        old(app).wf(),
        now_ok(now),
        reply_ok(*old(app), reply, now),
        timer_reply(reply),
    ensures
        applied(*old(app), reply, now, *final(app), cmd),
        final(app).wf(),
{
    match reply {
        Reply::ActiveTimer(res) => {
            match res {
                Ok(Some(found)) => {
                    let (entry, name) = found;
                    app.timer_seconds = (now.local - entry.start_time) as u64;
                    match name {
                        Some(n) => {
                            app.active_project_name = Some(n);
                        },
                        None => {},
                    }
                    app.active_entry = Some(entry);
                },
                Ok(None) => {
                    app.active_entry = None;
                    app.active_project_name = None;
                    app.timer_seconds = 0;
                },
                Err(_) => {},
            }
            Command::Done
        },
        Reply::Started(res) => {
            match res {
                Ok(_) => {
                    say(app, "Timer started!", now);
                    crate::update::perform_one(Request::LoadActiveTimer)
                },
                Err(e) => {
                    say_with(app, "Error: ", &e, now);
                    Command::Done
                },
            }
        },
        Reply::Stopped(res) => {
            match res {
                Ok(true) => {
                    app.active_entry = None;
                    app.active_project_name = None;
                    app.timer_seconds = 0;
                    say(app, "Timer stopped.", now);
                    crate::update::perform_one(Request::LoadToday)
                },
                Ok(false) => {
                    say(app, "No timer running.", now);
                    Command::Done
                },
                Err(e) => {
                    say_with(app, "Error: ", &e, now);
                    Command::Done
                },
            }
        },
        Reply::Cancelled(res) => {
            match res {
                Ok(true) => {
                    app.active_entry = None;
                    app.active_project_name = None;
                    app.timer_seconds = 0;
                    say(app, "Timer cancelled.", now);
                },
                Ok(false) => say(app, "No timer running.", now),
                Err(e) => say_with(app, "Error: ", &e, now),
            }
            Command::Done
        },
        _ => Command::Done,
    }
}

/// Selection `sel` moved back onto the last of `len` items when past it.
fn clamp(sel: usize, len: usize) -> (r: usize)
    ensures
        r == clamped(sel, len as nat),
        selection_ok(r, len as nat),
{
    if sel >= len && len > 0 {
        len - 1
    } else {
        sel
    }
}

/// Folds in a list the store handed back.
fn apply_lists(app: &mut App, reply: Reply, now: Now) -> (cmd: Command)
    requires
        old(app).wf(),
        now_ok(now),
        reply_ok(*old(app), reply, now),
        list_reply(reply),
    ensures
        applied(*old(app), reply, now, *final(app), cmd),
        final(app).wf(),
{
    match reply {
        Reply::Today(res) => {
            match res {
                Ok(v) => {
                    let values = today_values(&v, now);
                    app.today_total_secs = add_up(&values);
                    app.today_entries = v;
                },
                Err(_) => {},
            }
            Command::Done
        },
        Reply::Entries(res) => {
            match res {
                Ok(v) => {
                    let ids = first_project_ids(&v);
                    app.entry_project_names = Vec::new();
                    app.entries_selected = clamp(app.entries_selected, v.len());
                    app.entries = v;
                    let mut rs: Vec<Request> = Vec::new();
                    rs.push(Request::LookupNames(ids));
                    Command::Perform(rs)
                },
                Err(_) => Command::Done,
            }
        },
        Reply::Names(found) => {
            proof {
                lemma_name_book(found@);
                assert forall|i: int| 0 <= i < name_book(found@).len() implies text_fits(
                    #[trigger] name_book(found@)[i].1@,
                ) by {
                    let j = choose|j: int|
                        0 <= j < found@.len() && found@[j].1 == Some(name_book(found@)[i].1);
                    assert(name_fits(found@[j]));
                }
            }
            app.entry_project_names = build_book(found);
            Command::Done
        },
        Reply::Projects(res) => {
            match res {
                Ok(v) => {
                    app.projects_selected = clamp(app.projects_selected, v.len());
                    app.projects = v;
                },
                Err(_) => {},
            }
            Command::Done
        },
        Reply::Clients(res) => {
            match res {
                Ok(v) => {
                    app.clients_selected = clamp(app.clients_selected, v.len());
                    app.clients = v;
                },
                Err(_) => {},
            }
            Command::Done
        },
        Reply::Week(monday, totals) => {
            app.week_daily_totals = week_rows(monday, &totals);
            Command::Done
        },
        Reply::Report(breakdown, summaries) => {
            match breakdown {
                Ok(v) => {
                    let (totals, billables) = breakdown_values(&v);
                    app.report_total_secs = add_up(&totals);
                    app.report_billable_secs = add_up(&billables);
                    app.report_project_breakdown = v;
                },
                Err(_) => {},
            }
            match summaries {
                Ok(v) => {
                    app.report_daily_summaries = v;
                },
                Err(_) => {},
            }
            Command::Done
        },
        _ => Command::Done,
    }
}

/// A command performing the requests `a` and then `b`.
fn perform_two(a: Request, b: Request) -> (c: Command)
    ensures
        performs(c, seq![a, b]),
{
    let mut v: Vec<Request> = Vec::new();
    v.push(a);
    v.push(b);
    proof {
        assert(v@ =~= seq![a, b]);
    }
    Command::Perform(v)
}

/// Folds in the outcome of deleting an entry or a client, of archiving
/// or activating a project, or of writing a report file.
fn apply_change(app: &mut App, reply: Reply, now: Now) -> (cmd: Command)
    requires
        old(app).wf(),
        change_reply(reply),
    ensures
        applied(*old(app), reply, now, *final(app), cmd),
        final(app).wf(),
{
    match reply {
        Reply::EntryDeleted(res) => match res {
            Ok(_) => {
                say(app, "Entry deleted.", now);
                perform_two(Request::LoadEntries, Request::LoadToday)
            },
            Err(e) => {
                say_with(app, "Error: ", &e, now);
                Command::Done
            },
        },
        Reply::ProjectStatusChanged(res) => match res {
            Ok(_) => {
                say(app, "Project status updated.", now);
                crate::update::perform_one(Request::LoadProjects(app.show_archived_projects))
            },
            Err(e) => {
                say_with(app, "Error: ", &e, now);
                Command::Done
            },
        },
        Reply::ClientDeleted(res) => match res {
            Ok(_) => {
                say(app, "Client deleted.", now);
                crate::update::perform_one(Request::LoadClients)
            },
            Err(e) => {
                say_with(app, "Error: ", &e, now);
                Command::Done
            },
        },
        Reply::ReportSaved(res) => {
            match res {
                Ok(path) => say_with(app, "Report saved to ", &path, now),
                Err(e) => say_with(app, "Error: ", &e, now),
            }
            Command::Done
        },
        _ => Command::Done,
    }
}

/// Folds in the steps of submitting the entry form: finding or creating its
/// project, removing the entry it edits, and storing the entry.
fn apply_form(app: &mut App, reply: Reply, now: Now) -> (cmd: Command)
    requires
        old(app).wf(),
        form_reply(reply),
    ensures
        applied(*old(app), reply, now, *final(app), cmd),
        final(app).wf(),
{
    match reply {
        Reply::ProjectFound(res) => match res {
            Ok(Some(pid)) => submit_with_project(app, pid, now),
            Ok(None) => crate::update::perform_one(
                Request::CreateProject(app.entry_form.project_name.value.clone()),
            ),
            Err(e) => {
                say_with(app, "Error: ", &e, now);
                Command::Done
            },
        },
        Reply::ProjectCreated(res) => match res {
            Ok(pid) => submit_with_project(app, pid, now),
            Err(e) => {
                say_with(app, "Error creating project: ", &e, now);
                Command::Done
            },
        },
        Reply::EditedEntryRemoved(res, entry) => match res {
            Ok(_) => crate::update::perform_one(Request::SaveEntry(entry, true)),
            Err(e) => {
                say_with(app, "Error: ", &e, now);
                Command::Done
            },
        },
        Reply::EntrySaved(res, editing) => {
            match res {
                Ok(_) => {
                    if editing {
                        say(app, "Entry updated.", now);
                    } else {
                        say(app, "Entry created.", now);
                    }
                },
                Err(e) => say_with(app, "Error: ", &e, now),
            }
            app.modal = Modal::Closed;
            app.input_mode = InputMode::Normal;
            perform_two(Request::LoadEntries, Request::LoadToday)
        },
        _ => Command::Done,
    }
}

/// Folds in the projects the picker offers.
fn apply_picker(app: &mut App, reply: Reply, now: Now) -> (cmd: Command)
    requires
        old(app).wf(),
        reply_ok(*old(app), reply, now),
        reply is PickerProjects || reply is PickerCandidates,
    ensures
        applied(*old(app), reply, now, *final(app), cmd),
        final(app).wf(),
{
    match reply {
        Reply::PickerProjects(res) => {
            match res {
                Ok(v) => {
                    app.picker_projects = v;
                },
                Err(_) => {},
            }
            Command::Done
        },
        Reply::PickerCandidates(res) => {
            match res {
                Ok(v) => {
                    let filter = to_lowercase(app.picker_filter.value.as_str());
                    if filter.as_str().is_empty() {
                        app.picker_projects = v;
                    } else {
                        let needle = chars_of(filter.as_str());
                        app.picker_projects = pick_projects(v, &needle);
                    }
                    app.picker_selected = 0;
                },
                Err(_) => {},
            }
            Command::Done
        },
        _ => Command::Done,
    }
}

/// Folds the store's reply into the state at time `now`, and says what
/// comes next.
pub fn apply(app: &mut App, reply: Reply, now: Now) -> (cmd: Command)
    requires
        old(app).wf(),
        now_ok(now),
        reply_ok(*old(app), reply, now),
    ensures
        applied(*old(app), reply, now, *final(app), cmd),
        final(app).wf(),
{
    match reply {
        Reply::ActiveTimer(_)
        | Reply::Started(_)
        | Reply::Stopped(_)
        | Reply::Cancelled(_) => apply_timer(app, reply, now),
        Reply::Today(_)
        | Reply::Entries(_)
        | Reply::Names(_)
        | Reply::Projects(_)
        | Reply::Clients(_)
        | Reply::Week(_, _)
        | Reply::Report(_, _) => apply_lists(app, reply, now),
        Reply::EntryDeleted(_)
        | Reply::ProjectStatusChanged(_)
        | Reply::ClientDeleted(_)
        | Reply::ReportSaved(_) => apply_change(app, reply, now),
        Reply::ProjectFound(_)
        | Reply::ProjectCreated(_)
        | Reply::EditedEntryRemoved(_, _)
        | Reply::EntrySaved(_, _) => apply_form(app, reply, now),
        Reply::PickerProjects(_) | Reply::PickerCandidates(_) => apply_picker(app, reply, now),
    }
}

/// Whether every running sum of `v` fits an `i64`.
pub fn sums_fit(v: &Vec<i64>) -> (r: bool)
    ensures
        r == adds_up(v@),
{
    let mut acc: i64 = 0;
    let mut i: usize = 0;
    proof {
        assert(v@.take(0) =~= Seq::<i64>::empty());
    }
    while i < v.len()
        invariant
            0 <= i <= v@.len(),
            acc == total(v@.take(i as int)),
            forall|k: int| 0 <= k <= i ==> i64::MIN <= #[trigger] total(v@.take(k)) <= i64::MAX,
        decreases v@.len() - i,
    {
        proof {
            assert(v@.take(i + 1).drop_last() =~= v@.take(i as int));
        }
        match acc.checked_add(v[i]) {
            Some(next) => {
                acc = next;
            },
            None => {
                assert(!(i64::MIN <= total(v@.take(i + 1)) <= i64::MAX));
                return false;
            },
        }
        i = i + 1;
    }
    proof {
        assert(v@.take(v@.len() as int) =~= v@);
    }
    true
}

/// Whether stamp `t` lies in the range the interface works in.
pub fn stamp_in_range(t: i64) -> (r: bool)
    ensures
        r == stamp_ok(t),
{
    -0x1000_0000_0000 <= t && t <= 0x1000_0000_0000
}

/// Whether an entry's stamps and description are ones the interface works with.
pub fn entry_in_range(e: &TimeEntry) -> (r: bool)
    ensures
        r == entry_ok(*e),
{
    let end_ok = match e.end_time {
        Some(t) => stamp_in_range(t),
        None => true,
    };
    stamp_in_range(e.start_time) && end_ok && crate::text::utf8_length(
        e.description.as_str(),
    ).is_some()
}

/// Whether `apply` can take `reply` in state `app` at `now` (see
/// `reply_ok`).
#[verifier::loop_isolation(false)]
pub fn reply_ready(app: &App, reply: &Reply, now: Now) -> (r: bool)
    requires
        now_ok(now),
    ensures
        r == reply_ok(*app, *reply, now),
{
    match reply {
        Reply::ActiveTimer(Ok(Some(found))) => stamp_in_range(found.0.start_time),
        Reply::Today(Ok(v)) => {
            let mut i: usize = 0;
            while i < v.len()
                invariant
                    0 <= i <= v@.len(),
                    forall|j: int| 0 <= j < i ==> stamp_ok(#[trigger] v@[j].start_time),
                decreases v@.len() - i,
            {
                if !stamp_in_range(v[i].start_time) {
                    assert(!stamp_ok(v@[i as int].start_time));
                    return false;
                }
                i = i + 1;
            }
            let values = today_values(v, now);
            sums_fit(&values)
        },
        Reply::Entries(Ok(v)) => {
            let mut i: usize = 0;
            while i < v.len()
                invariant
                    0 <= i <= v@.len(),
                    forall|j: int| 0 <= j < i ==> entry_ok(#[trigger] v@[j]),
                decreases v@.len() - i,
            {
                if !entry_in_range(&v[i]) {
                    assert(!entry_ok(v@[i as int]));
                    return false;
                }
                i = i + 1;
            }
            true
        },
        Reply::Names(v) => {
            let mut i: usize = 0;
            while i < v.len()
                invariant
                    0 <= i <= v@.len(),
                    forall|j: int| 0 <= j < i ==> name_fits(#[trigger] v@[j]),
                decreases v@.len() - i,
            {
                let fits = match &v[i].1 {
                    Some(n) => crate::text::utf8_length(n.as_str()).is_some(),
                    None => true,
                };
                if !fits {
                    assert(!name_fits(v@[i as int]));
                    return false;
                }
                i = i + 1;
            }
            true
        },
        Reply::Week(monday, _) => -0x100_0000_0000 <= *monday && *monday <= 0x100_0000_0000,
        Reply::Report(Ok(v), _) => {
            let (totals, billables) = breakdown_values(v);
            sums_fit(&totals) && sums_fit(&billables)
        },
        Reply::PickerProjects(Ok(v)) => v.len() == 0 || app.picker_selected < v.len(),
        _ => true,
    }
}

/// The sum of `v`, when adding it up in `i64` does not overflow.
pub fn checked_total(v: &Vec<i64>) -> (r: Option<i64>)
    ensures
        r == if adds_up(v@) {
            Some(total(v@) as i64)
        } else {
            None::<i64>
        },
{
    if sums_fit(v) {
        Some(add_up(v))
    } else {
        None
    }
}


/// The entry the command `c` stores, if it stores one: directly, or after
/// removing the entry being edited.
pub open spec fn entry_stored(c: Command) -> Option<NewTimeEntry> {
    match c {
        Command::Perform(rs) => if rs@.len() == 1 {
            match rs@[0] {
                Request::SaveEntry(e, _) => Some(e),
                Request::RemoveEditedEntry(_, e) => Some(e),
                _ => None,
            }
        } else {
            None
        },
        _ => None,
    }
}

/// A started timer is shown: once the store has stored the new entry, the
/// next request loads the running entry, and when the store hands that
/// entry back it becomes the active one, so the interface holds a running
/// timer (and the next toggle stops it rather than starting another).
pub proof fn law_started_timer_is_loaded(
    a: App,
    now: Now,
    b: App,
    c: Command,
    found: (TimeEntry, Option<String>),
    d: App,
    e: Command,
)
    requires
        applied(a, Reply::Started(Ok(())), now, b, c),
        applied(b, Reply::ActiveTimer(Ok(Some(found))), now, d, e),
    ensures
        performs(c, seq![Request::LoadActiveTimer]),
        d.active_entry == Some(found.0),
        d.active_entry is Some,
{
}

/// An entry from the form carries the form's billable flag, its
/// description, the project found for it, the start read from its date and
/// start fields, and the end read from its date and end fields (none when
/// the end is left empty), whether it is new or replaces
/// an edited one; a new entry is stored as new, an edited one replaces the
/// entry being edited.
pub proof fn law_form_entry_carries_form(a: App, pid: i64, now: Now, b: App, c: Command)
    requires
        applied(a, Reply::ProjectFound(Ok(Some(pid))), now, b, c)
            || applied(a, Reply::ProjectCreated(Ok(pid)), now, b, c),
    ensures
        c is Perform ==> entry_stored(c) is Some,
        entry_stored(c) matches Some(e) ==> {
            &&& e.billable == a.entry_form.billable
            &&& e.project_id == pid
            &&& e.description@ == a.entry_form.description.value@
            &&& Some(e.start_time) == parsed_moment(
                a.entry_form.date.value@,
                a.entry_form.start_time.value@,
            )
            &&& e.end_time == if a.entry_form.end_time.value@.len() == 0 {
                None
            } else {
                parsed_moment(a.entry_form.date.value@, a.entry_form.end_time.value@)
            }
        },
        c matches Command::Perform(rs) ==> match rs@[0] {
            Request::SaveEntry(_, editing) => !editing && a.entry_form.editing_id is None,
            Request::RemoveEditedEntry(id, _) => a.entry_form.editing_id == Some(id),
            _ => false,
        },
{
}

/// Flipping the billable toggle and then submitting the form stores the
/// entry with the flipped flag.
pub proof fn law_toggled_billable_is_stored(
    a: App,
    now: Now,
    b1: App,
    c1: Command,
    b2: App,
    c2: Command,
    pid: i64,
    b3: App,
    c3: Command,
)
    requires
        crate::update::stepped(a, Message::ToggleBillable, now, b1, c1),
        crate::update::stepped(b1, Message::SubmitEntryForm, now, b2, c2),
        applied(b2, Reply::ProjectFound(Ok(Some(pid))), now, b3, c3),
    ensures
        entry_stored(c3) matches Some(e) ==> e.billable == !a.entry_form.billable,
{
    law_form_entry_carries_form(b2, pid, now, b3, c3);
}

/// A report reply's daily summaries, when read, are the ones shown (and
/// written into a PDF report); its breakdown, when read, is the one shown,
/// with its totals.
pub proof fn law_report_reply_shown(
    a: App,
    breakdown: Result<Vec<ProjectBreakdown>, String>,
    summaries: Vec<DailySummary>,
    now: Now,
    b: App,
    c: Command,
)
    requires
        applied(a, Reply::Report(breakdown, Ok(summaries)), now, b, c),
    ensures
        b.report_daily_summaries == summaries,
        breakdown matches Ok(v) ==> b.report_project_breakdown == v,
        breakdown is Err ==> b.report_project_breakdown == a.report_project_breakdown,
        c is Done,
{
}

} // verus!
