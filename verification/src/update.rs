//! The state machine of the terminal interface.
//!
//! `step` takes the state, a message and the time, changes the state and
//! says what outside work comes next: nothing, another message to step, or
//! requests against the store. The caller performs each request and hands
//! the reply to `apply` (in `replies`), which may ask for more.

use vstd::prelude::*;
use crate::calendar::{moment_ok, period_range, report_range, week_start, day_and_weekday};
use crate::cli::{breakdown_csv, breakdown_rows, report_csv, report_file_name, report_file_text};
use crate::clock::{format_stamp, formatted_stamp, pattern_text, StampFormat};
use crate::message::Message;
use crate::models::{NewTimeEntry, ProjectStatus};
use crate::state::{
    frame, form_field_count, next_period, prev_period, screen_at, screen_index, App,
    EntryFormState, Field, InputMode, Modal, ReportPeriod, Screen, TextInput,
};
use crate::text::{chars_of, lemma_utf8_len_bound, push_chars, push_text, string_of, text_fits};

verus! {

/// The time as the interface sees it: the local wall clock as a stamp, and a
/// monotonic clock in milliseconds.
#[derive(Debug, Clone, Copy)]
pub struct Now {
    pub local: i64,
    pub mono_ms: u64,
}

/// A wall-clock reading the calendar arithmetic can work with.
pub open spec fn now_ok(now: Now) -> bool {
    moment_ok(now.local)
}

/// Outside work against the store.
#[derive(Debug, Clone)]
pub enum Request {
    /// The running entry, and its project's name.
    LoadActiveTimer,
    /// Today's entries.
    LoadToday,
    /// The latest hundred entries.
    LoadEntries,
    /// The name of each of these projects.
    LookupNames(Vec<i64>),
    /// The projects, archived ones too when the flag is set.
    LoadProjects(bool),
    LoadClients,
    /// Time tracked on each of the seven days from the Monday at this stamp.
    LoadWeek(i64),
    /// Per-project breakdown and daily summaries between two days (stamps of
    /// their midnights), inclusive.
    LoadReport(i64, i64),
    /// Store a new entry; with no end time it becomes the running timer.
    StartEntry(NewTimeEntry),
    /// Stop the running entry.
    StopActive,
    /// Discard the running entry.
    CancelActive,
    DeleteEntry(i64),
    ArchiveProject(i64),
    ActivateProject(i64),
    DeleteClient(i64),
    /// Look a project up by name, ignoring case.
    FindProject(String),
    /// Create a project with this name and the default color.
    CreateProject(String),
    /// Delete the entry being edited, to store the replacement after it.
    RemoveEditedEntry(i64, NewTimeEntry),
    /// Store an entry from the form; the flag says whether it replaces an edited one.
    SaveEntry(NewTimeEntry, bool),
    /// The active projects, for the picker.
    LoadPicker,
    /// The active projects, to filter by the picker's search text.
    FilterPicker,
    /// Write a CSV report: the file's name and its text.
    SaveReportCsv(String, String),
    /// Write the report on screen (its breakdown, daily summaries and
    /// period) as a PDF file of this name.
    SaveReportPdf(String),
}

/// What to do after a step.
#[derive(Debug, Clone)]
pub enum Command {
    Done,
    Dispatch(Message),
    Perform(Vec<Request>),
}

/// The status bar shows `text`, set at `now`.
pub open spec fn status_set(a: App, text: Seq<char>, now: Now) -> bool {
    a.status_message matches Some(m) && m.0@ == text && m.1 == now.mono_ms
}

/// The state changed only by setting the status text.
pub open spec fn just_status(a: App, b: App, text: Seq<char>, now: Now, cmd: Command) -> bool {
    &&& status_set(b, text, now)
    &&& frame(a, b, set![Field::StatusMessage])
    &&& cmd is Done
}

/// `cmd` performs exactly the requests `rs`.
pub open spec fn performs(cmd: Command, rs: Seq<Request>) -> bool {
    cmd matches Command::Perform(v) && v@ == rs
}

/// Selection after moving down a list of `len` items.
pub open spec fn next_selection(sel: usize, len: nat) -> int {
    if len == 0 {
        sel as int
    } else if sel + 1 < len {
        sel + 1
    } else {
        len - 1
    }
}

/// Selection after moving up.
pub open spec fn prev_selection(sel: usize) -> int {
    if sel > 0 {
        sel - 1
    } else {
        sel as int
    }
}

/// What opening a screen loads, if anything.
pub open spec fn screen_loads(s: Screen, a: App, now: Now) -> Option<Seq<Request>> {
    match s {
        Screen::Dashboard => Some(
            seq![
                Request::LoadActiveTimer,
                Request::LoadToday,
                Request::LoadWeek(week_start(now.local as int) as i64),
            ],
        ),
        Screen::Entries => Some(seq![Request::LoadEntries]),
        Screen::Projects => Some(seq![Request::LoadProjects(a.show_archived_projects)]),
        Screen::Clients => Some(seq![Request::LoadClients]),
        Screen::Reports => Some(seq![report_request(a.report_period, now)]),
        _ => None,
    }
}

/// `cmd` is the load that opening screen `s` asks for.
pub open spec fn loads_screen(cmd: Command, s: Screen, a: App, now: Now) -> bool {
    match screen_loads(s, a, now) {
        Some(rs) => performs(cmd, rs),
        None => cmd is Done,
    }
}

/// The report request for period `p` on the day of `now`.
pub open spec fn report_request(p: ReportPeriod, now: Now) -> Request {
    let r = report_range(p, now.local as int);
    Request::LoadReport(r.0 as i64, r.1 as i64)
}

/// The everything-reload that `Refresh` asks for.
pub open spec fn refresh_all(a: App) -> Seq<Request> {
    seq![
        Request::LoadActiveTimer,
        Request::LoadToday,
        Request::LoadEntries,
        Request::LoadProjects(a.show_archived_projects),
        Request::LoadClients,
    ]
}

/// Text input number `i` of the entry form (0 to 4).
pub open spec fn form_input(f: EntryFormState, i: int) -> TextInput {
    if i == 0 {
        f.project_name
    } else if i == 1 {
        f.description
    } else if i == 2 {
        f.date
    } else if i == 3 {
        f.start_time
    } else {
        f.end_time
    }
}

/// `g` is `f` with text input `i` replaced and everything else kept.
pub open spec fn form_with_input(f: EntryFormState, g: EntryFormState, i: int) -> bool {
    &&& g.editing_id == f.editing_id
    &&& g.billable == f.billable
    &&& g.focused_field == f.focused_field
    &&& (i != 0 ==> g.project_name == f.project_name)
    &&& (i != 1 ==> g.description == f.description)
    &&& (i != 2 ==> g.date == f.date)
    &&& (i != 3 ==> g.start_time == f.start_time)
    &&& (i != 4 ==> g.end_time == f.end_time)
}

/// Name of project `pid` in the name book, or empty text when it has none.
pub open spec fn name_of(names: Seq<(i64, String)>, pid: i64) -> Seq<char>
    decreases names.len(),
{
    if names.len() == 0 {
        Seq::empty()
    } else if names[0].0 == pid {
        names[0].1@
    } else {
        name_of(names.drop_first(), pid)
    }
}

/// A field holding `text` with the cursor at its end.
pub open spec fn filled(t: TextInput, text: Seq<char>, label: Seq<char>) -> bool {
    &&& t.value@ == text
    &&& t.label@ == label
    &&& t.wf()
    &&& t.cursor_index() == text.len()
}

/// `f` is the form for editing entry `e`: its fields hold the entry's
/// project, description, date, start and (when it has one) end, and its
/// billable flag.
pub open spec fn edit_form(f: EntryFormState, a: App) -> bool {
    let e = a.entries@[a.entries_selected as int];
    &&& f.editing_id == Some(e.id)
    &&& filled(f.project_name, name_of(a.entry_project_names@, e.project_id), "Project"@)
    &&& filled(f.description, e.description@, "Description"@)
    &&& filled(f.date, formatted_stamp(e.start_time, pattern_text(StampFormat::Date)), "Date"@)
    &&& filled(
        f.start_time,
        formatted_stamp(e.start_time, pattern_text(StampFormat::Clock)),
        "Start"@,
    )
    &&& match e.end_time {
        Some(t) => filled(f.end_time, formatted_stamp(t, pattern_text(StampFormat::Clock)), "End"@),
        None => filled(f.end_time, Seq::empty(), "End (HH:MM)"@),
    }
    &&& f.billable == e.billable
    &&& f.focused_field == 0
    &&& f.wf()
}

/// The text input a typed key goes to, if any.
pub open spec fn typing_target(a: App) -> Option<TextInput> {
    match a.modal {
        Modal::EntryForm => if a.entry_form.focused_field < 5 {
            Some(form_input(a.entry_form, a.entry_form.focused_field as int))
        } else {
            None
        },
        Modal::ProjectPicker => Some(a.picker_filter),
        _ => None,
    }
}

/// A message `step` can take in state `a`: a typed character needs room in
/// the field it goes to.
pub open spec fn step_ready(a: App, msg: Message) -> bool {
    msg matches Message::InputChar(_) ==> (typing_target(a) matches Some(t) ==> t.has_room())
}

/// The entry a timer started on project `pid` at `now` would store.
pub open spec fn timer_entry(e: NewTimeEntry, pid: i64, billable: bool, now: Now) -> bool {
    &&& e.project_id == pid
    &&& e.description@ == Seq::<char>::empty()
    &&& e.start_time == now.local
    &&& e.end_time is None
    &&& e.billable == billable
    &&& e.tags@.len() == 0
}

/// `cmd` stores the entry of a timer started on project `pid`.
pub open spec fn starts_timer(cmd: Command, pid: i64, billable: bool, now: Now) -> bool {
    match cmd {
        Command::Perform(v) => v@.len() == 1 && match v@[0] {
            Request::StartEntry(e) => timer_entry(e, pid, billable, now),
            _ => false,
        },
        _ => false,
    }
}

/// `cmd` looks up the project named `name`.
pub open spec fn finds_project(cmd: Command, name: Seq<char>) -> bool {
    match cmd {
        Command::Perform(v) => v@.len() == 1 && match v@[0] {
            Request::FindProject(n) => n@ == name,
            _ => false,
        },
        _ => false,
    }
}

/// `cmd` writes the CSV report file `name` holding `text`.
pub open spec fn saves_report_csv(cmd: Command, name: Seq<char>, text: Seq<char>) -> bool {
    match cmd {
        Command::Perform(v) => v@.len() == 1 && match v@[0] {
            Request::SaveReportCsv(n, t) => n@ == name && t@ == text,
            _ => false,
        },
        _ => false,
    }
}

/// `cmd` writes the report on screen as the PDF file `name`.
pub open spec fn saves_report_pdf(cmd: Command, name: Seq<char>) -> bool {
    match cmd {
        Command::Perform(v) => v@.len() == 1 && match v@[0] {
            Request::SaveReportPdf(n) => n@ == name,
            _ => false,
        },
        _ => false,
    }
}

/// How the state and the next command follow from `a` on `msg` at `now`.
pub open spec fn stepped(a: App, msg: Message, now: Now, b: App, cmd: Command) -> bool {
    match msg {
        Message::NavigateScreen(s) => {
            &&& b.prev_screen == a.screen
            &&& b.screen == s
            &&& frame(a, b, set![Field::Screen, Field::PrevScreen])
            &&& loads_screen(cmd, s, a, now)
        },
        Message::NextTab => {
            &&& b == a
            &&& cmd == Command::Dispatch(
                Message::NavigateScreen(screen_at(((screen_index(a.screen) + 1) % 7) as int)),
            )
        },
        Message::PrevTab => {
            &&& b == a
            &&& cmd == Command::Dispatch(
                Message::NavigateScreen(
                    screen_at(
                        if screen_index(a.screen) == 0 {
                            6
                        } else {
                            screen_index(a.screen) - 1
                        },
                    ),
                ),
            )
        },
        Message::StartTimer(pid) => if a.active_entry is Some {
            just_status(a, b, "Timer already running. Stop it first."@, now, cmd)
        } else {
            &&& b == a
            &&& starts_timer(cmd, pid, a.default_billable, now)
        },
        Message::StopTimer => b == a && performs(cmd, seq![Request::StopActive]),
        Message::CancelTimer => b == a && performs(cmd, seq![Request::CancelActive]),
        Message::ToggleTimer => {
            &&& b == a
            &&& cmd == if a.active_entry is Some {
                Command::Dispatch(Message::StopTimer)
            } else {
                Command::Dispatch(Message::OpenProjectPicker)
            }
        },
        Message::Tick => {
            &&& b.timer_seconds == match a.active_entry {
                Some(e) => (now.local - e.start_time) as u64,
                None => a.timer_seconds,
            }
            &&& b.status_message == match a.status_message {
                Some(m) => if status_expired(m.1, now) {
                    None
                } else {
                    a.status_message
                },
                None => None,
            }
            &&& frame(a, b, set![Field::TimerSeconds, Field::StatusMessage])
            &&& cmd is Done
        },
        Message::SelectNextEntry => {
            &&& b.entries_selected == next_selection(a.entries_selected, a.entries@.len())
            &&& frame(a, b, set![Field::EntriesSelected])
            &&& cmd is Done
        },
        Message::SelectPrevEntry => {
            &&& b.entries_selected == prev_selection(a.entries_selected)
            &&& frame(a, b, set![Field::EntriesSelected])
            &&& cmd is Done
        },
        Message::DeleteSelectedEntry => if a.entries@.len() == 0 {
            b == a && cmd is Done
        } else {
            let e = a.entries@[a.entries_selected as int];
            &&& b.confirm_message@ == "Delete entry from "@ + formatted_stamp(
                e.start_time,
                pattern_text(StampFormat::DateClock),
            ) + seq!['?']
            &&& b.confirm_action matches Some(Message::Refresh)
            &&& frame(a, b, set![Field::ConfirmMessage, Field::ConfirmAction])
            &&& performs(cmd, seq![Request::DeleteEntry(e.id)])
        },
        Message::EditSelectedEntry => if a.entries@.len() == 0 {
            b == a && cmd is Done
        } else {
            &&& edit_form(b.entry_form, a)
            &&& b.modal == Modal::EntryForm
            &&& b.input_mode == InputMode::Editing
            &&& frame(a, b, set![Field::EntryForm, Field::Modal, Field::InputMode])
            &&& cmd is Done
        },
        Message::NewEntry => {
            &&& b.entry_form.is_blank(now.local)
            &&& b.modal == Modal::EntryForm
            &&& b.input_mode == InputMode::Editing
            &&& frame(a, b, set![Field::EntryForm, Field::Modal, Field::InputMode])
            &&& cmd is Done
        },
        Message::SelectNextProject => {
            &&& b.projects_selected == next_selection(a.projects_selected, a.projects@.len())
            &&& frame(a, b, set![Field::ProjectsSelected])
            &&& cmd is Done
        },
        Message::SelectPrevProject => {
            &&& b.projects_selected == prev_selection(a.projects_selected)
            &&& frame(a, b, set![Field::ProjectsSelected])
            &&& cmd is Done
        },
        Message::NewProject => just_status(
            a,
            b,
            "Use CLI 'saga projects add <name>' to add projects."@,
            now,
            cmd,
        ),
        Message::ArchiveSelectedProject => if a.projects@.len() == 0 {
            b == a && cmd is Done
        } else {
            let p = a.projects@[a.projects_selected as int];
            &&& b == a
            &&& performs(
                cmd,
                seq![
                    if p.status == ProjectStatus::Active {
                        Request::ArchiveProject(p.id)
                    } else {
                        Request::ActivateProject(p.id)
                    },
                ],
            )
        },
        Message::ToggleArchivedProjects => {
            &&& b.show_archived_projects == !a.show_archived_projects
            &&& frame(a, b, set![Field::ShowArchivedProjects])
            &&& performs(cmd, seq![Request::LoadProjects(!a.show_archived_projects)])
        },
        Message::SelectNextClient => {
            &&& b.clients_selected == next_selection(a.clients_selected, a.clients@.len())
            &&& frame(a, b, set![Field::ClientsSelected])
            &&& cmd is Done
        },
        Message::SelectPrevClient => {
            &&& b.clients_selected == prev_selection(a.clients_selected)
            &&& frame(a, b, set![Field::ClientsSelected])
            &&& cmd is Done
        },
        Message::NewClient => just_status(
            a,
            b,
            "Use CLI 'saga clients add <name>' to add clients."@,
            now,
            cmd,
        ),
        Message::DeleteSelectedClient => if a.clients@.len() == 0 {
            b == a && cmd is Done
        } else {
            &&& b == a
            &&& performs(cmd, seq![Request::DeleteClient(a.clients@[a.clients_selected as int].id)])
        },
        Message::SubmitEntryForm => if a.entry_form.project_name.value@.len() == 0
            || a.entry_form.start_time.value@.len() == 0 {
            just_status(a, b, "Project and start time are required."@, now, cmd)
        } else {
            &&& b == a
            &&& finds_project(cmd, a.entry_form.project_name.value@)
        },
        Message::CancelForm => {
            &&& b.modal == Modal::Closed
            &&& b.input_mode == InputMode::Normal
            &&& frame(a, b, set![Field::Modal, Field::InputMode])
            &&& cmd is Done
        },
        Message::NextField => {
            &&& b.entry_form.focused_field == (a.entry_form.focused_field + 1) % 6
            &&& b.entry_form == EntryFormState {
                focused_field: b.entry_form.focused_field,
                ..a.entry_form
            }
            &&& frame(a, b, set![Field::EntryForm])
            &&& cmd is Done
        },
        Message::PrevField => {
            &&& b.entry_form.focused_field == if a.entry_form.focused_field == 0 {
                5
            } else {
                a.entry_form.focused_field - 1
            }
            &&& b.entry_form == EntryFormState {
                focused_field: b.entry_form.focused_field,
                ..a.entry_form
            }
            &&& frame(a, b, set![Field::EntryForm])
            &&& cmd is Done
        },
        Message::ToggleBillable => {
            &&& b.entry_form == EntryFormState { billable: !a.entry_form.billable, ..a.entry_form }
            &&& frame(a, b, set![Field::EntryForm])
            &&& cmd is Done
        },
        Message::InputChar(c) => match a.modal {
            Modal::EntryForm => if a.entry_form.focused_field < 5 {
                let i = a.entry_form.focused_field as int;
                &&& form_input(a.entry_form, i).inserted(c, form_input(b.entry_form, i))
                &&& form_with_input(a.entry_form, b.entry_form, i)
                &&& frame(a, b, set![Field::EntryForm])
                &&& cmd is Done
            } else {
                b == a && cmd is Done
            },
            Modal::ProjectPicker => {
                &&& a.picker_filter.inserted(c, b.picker_filter)
                &&& frame(a, b, set![Field::PickerFilter])
                &&& performs(cmd, seq![Request::FilterPicker])
            },
            _ => b == a && cmd is Done,
        },
        Message::InputBackspace => match a.modal {
            Modal::EntryForm => if a.entry_form.focused_field < 5 {
                let i = a.entry_form.focused_field as int;
                &&& form_input(a.entry_form, i).deleted_back(form_input(b.entry_form, i))
                &&& form_with_input(a.entry_form, b.entry_form, i)
                &&& frame(a, b, set![Field::EntryForm])
                &&& cmd is Done
            } else {
                b == a && cmd is Done
            },
            Modal::ProjectPicker => {
                &&& a.picker_filter.deleted_back(b.picker_filter)
                &&& frame(a, b, set![Field::PickerFilter])
                &&& performs(cmd, seq![Request::FilterPicker])
            },
            _ => b == a && cmd is Done,
        },
        Message::InputLeft => if a.modal == Modal::EntryForm && a.entry_form.focused_field < 5 {
            let i = a.entry_form.focused_field as int;
            &&& form_input(a.entry_form, i).moved_left(form_input(b.entry_form, i))
            &&& form_with_input(a.entry_form, b.entry_form, i)
            &&& frame(a, b, set![Field::EntryForm])
            &&& cmd is Done
        } else {
            b == a && cmd is Done
        },
        Message::InputRight => if a.modal == Modal::EntryForm && a.entry_form.focused_field < 5 {
            let i = a.entry_form.focused_field as int;
            &&& form_input(a.entry_form, i).moved_right(form_input(b.entry_form, i))
            &&& form_with_input(a.entry_form, b.entry_form, i)
            &&& frame(a, b, set![Field::EntryForm])
            &&& cmd is Done
        } else {
            b == a && cmd is Done
        },
        Message::OpenProjectPicker => {
            &&& b.picker_filter.value@ == Seq::<char>::empty()
            &&& b.picker_filter.cursor == 0
            &&& b.picker_filter.label == a.picker_filter.label
            &&& b.picker_selected == 0
            &&& b.modal == Modal::ProjectPicker
            &&& b.input_mode == InputMode::Editing
            &&& frame(
                a,
                b,
                set![Field::PickerFilter, Field::PickerSelected, Field::Modal, Field::InputMode],
            )
            &&& performs(cmd, seq![Request::LoadPicker])
        },
        Message::SelectNextPickerItem => {
            &&& b.picker_selected == next_selection(a.picker_selected, a.picker_projects@.len())
            &&& frame(a, b, set![Field::PickerSelected])
            &&& cmd is Done
        },
        Message::SelectPrevPickerItem => {
            &&& b.picker_selected == prev_selection(a.picker_selected)
            &&& frame(a, b, set![Field::PickerSelected])
            &&& cmd is Done
        },
        Message::ConfirmPicker => if a.picker_projects@.len() == 0 {
            b == a && cmd is Done
        } else {
            &&& b.modal == Modal::Closed
            &&& b.input_mode == InputMode::Normal
            &&& frame(a, b, set![Field::Modal, Field::InputMode])
            &&& cmd == Command::Dispatch(
                Message::StartTimer(a.picker_projects@[a.picker_selected as int].id),
            )
        },
        Message::ConfirmYes => {
            &&& b.confirm_action is None
            &&& b.modal == Modal::Closed
            &&& frame(a, b, set![Field::ConfirmAction, Field::Modal])
            &&& cmd == match a.confirm_action {
                Some(m) => Command::Dispatch(m),
                None => Command::Done,
            }
        },
        Message::ConfirmNo => {
            &&& b.confirm_action is None
            &&& b.modal == Modal::Closed
            &&& frame(a, b, set![Field::ConfirmAction, Field::Modal])
            &&& cmd is Done
        },
        Message::NextReportPeriod => {
            &&& b.report_period == next_period(a.report_period)
            &&& frame(a, b, set![Field::ReportPeriod])
            &&& performs(cmd, seq![report_request(b.report_period, now)])
        },
        Message::PrevReportPeriod => {
            &&& b.report_period == prev_period(a.report_period)
            &&& frame(a, b, set![Field::ReportPeriod])
            &&& performs(cmd, seq![report_request(b.report_period, now)])
        },
        Message::ExportCsv => {
            &&& b == a
            &&& saves_report_csv(
                cmd,
                report_file_text(now.local, ".csv"@),
                breakdown_csv(a.report_project_breakdown@),
            )
        },
        Message::ExportPdf => b == a && saves_report_pdf(cmd, report_file_text(now.local, ".pdf"@)),
        Message::OpenHelp => {
            &&& b.modal == Modal::Help
            &&& frame(a, b, set![Field::Modal])
            &&& cmd is Done
        },
        Message::CloseModal => {
            &&& b.modal == Modal::Closed
            &&& b.input_mode == InputMode::Normal
            &&& frame(a, b, set![Field::Modal, Field::InputMode])
            &&& cmd is Done
        },
        Message::Quit => {
            &&& !b.running
            &&& frame(a, b, set![Field::Running])
            &&& cmd is Done
        },
        Message::Refresh => b == a && performs(cmd, refresh_all(a)),
        Message::SetStatus(text) => just_status(a, b, text@, now, cmd),
    }
}

/// A status set at monotonic reading `set_ms` has been shown more than five
/// whole seconds at `now`.
pub open spec fn status_expired(set_ms: u64, now: Now) -> bool {
    (if now.mono_ms >= set_ms {
        now.mono_ms - set_ms
    } else {
        0
    }) / 1000 > 5
}


/// A command performing the one request `r`.
pub fn perform_one(r: Request) -> (c: Command)
    ensures
        performs(c, seq![r]),
{
    let mut v: Vec<Request> = Vec::new();
    v.push(r);
    proof {
        assert(v@ =~= seq![r]);
    }
    Command::Perform(v)
}

/// Shows `text` in the status bar.
pub fn say(app: &mut App, text: &str, now: Now)
    ensures
        status_set(*final(app), text@, now),
        frame(*old(app), *final(app), set![Field::StatusMessage]),
{
    app.set_status(text, now.mono_ms);
}

/// Shows `prefix` followed by `detail` in the status bar.
pub fn say_with(app: &mut App, prefix: &str, detail: &String, now: Now)
    ensures
        status_set(*final(app), prefix@ + detail@, now),
        frame(*old(app), *final(app), set![Field::StatusMessage]),
{
    let mut v = chars_of(prefix);
    push_text(&mut v, detail.as_str());
    let text = string_of(v.as_slice());
    app.set_status(text.as_str(), now.mono_ms);
}

/// Selection after moving down a list of `len` items.
fn select_next(sel: usize, len: usize) -> (r: usize)
    requires
        selection_ok_usize(sel, len),
    ensures
        r == next_selection(sel, len as nat),
        len > 0 ==> r < len,
{
    if len == 0 {
        sel
    } else if sel + 1 < len {
        sel + 1
    } else {
        len - 1
    }
}

spec fn selection_ok_usize(sel: usize, len: usize) -> bool {
    len > 0 ==> sel < len
}

/// What opening screen `s` loads.
fn screen_load_command(app: &App, s: Screen, now: Now) -> (c: Command)
    requires
        now_ok(now),
    ensures
        loads_screen(c, s, *app, now),
{
    match s {
        Screen::Dashboard => {
            let (today, wd) = day_and_weekday(now.local);
            let mut v: Vec<Request> = Vec::new();
            v.push(Request::LoadActiveTimer);
            v.push(Request::LoadToday);
            v.push(Request::LoadWeek(today - wd * 86400));
            proof {
                assert(v@ =~= seq![
                    Request::LoadActiveTimer,
                    Request::LoadToday,
                    Request::LoadWeek(week_start(now.local as int) as i64),
                ]);
            }
            Command::Perform(v)
        },
        Screen::Entries => perform_one(Request::LoadEntries),
        Screen::Projects => perform_one(Request::LoadProjects(app.show_archived_projects)),
        Screen::Clients => perform_one(Request::LoadClients),
        Screen::Reports => perform_one(report_load(app.report_period, now)),
        _ => Command::Done,
    }
}

/// The report request for period `p` on the day of `now`.
fn report_load(p: ReportPeriod, now: Now) -> (r: Request)
    requires
        now_ok(now),
    ensures
        r == report_request(p, now),
{
    let (from, to) = period_range(p, now.local);
    Request::LoadReport(from, to)
}

/// Opens the form on the selected entry.
fn open_edit_form(app: &mut App)
    requires
        old(app).wf(),
        old(app).entries@.len() > 0,
    ensures
        edit_form(final(app).entry_form, *old(app)),
        final(app).modal == Modal::EntryForm,
        final(app).input_mode == InputMode::Editing,
        frame(*old(app), *final(app), set![Field::EntryForm, Field::Modal, Field::InputMode]),
{
    let ghost a = *app;
    let sel = app.entries_selected;
    let e = &app.entries[sel];
    let date = format_stamp(e.start_time, StampFormat::Date);
    let start = format_stamp(e.start_time, StampFormat::Clock);
    proof {
        lemma_utf8_len_bound(date@);
        lemma_utf8_len_bound(start@);
        assert(crate::state::entry_ok(a.entries@[sel as int]));
    }
    let end_time = match e.end_time {
        Some(t) => {
            let end = format_stamp(t, StampFormat::Clock);
            proof {
                lemma_utf8_len_bound(end@);
            }
            TextInput::with_value("End", end.as_str())
        },
        None => TextInput::new("End (HH:MM)"),
    };
    let name = lookup_name(&app.entry_project_names, e.project_id);
    let form = EntryFormState {
        editing_id: Some(e.id),
        project_name: TextInput::with_value("Project", name.as_str()),
        description: TextInput::with_value("Description", e.description.as_str()),
        date: TextInput::with_value("Date", date.as_str()),
        start_time: TextInput::with_value("Start", start.as_str()),
        end_time,
        billable: e.billable,
        focused_field: 0,
    };
    app.entry_form = form;
    app.modal = Modal::EntryForm;
    app.input_mode = InputMode::Editing;
}

/// Name of project `pid` in the name book, or empty text.
pub fn lookup_name(names: &Vec<(i64, String)>, pid: i64) -> (r: String)
    requires
        forall|i: int| 0 <= i < names@.len() ==> text_fits(#[trigger] names@[i].1@),
    ensures
        r@ == name_of(names@, pid),
        text_fits(r@),
{
    let mut i: usize = 0;
    proof {
        assert(names@.skip(0) =~= names@);
    }
    while i < names.len()
        invariant
            0 <= i <= names@.len(),
            forall|j: int| 0 <= j < names@.len() ==> text_fits(#[trigger] names@[j].1@),
            forall|j: int| 0 <= j < i ==> names@[j].0 != pid,
            name_of(names@, pid) == name_of(names@.skip(i as int), pid),
        decreases names@.len() - i,
    {
        proof {
            assert(names@.skip(i as int).drop_first() =~= names@.skip(i + 1));
        }
        if names[i].0 == pid {
            proof {
                assert(text_fits(names@[i as int].1@));
            }
            return names[i].1.clone();
        }
        i = i + 1;
    }
    proof {
        assert(names@.skip(i as int) =~= Seq::<(i64, String)>::empty());
        crate::text::lemma_boundary_ends(Seq::<char>::empty());
    }
    String::new()
}


/// Types `c` into the focused text input of the form.
fn form_insert(f: &mut EntryFormState, c: char)
    requires
        old(f).wf(),
        old(f).focused_field < 5,
        form_input(*old(f), old(f).focused_field as int).has_room(),
    ensures
        form_input(*old(f), old(f).focused_field as int).inserted(
            c,
            form_input(*final(f), old(f).focused_field as int),
        ),
        form_with_input(*old(f), *final(f), old(f).focused_field as int),
        final(f).wf(),
{
    let i = f.focused_field;
    if i == 0 {
        f.project_name.insert(c);
    } else if i == 1 {
        f.description.insert(c);
    } else if i == 2 {
        f.date.insert(c);
    } else if i == 3 {
        f.start_time.insert(c);
    } else {
        f.end_time.insert(c);
    }
}

/// Deletes back in the focused text input of the form.
fn form_delete_back(f: &mut EntryFormState)
    requires
        old(f).wf(),
        old(f).focused_field < 5,
    ensures
        form_input(*old(f), old(f).focused_field as int).deleted_back(
            form_input(*final(f), old(f).focused_field as int),
        ),
        form_with_input(*old(f), *final(f), old(f).focused_field as int),
        final(f).wf(),
{
    let i = f.focused_field;
    if i == 0 {
        f.project_name.delete_back();
    } else if i == 1 {
        f.description.delete_back();
    } else if i == 2 {
        f.date.delete_back();
    } else if i == 3 {
        f.start_time.delete_back();
    } else {
        f.end_time.delete_back();
    }
}

/// Moves the cursor of the focused text input of the form back.
fn form_move_left(f: &mut EntryFormState)
    requires
        old(f).wf(),
        old(f).focused_field < 5,
    ensures
        form_input(*old(f), old(f).focused_field as int).moved_left(
            form_input(*final(f), old(f).focused_field as int),
        ),
        form_with_input(*old(f), *final(f), old(f).focused_field as int),
        final(f).wf(),
{
    let i = f.focused_field;
    if i == 0 {
        f.project_name.move_left();
    } else if i == 1 {
        f.description.move_left();
    } else if i == 2 {
        f.date.move_left();
    } else if i == 3 {
        f.start_time.move_left();
    } else {
        f.end_time.move_left();
    }
}

/// Moves the cursor of the focused text input of the form forward.
fn form_move_right(f: &mut EntryFormState)
    requires
        old(f).wf(),
        old(f).focused_field < 5,
    ensures
        form_input(*old(f), old(f).focused_field as int).moved_right(
            form_input(*final(f), old(f).focused_field as int),
        ),
        form_with_input(*old(f), *final(f), old(f).focused_field as int),
        final(f).wf(),
{
    let i = f.focused_field;
    if i == 0 {
        f.project_name.move_right();
    } else if i == 1 {
        f.description.move_right();
    } else if i == 2 {
        f.date.move_right();
    } else if i == 3 {
        f.start_time.move_right();
    } else {
        f.end_time.move_right();
    }
}

/// The messages `step_screen` handles.
pub open spec fn screen_message(msg: Message) -> bool {
    msg is NavigateScreen
    || msg is NextTab
    || msg is PrevTab
    || msg is NextReportPeriod
    || msg is PrevReportPeriod
    || msg is Refresh
    || msg is Quit
    || msg is OpenHelp
    || msg is CloseModal
}

/// The messages `step_notice` handles.
pub open spec fn notice_message(msg: Message) -> bool {
    msg is SetStatus
    || msg is NewProject
    || msg is NewClient
}

/// The messages `step_timer` handles.
pub open spec fn timer_message(msg: Message) -> bool {
    msg is StartTimer
    || msg is StopTimer
    || msg is CancelTimer
    || msg is ToggleTimer
    || msg is Tick
}

/// The messages `step_entry` handles.
pub open spec fn entry_message(msg: Message) -> bool {
    msg is SelectNextEntry
    || msg is SelectPrevEntry
    || msg is DeleteSelectedEntry
    || msg is EditSelectedEntry
    || msg is NewEntry
}

/// The messages `step_catalog` handles.
pub open spec fn catalog_message(msg: Message) -> bool {
    msg is SelectNextProject
    || msg is SelectPrevProject
    || msg is ArchiveSelectedProject
    || msg is ToggleArchivedProjects
    || msg is SelectNextClient
    || msg is SelectPrevClient
    || msg is DeleteSelectedClient
}

/// The messages `step_form` handles.
pub open spec fn form_message(msg: Message) -> bool {
    msg is SubmitEntryForm
    || msg is CancelForm
    || msg is NextField
    || msg is PrevField
    || msg is ToggleBillable
}

/// The messages `step_typing` handles.
pub open spec fn typing_message(msg: Message) -> bool {
    msg is InputChar
    || msg is InputBackspace
    || msg is InputLeft
    || msg is InputRight
}

/// The messages `step_choice` handles.
pub open spec fn choice_message(msg: Message) -> bool {
    msg is OpenProjectPicker
    || msg is SelectNextPickerItem
    || msg is SelectPrevPickerItem
    || msg is ConfirmPicker
    || msg is ConfirmYes
    || msg is ConfirmNo
}

/// Moves between screens and report periods, reloads, opens help, closes a modal or quits.
fn step_screen(app: &mut App, msg: Message, now: Now) -> (cmd: Command)
    requires
        old(app).wf(),
        now_ok(now),
        step_ready(*old(app), msg),
        screen_message(msg),
    ensures
        stepped(*old(app), msg, now, *final(app), cmd),
        final(app).wf(),
{
    match msg {
        Message::NavigateScreen(screen) => {
            app.prev_screen = app.screen;
            app.screen = screen;
            screen_load_command(app, screen, now)
        },
        Message::NextTab => {
            let next = (app.screen.index() + 1) % 7;
            Command::Dispatch(Message::NavigateScreen(Screen::from_index(next)))
        },
        Message::PrevTab => {
            let prev = if app.screen.index() == 0 {
                6
            } else {
                app.screen.index() - 1
            };
            Command::Dispatch(Message::NavigateScreen(Screen::from_index(prev)))
        },
        Message::NextReportPeriod => {
            app.report_period = match app.report_period {
                ReportPeriod::Daily => ReportPeriod::Weekly,
                ReportPeriod::Weekly => ReportPeriod::Monthly,
                ReportPeriod::Monthly => ReportPeriod::Daily,
            };
            perform_one(report_load(app.report_period, now))
        },
        Message::PrevReportPeriod => {
            app.report_period = match app.report_period {
                ReportPeriod::Daily => ReportPeriod::Monthly,
                ReportPeriod::Weekly => ReportPeriod::Daily,
                ReportPeriod::Monthly => ReportPeriod::Weekly,
            };
            perform_one(report_load(app.report_period, now))
        },
        Message::Refresh => {
            let mut v: Vec<Request> = Vec::new();
            v.push(Request::LoadActiveTimer);
            v.push(Request::LoadToday);
            v.push(Request::LoadEntries);
            v.push(Request::LoadProjects(app.show_archived_projects));
            v.push(Request::LoadClients);
            proof {
                assert(v@ =~= refresh_all(*app));
            }
            Command::Perform(v)
        },
        Message::Quit => {
            app.running = false;
            Command::Done
        },
        Message::OpenHelp => {
            app.modal = Modal::Help;
            Command::Done
        },
        Message::CloseModal => {
            app.modal = Modal::Closed;
            app.input_mode = InputMode::Normal;
            Command::Done
        },
        _ => Command::Done,
    }
}

/// Messages that only show a status text.
fn step_notice(app: &mut App, msg: Message, now: Now) -> (cmd: Command)
    requires
        old(app).wf(),
        now_ok(now),
        step_ready(*old(app), msg),
        notice_message(msg),
    ensures
        stepped(*old(app), msg, now, *final(app), cmd),
        final(app).wf(),
{
    match msg {
        Message::SetStatus(text) => {
            say(app, text.as_str(), now);
            Command::Done
        },
        Message::NewProject => {
            say(app, "Use CLI 'saga projects add <name>' to add projects.", now);
            Command::Done
        },
        Message::NewClient => {
            say(app, "Use CLI 'saga clients add <name>' to add clients.", now);
            Command::Done
        },
        _ => Command::Done,
    }
}

/// Starts, stops, cancels or toggles the timer, and counts its seconds.
fn step_timer(app: &mut App, msg: Message, now: Now) -> (cmd: Command)
    requires
        old(app).wf(),
        now_ok(now),
        step_ready(*old(app), msg),
        timer_message(msg),
    ensures
        stepped(*old(app), msg, now, *final(app), cmd),
        final(app).wf(),
{
    match msg {
        Message::StartTimer(project_id) => {
            if app.active_entry.is_some() {
                say(app, "Timer already running. Stop it first.", now);
                return Command::Done;
            }
            let entry = NewTimeEntry {
                project_id,
                description: String::new(),
                start_time: now.local,
                end_time: None,
                billable: app.default_billable,
                tags: Vec::new(),
            };
            perform_one(Request::StartEntry(entry))
        },
        Message::StopTimer => perform_one(Request::StopActive),
        Message::CancelTimer => perform_one(Request::CancelActive),
        Message::ToggleTimer => {
            if app.active_entry.is_some() {
                Command::Dispatch(Message::StopTimer)
            } else {
                Command::Dispatch(Message::OpenProjectPicker)
            }
        },
        Message::Tick => {
            match &app.active_entry {
                Some(entry) => {
                    app.timer_seconds = (now.local - entry.start_time) as u64;
                },
                None => {},
            }
            let expired = match &app.status_message {
                Some(m) => {
                    let shown = if now.mono_ms >= m.1 {
                        now.mono_ms - m.1
                    } else {
                        0
                    };
                    shown / 1000 > 5
                },
                None => false,
            };
            if expired {
                app.status_message = None;
            }
            Command::Done
        },
        _ => Command::Done,
    }
}

/// Moves through, deletes, edits or creates entries.
fn step_entry(app: &mut App, msg: Message, now: Now) -> (cmd: Command)
    requires
        old(app).wf(),
        now_ok(now),
        step_ready(*old(app), msg),
        entry_message(msg),
    ensures
        stepped(*old(app), msg, now, *final(app), cmd),
        final(app).wf(),
{
    match msg {
        Message::SelectNextEntry => {
            app.entries_selected = select_next(app.entries_selected, app.entries.len());
            Command::Done
        },
        Message::SelectPrevEntry => {
            if app.entries_selected > 0 {
                app.entries_selected = app.entries_selected - 1;
            }
            Command::Done
        },
        Message::DeleteSelectedEntry => {
            if app.entries.len() == 0 {
                return Command::Done;
            }
            let sel = app.entries_selected;
            let start = app.entries[sel].start_time;
            let id = app.entries[sel].id;
            let mut text = chars_of("Delete entry from ");
            let when = format_stamp(start, StampFormat::DateClock);
            push_text(&mut text, when.as_str());
            let ghost before = text@;
            text.push('?');
            assert(text@ =~= before + seq!['?']);
            app.confirm_message = string_of(text.as_slice());
            app.confirm_action = Some(Message::Refresh);
            perform_one(Request::DeleteEntry(id))
        },
        Message::EditSelectedEntry => {
            if app.entries.len() > 0 {
                open_edit_form(app);
            }
            Command::Done
        },
        Message::NewEntry => {
            app.entry_form = EntryFormState::new(now.local);
            app.modal = Modal::EntryForm;
            app.input_mode = InputMode::Editing;
            Command::Done
        },
        _ => Command::Done,
    }
}

/// Moves through, archives or activates projects, and moves through or deletes clients.
fn step_catalog(app: &mut App, msg: Message, now: Now) -> (cmd: Command)
    requires
        old(app).wf(),
        now_ok(now),
        step_ready(*old(app), msg),
        catalog_message(msg),
    ensures
        stepped(*old(app), msg, now, *final(app), cmd),
        final(app).wf(),
{
    match msg {
        Message::SelectNextProject => {
            app.projects_selected = select_next(app.projects_selected, app.projects.len());
            Command::Done
        },
        Message::SelectPrevProject => {
            if app.projects_selected > 0 {
                app.projects_selected = app.projects_selected - 1;
            }
            Command::Done
        },
        Message::ArchiveSelectedProject => {
            if app.projects.len() == 0 {
                return Command::Done;
            }
            let p = &app.projects[app.projects_selected];
            if p.status == ProjectStatus::Active {
                perform_one(Request::ArchiveProject(p.id))
            } else {
                perform_one(Request::ActivateProject(p.id))
            }
        },
        Message::ToggleArchivedProjects => {
            app.show_archived_projects = !app.show_archived_projects;
            perform_one(Request::LoadProjects(app.show_archived_projects))
        },
        Message::SelectNextClient => {
            app.clients_selected = select_next(app.clients_selected, app.clients.len());
            Command::Done
        },
        Message::SelectPrevClient => {
            if app.clients_selected > 0 {
                app.clients_selected = app.clients_selected - 1;
            }
            Command::Done
        },
        Message::DeleteSelectedClient => {
            if app.clients.len() == 0 {
                return Command::Done;
            }
            perform_one(Request::DeleteClient(app.clients[app.clients_selected].id))
        },
        _ => Command::Done,
    }
}

/// Submits, cancels, moves through the fields of, or toggles the billable flag of the entry form.
fn step_form(app: &mut App, msg: Message, now: Now) -> (cmd: Command)
    requires
        old(app).wf(),
        now_ok(now),
        step_ready(*old(app), msg),
        form_message(msg),
    ensures
        stepped(*old(app), msg, now, *final(app), cmd),
        final(app).wf(),
{
    match msg {
        Message::SubmitEntryForm => {
            if app.entry_form.project_name.value.as_str().is_empty()
                || app.entry_form.start_time.value.as_str().is_empty() {
                say(app, "Project and start time are required.", now);
                return Command::Done;
            }
            perform_one(Request::FindProject(app.entry_form.project_name.value.clone()))
        },
        Message::CancelForm => {
            app.modal = Modal::Closed;
            app.input_mode = InputMode::Normal;
            Command::Done
        },
        Message::NextField => {
            let count = app.entry_form.field_count();
            app.entry_form.focused_field = (app.entry_form.focused_field + 1) % count;
            Command::Done
        },
        Message::PrevField => {
            let count = app.entry_form.field_count();
            app.entry_form.focused_field = if app.entry_form.focused_field == 0 {
                count - 1
            } else {
                app.entry_form.focused_field - 1
            };
            Command::Done
        },
        Message::ToggleBillable => {
            app.entry_form.billable = !app.entry_form.billable;
            Command::Done
        },
        _ => Command::Done,
    }
}

/// Typing into the focused text input.
fn step_typing(app: &mut App, msg: Message, now: Now) -> (cmd: Command)
    requires
        old(app).wf(),
        now_ok(now),
        step_ready(*old(app), msg),
        typing_message(msg),
    ensures
        stepped(*old(app), msg, now, *final(app), cmd),
        final(app).wf(),
{
    match msg {
        Message::InputChar(c) => {
            match app.modal {
                Modal::EntryForm => {
                    if app.entry_form.focused_field < 5 {
                        form_insert(&mut app.entry_form, c);
                    }
                    Command::Done
                },
                Modal::ProjectPicker => {
                    app.picker_filter.insert(c);
                    perform_one(Request::FilterPicker)
                },
                _ => Command::Done,
            }
        },
        Message::InputBackspace => {
            match app.modal {
                Modal::EntryForm => {
                    if app.entry_form.focused_field < 5 {
                        form_delete_back(&mut app.entry_form);
                    }
                    Command::Done
                },
                Modal::ProjectPicker => {
                    app.picker_filter.delete_back();
                    perform_one(Request::FilterPicker)
                },
                _ => Command::Done,
            }
        },
        Message::InputLeft => {
            if app.modal == Modal::EntryForm && app.entry_form.focused_field < 5 {
                form_move_left(&mut app.entry_form);
            }
            Command::Done
        },
        Message::InputRight => {
            if app.modal == Modal::EntryForm && app.entry_form.focused_field < 5 {
                form_move_right(&mut app.entry_form);
            }
            Command::Done
        },
        _ => Command::Done,
    }
}

/// Opens, moves through and confirms the project picker, and answers the confirmation dialog.
fn step_choice(app: &mut App, msg: Message, now: Now) -> (cmd: Command)
    requires
        old(app).wf(),
        now_ok(now),
        step_ready(*old(app), msg),
        choice_message(msg),
    ensures
        stepped(*old(app), msg, now, *final(app), cmd),
        final(app).wf(),
{
    match msg {
        Message::OpenProjectPicker => {
            app.picker_filter.clear();
            app.picker_selected = 0;
            app.modal = Modal::ProjectPicker;
            app.input_mode = InputMode::Editing;
            perform_one(Request::LoadPicker)
        },
        Message::SelectNextPickerItem => {
            app.picker_selected = select_next(app.picker_selected, app.picker_projects.len());
            Command::Done
        },
        Message::SelectPrevPickerItem => {
            if app.picker_selected > 0 {
                app.picker_selected = app.picker_selected - 1;
            }
            Command::Done
        },
        Message::ConfirmPicker => {
            if app.picker_projects.len() > 0 {
                let project_id = app.picker_projects[app.picker_selected].id;
                app.modal = Modal::Closed;
                app.input_mode = InputMode::Normal;
                return Command::Dispatch(Message::StartTimer(project_id));
            }
            Command::Done
        },
        Message::ConfirmYes => {
            let action = app.confirm_action.take();
            app.modal = Modal::Closed;
            match action {
                Some(m) => Command::Dispatch(m),
                None => Command::Done,
            }
        },
        Message::ConfirmNo => {
            app.confirm_action = None;
            app.modal = Modal::Closed;
            Command::Done
        },
        _ => Command::Done,
    }
}

/// Asks for the report on screen to be written as a CSV file named after
/// the time.
fn export_csv(app: &App, now: Now) -> (cmd: Command)
    ensures
        saves_report_csv(
            cmd,
            report_file_text(now.local, ".csv"@),
            breakdown_csv(app.report_project_breakdown@),
        ),
{
    let rows = breakdown_rows(&app.report_project_breakdown);
    let text = report_csv(&rows);
    let name = report_file_name(now.local, ".csv");
    let mut v: Vec<Request> = Vec::new();
    v.push(Request::SaveReportCsv(name, text));
    Command::Perform(v)
}

/// Asks for the report on screen to be written as a PDF file named after
/// the time.
fn export_pdf(now: Now) -> (cmd: Command)
    ensures
        saves_report_pdf(cmd, report_file_text(now.local, ".pdf"@)),
{
    let name = report_file_name(now.local, ".pdf");
    let mut v: Vec<Request> = Vec::new();
    v.push(Request::SaveReportPdf(name));
    Command::Perform(v)
}

/// One step of the interface: changes the state as `msg` asks at time `now`
/// and says what comes next.
pub fn step(app: &mut App, msg: Message, now: Now) -> (cmd: Command)
    requires
        old(app).wf(),
        now_ok(now),
        step_ready(*old(app), msg),
    ensures
        stepped(*old(app), msg, now, *final(app), cmd),
        final(app).wf(),
{
    match msg {
        Message::NavigateScreen(_)
        | Message::NextTab
        | Message::PrevTab
        | Message::NextReportPeriod
        | Message::PrevReportPeriod
        | Message::Refresh
        | Message::Quit
        | Message::OpenHelp
        | Message::CloseModal
        => step_screen(app, msg, now),
        Message::SetStatus(_)
        | Message::NewProject
        | Message::NewClient
        => step_notice(app, msg, now),
        Message::ExportCsv => export_csv(app, now),
        Message::ExportPdf => export_pdf(now),
        Message::StartTimer(_)
        | Message::StopTimer
        | Message::CancelTimer
        | Message::ToggleTimer
        | Message::Tick
        => step_timer(app, msg, now),
        Message::SelectNextEntry
        | Message::SelectPrevEntry
        | Message::DeleteSelectedEntry
        | Message::EditSelectedEntry
        | Message::NewEntry
        => step_entry(app, msg, now),
        Message::SelectNextProject
        | Message::SelectPrevProject
        | Message::ArchiveSelectedProject
        | Message::ToggleArchivedProjects
        | Message::SelectNextClient
        | Message::SelectPrevClient
        | Message::DeleteSelectedClient
        => step_catalog(app, msg, now),
        Message::SubmitEntryForm
        | Message::CancelForm
        | Message::NextField
        | Message::PrevField
        | Message::ToggleBillable
        => step_form(app, msg, now),
        Message::InputChar(_)
        | Message::InputBackspace
        | Message::InputLeft
        | Message::InputRight
        => step_typing(app, msg, now),
        Message::OpenProjectPicker
        | Message::SelectNextPickerItem
        | Message::SelectPrevPickerItem
        | Message::ConfirmPicker
        | Message::ConfirmYes
        | Message::ConfirmNo
        => step_choice(app, msg, now),
    }
}

/// Moving one tab forward and then one tab back returns to the screen one
/// started on.
pub proof fn law_tab_round_trip(
    a: App,
    now: Now,
    m: Message,
    b1: App,
    b2: App,
    c2: Command,
    b3: App,
    c3: Command,
)
    requires
        stepped(a, Message::NextTab, now, b1, Command::Dispatch(m)),
        stepped(b1, m, now, b2, c2),
        stepped(b2, Message::PrevTab, now, b3, c3),
    ensures
        c3 == Command::Dispatch(Message::NavigateScreen(a.screen)),
{
    crate::state::law_screen_index_roundtrip(a.screen, 0);
    let i = screen_index(a.screen);
    let j = ((i + 1) % 7) as int;
    crate::state::law_screen_index_roundtrip(screen_at(j), j);
    crate::state::law_screen_index_roundtrip(
        screen_at(if j == 0 { 6 } else { j - 1 }),
        if j == 0 { 6 } else { j - 1 },
    );
}

/// Toggling the billable flag twice leaves the state as it was.
pub proof fn law_billable_toggle_twice(a: App, now: Now, b: App, c: Command, d: App, e: Command)
    requires
        stepped(a, Message::ToggleBillable, now, b, c),
        stepped(b, Message::ToggleBillable, now, d, e),
    ensures
        d == a,
        c is Done && e is Done,
{
    assert(d.entry_form == a.entry_form);
}

/// Moving the form's focus to the next field and back leaves the state as
/// it was, from any of the six fields.
pub proof fn law_field_round_trip(a: App, now: Now, b: App, c: Command, d: App, e: Command)
    requires
        a.entry_form.focused_field < form_field_count(),
        stepped(a, Message::NextField, now, b, c),
        stepped(b, Message::PrevField, now, d, e),
    ensures
        d == a,
{
    assert(d.entry_form == a.entry_form);
}

/// Moving the report period forward and back leaves the period as it was,
/// and both moves reload the report of the period they land on.
pub proof fn law_period_round_trip(a: App, now: Now, b: App, c: Command, d: App, e: Command)
    requires
        stepped(a, Message::NextReportPeriod, now, b, c),
        stepped(b, Message::PrevReportPeriod, now, d, e),
    ensures
        d == a,
        performs(e, seq![report_request(a.report_period, now)]),
{
    crate::state::law_period_cycle(a.report_period);
}

/// One timer at a time: asking to start a timer while one runs stores
/// nothing and only says so.
pub proof fn law_one_timer(a: App, p: i64, now: Now, b: App, c: Command)
    requires
        a.active_entry is Some,
        stepped(a, Message::StartTimer(p), now, b, c),
    ensures
        c is Done,
        b.active_entry == a.active_entry,
        status_set(b, "Timer already running. Stop it first."@, now),
{
}

/// A status text is cleared by the first tick that comes six seconds or
/// more after it was set, and kept by any earlier tick.
pub proof fn law_status_expiry(a: App, text: Seq<char>, set_at: Now, now: Now, b: App, c: Command)
    requires
        status_set(a, text, set_at),
        stepped(a, Message::Tick, now, b, c),
    ensures
        now.mono_ms >= set_at.mono_ms + 6000 ==> b.status_message is None,
        now.mono_ms < set_at.mono_ms + 6000 ==> b.status_message == a.status_message,
{
}

/// Answering the confirmation dialog, either way, closes it and leaves no
/// action pending; saying yes hands on the pending action.
pub proof fn law_confirm_answered(a: App, now: Now, b: App, c: Command, d: App, e: Command)
    requires
        stepped(a, Message::ConfirmYes, now, b, c),
        stepped(a, Message::ConfirmNo, now, d, e),
    ensures
        b.confirm_action is None && d.confirm_action is None,
        b.modal == Modal::Closed && d.modal == Modal::Closed,
        (a.confirm_action matches Some(m) ==> c == Command::Dispatch(m)),
        e is Done,
{
}


/// Deleting acts on the selected entry: with entries listed, the store is
/// asked to delete exactly the one under the selection, and the
/// confirmation names that entry's start.
pub proof fn law_delete_selected_entry(a: App, now: Now, b: App, c: Command)
    requires
        a.entries@.len() > 0,
        stepped(a, Message::DeleteSelectedEntry, now, b, c),
    ensures
        c is Perform,
        c->Perform_0@.len() == 1,
        c->Perform_0@[0] == Request::DeleteEntry(a.entries@[a.entries_selected as int].id),
        b.confirm_message@ == "Delete entry from "@ + formatted_stamp(
            a.entries@[a.entries_selected as int].start_time,
            pattern_text(StampFormat::DateClock),
        ) + seq!['?'],
        b.entries == a.entries,
{
}

} // verus!
