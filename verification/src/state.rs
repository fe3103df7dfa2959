//! The screens, modes and text inputs of the terminal interface.

use vstd::prelude::*;
use crate::text::{
    boundary_index, byte_offset, char_len_utf8, char_width, chars_of, lemma_boundary_ends,
    lemma_boundary_unique, lemma_utf8_len_bound, lemma_utf8_len_prefix, lemma_utf8_len_step,
    lemma_utf8_len_strict, lemma_utf8_len_edit,
    locate, on_boundary, string_of, text_fits, utf8_len, utf8_length,
};
use crate::clock::{format_stamp, formatted_stamp, pattern_text, StampFormat};
use crate::message::Message;
use crate::models::{
    stamp_ok, Client, DailySummary, Project, ProjectBreakdown, Tag, TimeEntry,
};

verus! {

/// The tabs of the interface, in tab order.
#[derive(Debug, Clone, Copy, PartialEq, Eq, Structural)]
pub enum Screen {
    Dashboard,
    Timer,
    Entries,
    Projects,
    Clients,
    Reports,
    Settings,
}

/// Position of a screen in the tab bar.
pub open spec fn screen_index(s: Screen) -> nat {
    match s {
        Screen::Dashboard => 0,
        Screen::Timer => 1,
        Screen::Entries => 2,
        Screen::Projects => 3,
        Screen::Clients => 4,
        Screen::Reports => 5,
        Screen::Settings => 6,
    }
}

/// The screen at tab position `i`; positions past the last tab give the dashboard.
pub open spec fn screen_at(i: int) -> Screen {
    if i == 1 {
        Screen::Timer
    } else if i == 2 {
        Screen::Entries
    } else if i == 3 {
        Screen::Projects
    } else if i == 4 {
        Screen::Clients
    } else if i == 5 {
        Screen::Reports
    } else if i == 6 {
        Screen::Settings
    } else {
        Screen::Dashboard
    }
}

/// The title of a screen's tab.
pub open spec fn screen_label(s: Screen) -> Seq<char> {
    match s {
        Screen::Dashboard => seq!['D', 'a', 's', 'h', 'b', 'o', 'a', 'r', 'd'],
        Screen::Timer => seq!['T', 'i', 'm', 'e', 'r'],
        Screen::Entries => seq!['E', 'n', 't', 'r', 'i', 'e', 's'],
        Screen::Projects => seq!['P', 'r', 'o', 'j', 'e', 'c', 't', 's'],
        Screen::Clients => seq!['C', 'l', 'i', 'e', 'n', 't', 's'],
        Screen::Reports => seq!['R', 'e', 'p', 'o', 'r', 't', 's'],
        Screen::Settings => seq!['S', 'e', 't', 't', 'i', 'n', 'g', 's'],
    }
}

/// Number of tabs.
pub open spec fn screen_count() -> nat {
    7
}

impl Screen {
    /// Position in the tab bar.
    pub fn index(&self) -> (i: usize)
        ensures
            i == screen_index(*self),
            i < screen_count(),
    {
        match self {
            Screen::Dashboard => 0,
            Screen::Timer => 1,
            Screen::Entries => 2,
            Screen::Projects => 3,
            Screen::Clients => 4,
            Screen::Reports => 5,
            Screen::Settings => 6,
        }
    }

    /// The screen at tab position `i`, or the dashboard past the last tab.
    pub fn from_index(i: usize) -> (s: Screen)
        ensures
            s == screen_at(i as int),
    {
        match i {
            0 => Screen::Dashboard,
            1 => Screen::Timer,
            2 => Screen::Entries,
            3 => Screen::Projects,
            4 => Screen::Clients,
            5 => Screen::Reports,
            6 => Screen::Settings,
            _ => Screen::Dashboard,
        }
    }

    /// The tab title.
    pub fn label(&self) -> (l: &'static str)
        ensures
            l@ == screen_label(*self),
    {
        proof {
            reveal_strlit("Dashboard");
            reveal_strlit("Timer");
            reveal_strlit("Entries");
            reveal_strlit("Projects");
            reveal_strlit("Clients");
            reveal_strlit("Reports");
            reveal_strlit("Settings");
        }
        match self {
            Screen::Dashboard => "Dashboard",
            Screen::Timer => "Timer",
            Screen::Entries => "Entries",
            Screen::Projects => "Projects",
            Screen::Clients => "Clients",
            Screen::Reports => "Reports",
            Screen::Settings => "Settings",
        }
    }
}

/// Tab positions and screens correspond one to one: a screen's position
/// leads back to it, and each of the seven positions to a screen there.
pub proof fn law_screen_index_roundtrip(s: Screen, i: int)
    ensures
        screen_at(screen_index(s) as int) == s,
        0 <= i < screen_count() ==> screen_index(screen_at(i)) == i,
{
}

/// Whether keys edit text or trigger shortcuts.
#[derive(Debug, Clone, Copy, PartialEq, Eq, Structural)]
pub enum InputMode {
    Normal,
    Editing,
}

/// The overlay drawn over the current screen.
#[derive(Debug, Clone, Copy, PartialEq, Eq, Structural)]
pub enum Modal {
    /// No overlay is open.
    Closed,
    EntryForm,
    ProjectPicker,
    ConfirmDelete,
    Help,
}

/// The span of time the reports screen covers.
#[derive(Debug, Clone, Copy, PartialEq, Eq, Structural)]
pub enum ReportPeriod {
    Daily,
    Weekly,
    Monthly,
}

/// The title of a report period.
pub open spec fn period_label(p: ReportPeriod) -> Seq<char> {
    match p {
        ReportPeriod::Daily => seq!['D', 'a', 'i', 'l', 'y'],
        ReportPeriod::Weekly => seq!['W', 'e', 'e', 'k', 'l', 'y'],
        ReportPeriod::Monthly => seq!['M', 'o', 'n', 't', 'h', 'l', 'y'],
    }
}

/// The period after `p`, cycling daily, weekly, monthly.
pub open spec fn next_period(p: ReportPeriod) -> ReportPeriod {
    match p {
        ReportPeriod::Daily => ReportPeriod::Weekly,
        ReportPeriod::Weekly => ReportPeriod::Monthly,
        ReportPeriod::Monthly => ReportPeriod::Daily,
    }
}

/// The period before `p`.
pub open spec fn prev_period(p: ReportPeriod) -> ReportPeriod {
    match p {
        ReportPeriod::Daily => ReportPeriod::Monthly,
        ReportPeriod::Weekly => ReportPeriod::Daily,
        ReportPeriod::Monthly => ReportPeriod::Weekly,
    }
}

impl ReportPeriod {
    /// The period's title.
    pub fn label(&self) -> (l: &'static str)
        ensures
            l@ == period_label(*self),
    {
        proof {
            reveal_strlit("Daily");
            reveal_strlit("Weekly");
            reveal_strlit("Monthly");
        }
        match self {
            ReportPeriod::Daily => "Daily",
            ReportPeriod::Weekly => "Weekly",
            ReportPeriod::Monthly => "Monthly",
        }
    }
}

/// Stepping the period forward and back, in either order, returns to where
/// it was; three steps forward go round the whole cycle.
pub proof fn law_period_cycle(p: ReportPeriod)
    ensures
        prev_period(next_period(p)) == p,
        next_period(prev_period(p)) == p,
        next_period(next_period(next_period(p))) == p,
{
}

/// A one-line text field with a cursor. The cursor is a byte offset into the
/// UTF-8 text and always sits at the start of a character or at the end.
#[derive(Debug, Clone)]
pub struct TextInput {
    pub value: String,
    pub cursor: usize,
    pub label: String,
}

impl TextInput {
    /// The cursor sits on a character boundary.
    pub open spec fn wf(&self) -> bool {
        &&& on_boundary(self.value@, self.cursor as int)
        &&& text_fits(self.value@)
    }

    /// Index of the character the cursor sits before.
    pub open spec fn cursor_index(&self) -> int {
        boundary_index(self.value@, self.cursor as int)
    }

    /// Room left to insert one more character.
    pub open spec fn has_room(&self) -> bool {
        utf8_len(self.value@) + 4 <= usize::MAX
    }

    /// `t` is this field after inserting `c` at the cursor.
    pub open spec fn inserted(self, c: char, t: TextInput) -> bool {
        &&& t.value@ == self.value@.insert(self.cursor_index(), c)
        &&& t.cursor == self.cursor + char_width(c)
        &&& t.label == self.label
    }

    /// `t` is this field after removing the character before the cursor.
    pub open spec fn deleted_back(self, t: TextInput) -> bool {
        if self.cursor == 0 {
            t == self
        } else {
            &&& t.value@ == self.value@.remove(self.cursor_index() - 1)
            &&& t.cursor == utf8_len(self.value@.take(self.cursor_index() - 1))
            &&& t.label == self.label
        }
    }

    /// `t` is this field after moving the cursor back one character.
    pub open spec fn moved_left(self, t: TextInput) -> bool {
        &&& t.value == self.value
        &&& t.label == self.label
        &&& t.cursor == if self.cursor == 0 {
            0nat
        } else {
            utf8_len(self.value@.take(self.cursor_index() - 1))
        }
    }

    /// `t` is this field after moving the cursor forward one character.
    pub open spec fn moved_right(self, t: TextInput) -> bool {
        &&& t.value == self.value
        &&& t.label == self.label
        &&& t.cursor == if self.cursor >= utf8_len(self.value@) {
            self.cursor as nat
        } else {
            utf8_len(self.value@.take(self.cursor_index() + 1))
        }
    }

    /// An empty field.
    pub fn new(label: &str) -> (r: TextInput)
        ensures
            r.value@ == Seq::<char>::empty(),
            r.cursor == 0,
            r.label@ == label@,
            r.wf(),
    {
        let r = TextInput { value: String::new(), cursor: 0, label: label.to_owned() };
        proof {
            lemma_boundary_ends(r.value@);
        }
        r
    }

    /// A field holding `value`, with the cursor at its end.
    pub fn with_value(label: &str, value: &str) -> (r: TextInput)
        requires
            text_fits(value@),
        ensures
            r.value@ == value@,
            r.cursor == utf8_len(value@),
            r.label@ == label@,
            r.wf(),
            r.cursor_index() == value@.len(),
    {
        let len = match utf8_length(value) {
            Some(n) => n,
            None => {
                assert(false);
                0
            },
        };
        let r = TextInput { value: value.to_owned(), cursor: len, label: label.to_owned() };
        proof {
            lemma_boundary_ends(r.value@);
        }
        r
    }

    /// Inserts `c` at the cursor and moves the cursor past it.
    pub fn insert(&mut self, c: char)
        requires
            old(self).wf(),
            old(self).has_room(),
        ensures
            final(self).value@ == old(self).value@.insert(old(self).cursor_index(), c),
            final(self).cursor == old(self).cursor + char_width(c),
            final(self).cursor_index() == old(self).cursor_index() + 1,
            final(self).label == old(self).label,
            final(self).wf(),
            old(self).inserted(c, *final(self)),
    {
        let ghost old_value = self.value@;
        let ghost k0 = self.cursor_index();
        let mut chars = chars_of(self.value.as_str());
        let k = match locate(&chars, self.cursor) {
            Some(k) => k,
            None => {
                assert(false);
                0
            },
        };
        proof {
            lemma_utf8_len_prefix(old_value, k as int);
        }
        chars.insert(k, c);
        let w = char_len_utf8(c);
        self.value = string_of(chars.as_slice());
        self.cursor = self.cursor + w;
        proof {
            let s = self.value@;
            assert(s.take(k as int) =~= old_value.take(k as int));
            lemma_utf8_len_step(s, k as int);
            lemma_boundary_unique(s, self.cursor as int, k + 1);
            lemma_utf8_len_edit(old_value, k as int, c);
        }
    }

    /// Removes the character before the cursor, if any, and moves the cursor
    /// to where it started.
    pub fn delete_back(&mut self)
        requires
            old(self).cursor == 0 || old(self).wf(),
        ensures
            old(self).cursor == 0 ==> *final(self) == *old(self),
            old(self).cursor > 0 ==> {
                &&& final(self).value@ == old(self).value@.remove(old(self).cursor_index() - 1)
                &&& final(self).cursor == utf8_len(
                    old(self).value@.take(old(self).cursor_index() - 1),
                )
                &&& final(self).cursor_index() == old(self).cursor_index() - 1
                &&& final(self).label == old(self).label
            },
            old(self).cursor > 0 ==> final(self).wf(),
            old(self).deleted_back(*final(self)),
    {
        if self.cursor > 0 {
            let ghost old_value = self.value@;
            let mut chars = chars_of(self.value.as_str());
            let k = match locate(&chars, self.cursor) {
                Some(k) => k,
                None => {
                    assert(false);
                    0
                },
            };
            proof {
                assert(old_value.take(0) =~= Seq::<char>::empty());
                assert(k > 0);
                lemma_utf8_len_strict(old_value, k - 1, k as int);
            }
            let prev = byte_offset(&chars, k - 1);
            chars.remove(k - 1);
            self.value = string_of(chars.as_slice());
            self.cursor = prev;
            proof {
                let s = self.value@;
                assert(s.take(k - 1) =~= old_value.take(k - 1));
                lemma_boundary_unique(s, prev as int, k - 1);
                lemma_utf8_len_edit(old_value, k - 1, ' ');
            }
        }
    }

    /// Moves the cursor back over one character, if any.
    pub fn move_left(&mut self)
        requires
            old(self).cursor == 0 || old(self).wf(),
        ensures
            final(self).value == old(self).value,
            final(self).label == old(self).label,
            old(self).cursor == 0 ==> final(self).cursor == 0,
            old(self).cursor > 0 ==> final(self).cursor == utf8_len(
                old(self).value@.take(old(self).cursor_index() - 1),
            ) && final(self).cursor_index() == old(self).cursor_index() - 1,
            old(self).cursor > 0 ==> final(self).wf(),
            old(self).moved_left(*final(self)),
    {
        if self.cursor > 0 {
            let chars = chars_of(self.value.as_str());
            let k = match locate(&chars, self.cursor) {
                Some(k) => k,
                None => {
                    assert(false);
                    0
                },
            };
            proof {
                assert(chars@.take(0) =~= Seq::<char>::empty());
                assert(k > 0);
                lemma_utf8_len_strict(chars@, k - 1, k as int);
            }
            let prev = byte_offset(&chars, k - 1);
            self.cursor = prev;
            proof {
                lemma_boundary_unique(self.value@, prev as int, k - 1);
            }
        }
    }

    /// Moves the cursor forward over one character, unless it is at the end.
    pub fn move_right(&mut self)
        requires
            old(self).wf() || (old(self).cursor >= utf8_len(old(self).value@) && text_fits(
                old(self).value@,
            )),
        ensures
            final(self).value == old(self).value,
            final(self).label == old(self).label,
            old(self).cursor >= utf8_len(old(self).value@) ==> final(self).cursor
                == old(self).cursor,
            old(self).cursor < utf8_len(old(self).value@) ==> final(self).cursor == utf8_len(
                old(self).value@.take(old(self).cursor_index() + 1),
            ) && final(self).cursor_index() == old(self).cursor_index() + 1,
            old(self).wf() ==> final(self).wf(),
            old(self).moved_right(*final(self)),
    {
        let chars = chars_of(self.value.as_str());
        match locate(&chars, self.cursor) {
            Some(k) => {
                if k < chars.len() {
                    proof {
                        lemma_utf8_len_step(chars@, k as int);
                        lemma_utf8_len_prefix(chars@, k + 1);
                    }
                    let w = char_len_utf8(chars[k]);
                    proof {
                        lemma_utf8_len_prefix(chars@, k + 1);
                        lemma_utf8_len_bound(chars@);
                    }
                    self.cursor = self.cursor + w;
                    proof {
                        lemma_boundary_unique(self.value@, self.cursor as int, k + 1);
                    }
                } else {
                    proof {
                        assert(chars@.take(chars@.len() as int) =~= chars@);
                    }
                }
            },
            None => {},
        }
    }

    /// Empties the field.
    pub fn clear(&mut self)
        ensures
            final(self).value@ == Seq::<char>::empty(),
            final(self).cursor == 0,
            final(self).label == old(self).label,
            final(self).wf(),
    {
        self.value = String::new();
        self.cursor = 0;
        proof {
            lemma_boundary_ends(self.value@);
        }
    }
}


/// Typing a character and then deleting back leaves the field as it was,
/// wherever the cursor stood, the start of the text included.
pub proof fn law_insert_undo(t: TextInput, c: char, t1: TextInput, t2: TextInput)
    requires
        t.wf(),
        t.has_room(),
        t.inserted(c, t1),
        t1.deleted_back(t2),
    ensures
        t2.value@ == t.value@,
        t2.cursor == t.cursor,
        t2.label == t.label,
{
    let k = t.cursor_index();
    lemma_utf8_len_prefix(t.value@, k);
    let s1 = t1.value@;
    assert(s1.take(k) =~= t.value@.take(k));
    lemma_utf8_len_step(s1, k);
    lemma_boundary_unique(s1, t1.cursor as int, k + 1);
    assert(s1.remove(k) =~= t.value@);
}

/// Moving the cursor left and then right leaves the field as it was, from
/// anywhere but the start of the text.
pub proof fn law_move_undo(t: TextInput, u1: TextInput, u2: TextInput)
    requires
        t.wf(),
        t.cursor > 0,
        t.moved_left(u1),
        u1.moved_right(u2),
    ensures
        u2 == t,
{
    let k = t.cursor_index();
    assert(k > 0) by {
        assert(t.value@.take(0) =~= Seq::<char>::empty());
    }
    lemma_utf8_len_strict(t.value@, k - 1, k);
    lemma_boundary_unique(t.value@, u1.cursor as int, k - 1);
    lemma_utf8_len_prefix(t.value@, k);
    lemma_utf8_len_prefix(t.value@, k - 1);
    if u1.cursor >= utf8_len(t.value@) {
        lemma_utf8_len_prefix(t.value@, k);
    }
}

/// The fields of the time-entry form, in focus order: project, description,
/// date, start, end, then the billable toggle.
#[derive(Debug, Clone)]
pub struct EntryFormState {
    pub editing_id: Option<i64>,
    pub project_name: TextInput,
    pub description: TextInput,
    pub date: TextInput,
    pub start_time: TextInput,
    pub end_time: TextInput,
    pub billable: bool,
    pub focused_field: usize,
}

/// Number of focusable fields of the entry form.
pub open spec fn form_field_count() -> nat {
    6
}

impl EntryFormState {
    /// Every text field keeps its cursor on a boundary and focus is on a field.
    pub open spec fn wf(&self) -> bool {
        &&& self.project_name.wf()
        &&& self.description.wf()
        &&& self.date.wf()
        &&& self.start_time.wf()
        &&& self.end_time.wf()
        &&& self.focused_field < form_field_count()
    }

    /// The blank form `new(today)` gives.
    pub open spec fn is_blank(&self, today: i64) -> bool {
        &&& self.editing_id is None
        &&& self.project_name.value@ == Seq::<char>::empty()
        &&& self.project_name.label@ == "Project"@
        &&& self.description.value@ == Seq::<char>::empty()
        &&& self.description.label@ == "Description"@
        &&& self.date.value@ == formatted_stamp(today, pattern_text(StampFormat::Date))
        &&& self.date.label@ == "Date"@
        &&& self.start_time.value@ == Seq::<char>::empty()
        &&& self.start_time.label@ == "Start (HH:MM)"@
        &&& self.end_time.value@ == Seq::<char>::empty()
        &&& self.end_time.label@ == "End (HH:MM)"@
        &&& self.billable
        &&& self.focused_field == 0
        &&& self.wf()
    }

    /// A blank form for a new entry on the day of stamp `today`: the date
    /// field holds that day (`%Y-%m-%d`), the entry is billable, and focus is
    /// on the project field.
    pub fn new(today: i64) -> (f: EntryFormState)
        ensures
            f.is_blank(today),
    {
        let day = format_stamp(today, StampFormat::Date);
        proof {
            lemma_utf8_len_bound(day@);
        }
        EntryFormState {
            editing_id: None,
            project_name: TextInput::new("Project"),
            description: TextInput::new("Description"),
            date: TextInput::with_value("Date", day.as_str()),
            start_time: TextInput::new("Start (HH:MM)"),
            end_time: TextInput::new("End (HH:MM)"),
            billable: true,
            focused_field: 0,
        }
    }

    /// Number of focusable fields.
    pub fn field_count(&self) -> (n: usize)
        ensures
            n == form_field_count(),
    {
        6
    }
}

/// The whole state of the terminal interface.
///
/// Moments are stamps (see `models`); `status_message` holds the text shown
/// in the status bar and the reading, in milliseconds, of the monotonic clock
/// when it was set.
pub struct App {
    pub running: bool,
    pub screen: Screen,
    pub prev_screen: Screen,
    pub input_mode: InputMode,
    pub modal: Modal,
    /// Whether new timers are billable (from the configuration).
    pub default_billable: bool,
    // Active timer
    pub active_entry: Option<TimeEntry>,
    pub active_project_name: Option<String>,
    pub timer_seconds: u64,
    // Dashboard
    pub today_entries: Vec<TimeEntry>,
    pub today_total_secs: i64,
    /// Day label and seconds tracked, Monday first.
    pub week_daily_totals: Vec<(String, i64)>,
    // Entries screen
    pub entries: Vec<TimeEntry>,
    pub entries_selected: usize,
    pub entries_scroll: usize,
    /// Project names by project id; no id occurs twice.
    pub entry_project_names: Vec<(i64, String)>,
    // Projects screen
    pub projects: Vec<Project>,
    pub projects_selected: usize,
    pub show_archived_projects: bool,
    // Clients screen
    pub clients: Vec<Client>,
    pub clients_selected: usize,
    // Reports screen
    pub report_period: ReportPeriod,
    pub report_project_breakdown: Vec<ProjectBreakdown>,
    pub report_daily_summaries: Vec<DailySummary>,
    pub report_total_secs: i64,
    pub report_billable_secs: i64,
    // Project picker
    pub picker_projects: Vec<Project>,
    pub picker_filter: TextInput,
    pub picker_selected: usize,
    // Entry form
    pub entry_form: EntryFormState,
    // Confirm dialog
    pub confirm_message: String,
    pub confirm_action: Option<Message>,
    // Status message
    pub status_message: Option<(String, u64)>,
    // Tags
    pub tags: Vec<Tag>,
}

/// A selection index that points into its list whenever the list has items.
pub open spec fn selection_ok(selected: usize, len: nat) -> bool {
    len > 0 ==> selected < len
}

/// No project id is named twice.
pub open spec fn names_unique(names: Seq<(i64, String)>) -> bool {
    forall|i: int, j: int| 0 <= i < j < names.len() ==> names[i].0 != names[j].0
}

/// The texts and stamps of an entry are ones the interface can work with:
/// they fit in memory and lie in the stamp range.
pub open spec fn entry_ok(e: TimeEntry) -> bool {
    &&& text_fits(e.description@)
    &&& stamp_ok(e.start_time)
    &&& (e.end_time matches Some(t) ==> stamp_ok(t))
}

/// The fields of `App`, to say which ones a step may change.
#[derive(Debug, Clone, Copy, PartialEq, Eq, Structural)]
pub enum Field {
    Running,
    Screen,
    PrevScreen,
    InputMode,
    Modal,
    DefaultBillable,
    ActiveEntry,
    ActiveProjectName,
    TimerSeconds,
    TodayEntries,
    TodayTotalSecs,
    WeekDailyTotals,
    Entries,
    EntriesSelected,
    EntriesScroll,
    EntryProjectNames,
    Projects,
    ProjectsSelected,
    ShowArchivedProjects,
    Clients,
    ClientsSelected,
    ReportPeriod,
    ReportProjectBreakdown,
    ReportDailySummaries,
    ReportTotalSecs,
    ReportBillableSecs,
    PickerProjects,
    PickerFilter,
    PickerSelected,
    EntryForm,
    ConfirmMessage,
    ConfirmAction,
    StatusMessage,
    Tags,
}

/// `b` agrees with `a` on every field outside `changed`.
pub open spec fn frame(a: App, b: App, changed: Set<Field>) -> bool {
    &&& (!changed.contains(Field::Running) ==> b.running == a.running)
    &&& (!changed.contains(Field::Screen) ==> b.screen == a.screen)
    &&& (!changed.contains(Field::PrevScreen) ==> b.prev_screen == a.prev_screen)
    &&& (!changed.contains(Field::InputMode) ==> b.input_mode == a.input_mode)
    &&& (!changed.contains(Field::Modal) ==> b.modal == a.modal)
    &&& (!changed.contains(Field::DefaultBillable) ==> b.default_billable == a.default_billable)
    &&& (!changed.contains(Field::ActiveEntry) ==> b.active_entry == a.active_entry)
    &&& (!changed.contains(Field::ActiveProjectName) ==> b.active_project_name
        == a.active_project_name)
    &&& (!changed.contains(Field::TimerSeconds) ==> b.timer_seconds == a.timer_seconds)
    &&& (!changed.contains(Field::TodayEntries) ==> b.today_entries == a.today_entries)
    &&& (!changed.contains(Field::TodayTotalSecs) ==> b.today_total_secs == a.today_total_secs)
    &&& (!changed.contains(Field::WeekDailyTotals) ==> b.week_daily_totals
        == a.week_daily_totals)
    &&& (!changed.contains(Field::Entries) ==> b.entries == a.entries)
    &&& (!changed.contains(Field::EntriesSelected) ==> b.entries_selected == a.entries_selected)
    &&& (!changed.contains(Field::EntriesScroll) ==> b.entries_scroll == a.entries_scroll)
    &&& (!changed.contains(Field::EntryProjectNames) ==> b.entry_project_names
        == a.entry_project_names)
    &&& (!changed.contains(Field::Projects) ==> b.projects == a.projects)
    &&& (!changed.contains(Field::ProjectsSelected) ==> b.projects_selected
        == a.projects_selected)
    &&& (!changed.contains(Field::ShowArchivedProjects) ==> b.show_archived_projects
        == a.show_archived_projects)
    &&& (!changed.contains(Field::Clients) ==> b.clients == a.clients)
    &&& (!changed.contains(Field::ClientsSelected) ==> b.clients_selected == a.clients_selected)
    &&& (!changed.contains(Field::ReportPeriod) ==> b.report_period == a.report_period)
    &&& (!changed.contains(Field::ReportProjectBreakdown) ==> b.report_project_breakdown
        == a.report_project_breakdown)
    &&& (!changed.contains(Field::ReportDailySummaries) ==> b.report_daily_summaries
        == a.report_daily_summaries)
    &&& (!changed.contains(Field::ReportTotalSecs) ==> b.report_total_secs
        == a.report_total_secs)
    &&& (!changed.contains(Field::ReportBillableSecs) ==> b.report_billable_secs
        == a.report_billable_secs)
    &&& (!changed.contains(Field::PickerProjects) ==> b.picker_projects == a.picker_projects)
    &&& (!changed.contains(Field::PickerFilter) ==> b.picker_filter == a.picker_filter)
    &&& (!changed.contains(Field::PickerSelected) ==> b.picker_selected == a.picker_selected)
    &&& (!changed.contains(Field::EntryForm) ==> b.entry_form == a.entry_form)
    &&& (!changed.contains(Field::ConfirmMessage) ==> b.confirm_message == a.confirm_message)
    &&& (!changed.contains(Field::ConfirmAction) ==> b.confirm_action == a.confirm_action)
    &&& (!changed.contains(Field::StatusMessage) ==> b.status_message == a.status_message)
    &&& (!changed.contains(Field::Tags) ==> b.tags == a.tags)
}

impl App {
    /// The invariant the interface keeps: selections point into non-empty
    /// lists, text cursors sit on character boundaries, the name book has one
    /// name per project, and the entries it shows are well formed.
    pub open spec fn wf(&self) -> bool {
        &&& selection_ok(self.entries_selected, self.entries@.len())
        &&& selection_ok(self.projects_selected, self.projects@.len())
        &&& selection_ok(self.clients_selected, self.clients@.len())
        &&& selection_ok(self.picker_selected, self.picker_projects@.len())
        &&& self.entry_form.wf()
        &&& self.picker_filter.wf()
        &&& names_unique(self.entry_project_names@)
        &&& (forall|i: int| 0 <= i < self.entry_project_names@.len()
            ==> text_fits(#[trigger] self.entry_project_names@[i].1@))
        &&& (forall|i: int| 0 <= i < self.entries@.len() ==> entry_ok(#[trigger] self.entries@[i]))
        &&& (self.active_entry matches Some(e) ==> stamp_ok(e.start_time))
    }

    /// A fresh interface on the dashboard, with nothing loaded yet and a blank
    /// entry form dated `today`.
    pub fn new(default_billable: bool, today: i64) -> (app: App)
        ensures
            app.wf(),
            app.running,
            app.screen == Screen::Dashboard,
            app.prev_screen == Screen::Dashboard,
            app.input_mode == InputMode::Normal,
            app.modal == Modal::Closed,
            app.default_billable == default_billable,
            app.active_entry is None,
            app.active_project_name is None,
            app.timer_seconds == 0,
            app.today_entries@.len() == 0,
            app.today_total_secs == 0,
            app.week_daily_totals@.len() == 0,
            app.entries@.len() == 0,
            app.entries_selected == 0,
            app.entries_scroll == 0,
            app.entry_project_names@.len() == 0,
            app.projects@.len() == 0,
            app.projects_selected == 0,
            !app.show_archived_projects,
            app.clients@.len() == 0,
            app.clients_selected == 0,
            app.report_period == ReportPeriod::Weekly,
            app.report_project_breakdown@.len() == 0,
            app.report_daily_summaries@.len() == 0,
            app.report_total_secs == 0,
            app.report_billable_secs == 0,
            app.picker_projects@.len() == 0,
            app.picker_filter.value@ == Seq::<char>::empty(),
            app.picker_filter.label@ == "Search projects"@,
            app.picker_selected == 0,
            app.entry_form.is_blank(today),
            app.confirm_message@ == Seq::<char>::empty(),
            app.confirm_action is None,
            app.status_message is None,
            app.tags@.len() == 0,
    {
        App {
            running: true,
            screen: Screen::Dashboard,
            prev_screen: Screen::Dashboard,
            input_mode: InputMode::Normal,
            modal: Modal::Closed,
            default_billable,
            active_entry: None,
            active_project_name: None,
            timer_seconds: 0,
            today_entries: Vec::new(),
            today_total_secs: 0,
            week_daily_totals: Vec::new(),
            entries: Vec::new(),
            entries_selected: 0,
            entries_scroll: 0,
            entry_project_names: Vec::new(),
            projects: Vec::new(),
            projects_selected: 0,
            show_archived_projects: false,
            clients: Vec::new(),
            clients_selected: 0,
            report_period: ReportPeriod::Weekly,
            report_project_breakdown: Vec::new(),
            report_daily_summaries: Vec::new(),
            report_total_secs: 0,
            report_billable_secs: 0,
            picker_projects: Vec::new(),
            picker_filter: TextInput::new("Search projects"),
            picker_selected: 0,
            entry_form: EntryFormState::new(today),
            confirm_message: String::new(),
            confirm_action: None,
            status_message: None,
            tags: Vec::new(),
        }
    }

    /// Shows `msg` in the status bar from the monotonic reading `at_ms`.
    pub fn set_status(&mut self, msg: &str, at_ms: u64)
        ensures
            final(self).status_message matches Some(m) && m.0@ == msg@ && m.1 == at_ms,
            frame(*old(self), *final(self), set![Field::StatusMessage]),
    {
        self.status_message = Some((msg.to_owned(), at_ms));
    }
}

} // verus!
