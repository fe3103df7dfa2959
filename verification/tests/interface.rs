use saga::keys::{handle_key, KeyCode, KeyEvent};
use saga::message::Message;
use saga::models::{NewTimeEntry, Project, ProjectBreakdown, ProjectStatus, TimeEntry};
use saga::replies::{apply, reply_ready, Reply};
use saga::state::{App, InputMode, Modal, ReportPeriod, Screen};
use saga::update::{step, Command, Now, Request};

const TODAY_0930: i64 = 1709631000; // 2024-03-05 09:30:00, a Tuesday
const MIDNIGHT: i64 = 1709596800; // 2024-03-05 00:00:00
const MONDAY: i64 = 1709510400; // 2024-03-04 00:00:00

fn now_at(ms: u64) -> Now {
    Now { local: TODAY_0930, mono_ms: ms }
}

fn key(code: KeyCode) -> KeyEvent {
    KeyEvent { code, ctrl: false }
}

fn entry(id: i64, project_id: i64, start: i64, end: Option<i64>, dur: Option<i64>) -> TimeEntry {
    TimeEntry {
        id,
        uuid: format!("u{}", id),
        project_id,
        description: format!("work {}", id),
        start_time: start,
        end_time: end,
        duration_secs: dur,
        billable: true,
        created_at: start,
        updated_at: start,
    }
}

fn project(id: i64, name: &str) -> Project {
    Project {
        id,
        name: name.to_string(),
        client_id: None,
        color: "#5B9BD5".to_string(),
        status: ProjectStatus::Active,
        budget_hours_bits: None,
        notes: None,
        created_at: 0,
        updated_at: 0,
    }
}

fn requests(c: &Command) -> &Vec<Request> {
    match c {
        Command::Perform(v) => v,
        other => panic!("expected requests, got {:?}", other),
    }
}

fn run(app: &mut App, msg: Message, now: Now) -> Command {
    step(app, msg, now)
}

fn feed(app: &mut App, reply: Reply, now: Now) -> Command {
    assert!(reply_ready(app, &reply, now));
    apply(app, reply, now)
}

#[test]
fn global_keys() {
    let app = App::new(true, TODAY_0930);
    assert!(matches!(handle_key(&app, key(KeyCode::Char('q'))), Some(Message::Quit)));
    assert!(matches!(handle_key(&app, key(KeyCode::Char('?'))), Some(Message::OpenHelp)));
    assert!(matches!(handle_key(&app, key(KeyCode::Char('s'))), Some(Message::ToggleTimer)));
    assert!(matches!(
        handle_key(&app, key(KeyCode::Char('3'))),
        Some(Message::NavigateScreen(Screen::Entries))
    ));
    assert!(matches!(handle_key(&app, key(KeyCode::Tab)), Some(Message::NextTab)));
    assert!(matches!(handle_key(&app, key(KeyCode::BackTab)), Some(Message::PrevTab)));
    assert!(matches!(
        handle_key(&app, KeyEvent { code: KeyCode::Char('p'), ctrl: true }),
        Some(Message::OpenProjectPicker)
    ));
}

#[test]
fn form_keys_type_text() {
    let mut app = App::new(true, TODAY_0930);
    run(&mut app, Message::NewEntry, now_at(0));
    assert_eq!(app.modal, Modal::EntryForm);
    assert!(matches!(handle_key(&app, key(KeyCode::Char('q'))), Some(Message::InputChar('q'))));
    assert!(matches!(handle_key(&app, key(KeyCode::Esc)), Some(Message::CancelForm)));
    assert!(matches!(handle_key(&app, key(KeyCode::Tab)), Some(Message::NextField)));
}

#[test]
fn next_tab_then_prev_tab() {
    let mut app = App::new(true, TODAY_0930);
    let c = run(&mut app, Message::NextTab, now_at(0));
    let m = match c {
        Command::Dispatch(m) => m,
        other => panic!("{:?}", other),
    };
    assert!(matches!(m, Message::NavigateScreen(Screen::Timer)));
    run(&mut app, m, now_at(0));
    assert_eq!(app.screen, Screen::Timer);
    assert_eq!(app.prev_screen, Screen::Dashboard);
    let c = run(&mut app, Message::PrevTab, now_at(0));
    assert!(matches!(c, Command::Dispatch(Message::NavigateScreen(Screen::Dashboard))));
}

#[test]
fn prev_tab_wraps_to_settings() {
    let mut app = App::new(true, TODAY_0930);
    let c = run(&mut app, Message::PrevTab, now_at(0));
    assert!(matches!(c, Command::Dispatch(Message::NavigateScreen(Screen::Settings))));
}

#[test]
fn dashboard_loads_timer_today_and_week() {
    let mut app = App::new(true, TODAY_0930);
    let c = run(&mut app, Message::NavigateScreen(Screen::Dashboard), now_at(0));
    let rs = requests(&c);
    assert_eq!(rs.len(), 3);
    assert!(matches!(rs[0], Request::LoadActiveTimer));
    assert!(matches!(rs[1], Request::LoadToday));
    assert!(matches!(rs[2], Request::LoadWeek(MONDAY)));
}

#[test]
fn report_periods_load_their_range() {
    let mut app = App::new(true, TODAY_0930);
    assert_eq!(app.report_period, ReportPeriod::Weekly);
    let c = run(&mut app, Message::NextReportPeriod, now_at(0));
    assert_eq!(app.report_period, ReportPeriod::Monthly);
    // March 2024: the 1st to the 31st.
    assert!(matches!(requests(&c)[0], Request::LoadReport(1709251200, 1711843200)));
    let c = run(&mut app, Message::NextReportPeriod, now_at(0));
    assert_eq!(app.report_period, ReportPeriod::Daily);
    assert!(matches!(requests(&c)[0], Request::LoadReport(MIDNIGHT, MIDNIGHT)));
    let c = run(&mut app, Message::PrevReportPeriod, now_at(0));
    assert_eq!(app.report_period, ReportPeriod::Monthly);
    let c2 = run(&mut app, Message::PrevReportPeriod, now_at(0));
    assert_eq!(app.report_period, ReportPeriod::Weekly);
    assert!(matches!(requests(&c)[0], Request::LoadReport(1709251200, 1711843200)));
    assert!(matches!(requests(&c2)[0], Request::LoadReport(MONDAY, 1710028800)));
}

#[test]
fn start_timer_stores_an_open_entry() {
    let mut app = App::new(false, TODAY_0930);
    let c = run(&mut app, Message::StartTimer(7), now_at(0));
    match &requests(&c)[0] {
        Request::StartEntry(NewTimeEntry { project_id, description, start_time, end_time, billable, tags }) => {
            assert_eq!(*project_id, 7);
            assert_eq!(description, "");
            assert_eq!(*start_time, TODAY_0930);
            assert!(end_time.is_none());
            assert!(!*billable);
            assert!(tags.is_empty());
        },
        other => panic!("{:?}", other),
    }
}

#[test]
fn start_timer_refused_while_running() {
    let mut app = App::new(true, TODAY_0930);
    let c = feed(&mut app, Reply::ActiveTimer(Ok(Some((entry(1, 2, TODAY_0930 - 60, None, None), Some("Alpha".to_string()))))), now_at(0));
    assert!(matches!(c, Command::Done));
    assert_eq!(app.timer_seconds, 60);
    assert_eq!(app.active_project_name.as_deref(), Some("Alpha"));
    let c = run(&mut app, Message::StartTimer(3), now_at(500));
    assert!(matches!(c, Command::Done));
    let (text, at) = app.status_message.clone().unwrap();
    assert_eq!(text, "Timer already running. Stop it first.");
    assert_eq!(at, 500);
    assert_eq!(app.active_entry.as_ref().unwrap().id, 1);
}

#[test]
fn toggle_timer_picks_stop_or_picker() {
    let mut app = App::new(true, TODAY_0930);
    assert!(matches!(run(&mut app, Message::ToggleTimer, now_at(0)), Command::Dispatch(Message::OpenProjectPicker)));
    feed(&mut app, Reply::ActiveTimer(Ok(Some((entry(1, 2, TODAY_0930, None, None), None)))), now_at(0));
    assert!(matches!(run(&mut app, Message::ToggleTimer, now_at(0)), Command::Dispatch(Message::StopTimer)));
}

#[test]
fn stop_timer_outcomes() {
    let mut app = App::new(true, TODAY_0930);
    feed(&mut app, Reply::ActiveTimer(Ok(Some((entry(1, 2, TODAY_0930 - 10, None, None), None)))), now_at(0));
    let c = run(&mut app, Message::StopTimer, now_at(0));
    assert!(matches!(requests(&c)[0], Request::StopActive));
    let c = feed(&mut app, Reply::Stopped(Ok(true)), now_at(1000));
    assert!(app.active_entry.is_none());
    assert_eq!(app.timer_seconds, 0);
    assert_eq!(app.status_message.clone().unwrap().0, "Timer stopped.");
    assert!(matches!(requests(&c)[0], Request::LoadToday));
    feed(&mut app, Reply::Stopped(Ok(false)), now_at(1000));
    assert_eq!(app.status_message.clone().unwrap().0, "No timer running.");
    feed(&mut app, Reply::Stopped(Err("disk full".to_string())), now_at(1000));
    assert_eq!(app.status_message.clone().unwrap().0, "Error: disk full");
}

#[test]
fn cancel_timer_outcomes() {
    let mut app = App::new(true, TODAY_0930);
    feed(&mut app, Reply::ActiveTimer(Ok(Some((entry(1, 2, TODAY_0930, None, None), None)))), now_at(0));
    let c = feed(&mut app, Reply::Cancelled(Ok(true)), now_at(0));
    assert!(matches!(c, Command::Done));
    assert!(app.active_entry.is_none());
    assert_eq!(app.status_message.clone().unwrap().0, "Timer cancelled.");
}

#[test]
fn tick_counts_and_status_expires() {
    let mut app = App::new(true, TODAY_0930);
    feed(&mut app, Reply::ActiveTimer(Ok(Some((entry(1, 2, TODAY_0930 - 125, None, None), None)))), now_at(0));
    run(&mut app, Message::SetStatus("hello".to_string()), now_at(1000));
    run(&mut app, Message::Tick, now_at(6999));
    assert_eq!(app.timer_seconds, 125);
    assert_eq!(app.status_message.clone().unwrap().0, "hello");
    run(&mut app, Message::Tick, now_at(7000));
    assert!(app.status_message.is_none());
}

#[test]
fn today_total_counts_running_entries() {
    let mut app = App::new(true, TODAY_0930);
    let v = vec![
        entry(1, 2, MIDNIGHT, Some(MIDNIGHT + 600), Some(600)),
        entry(2, 2, TODAY_0930 - 300, None, None),
    ];
    feed(&mut app, Reply::Today(Ok(v)), now_at(0));
    assert_eq!(app.today_total_secs, 900);
    assert_eq!(app.today_entries.len(), 2);
}

#[test]
fn entries_reply_asks_for_each_project_once() {
    let mut app = App::new(true, TODAY_0930);
    let v = vec![
        entry(1, 5, MIDNIGHT, Some(MIDNIGHT + 60), Some(60)),
        entry(2, 3, MIDNIGHT, Some(MIDNIGHT + 60), Some(60)),
        entry(3, 5, MIDNIGHT, Some(MIDNIGHT + 60), Some(60)),
    ];
    let c = feed(&mut app, Reply::Entries(Ok(v)), now_at(0));
    match &requests(&c)[0] {
        Request::LookupNames(ids) => assert_eq!(ids, &vec![5, 3]),
        other => panic!("{:?}", other),
    }
    feed(
        &mut app,
        Reply::Names(vec![(5, Some("Alpha".to_string())), (3, None), (5, Some("Other".to_string()))]),
        now_at(0),
    );
    assert_eq!(app.entry_project_names, vec![(5, "Alpha".to_string())]);
}

#[test]
fn selections_clamp_when_lists_shrink() {
    let mut app = App::new(true, TODAY_0930);
    feed(&mut app, Reply::Projects(Ok(vec![project(1, "a"), project(2, "b"), project(3, "c")])), now_at(0));
    run(&mut app, Message::SelectNextProject, now_at(0));
    run(&mut app, Message::SelectNextProject, now_at(0));
    run(&mut app, Message::SelectNextProject, now_at(0));
    assert_eq!(app.projects_selected, 2);
    feed(&mut app, Reply::Projects(Ok(vec![project(1, "a")])), now_at(0));
    assert_eq!(app.projects_selected, 0);
    run(&mut app, Message::SelectPrevProject, now_at(0));
    assert_eq!(app.projects_selected, 0);
}

#[test]
fn archive_toggles_by_status() {
    let mut app = App::new(true, TODAY_0930);
    let mut archived = project(9, "old");
    archived.status = ProjectStatus::Archived;
    feed(&mut app, Reply::Projects(Ok(vec![project(4, "new"), archived])), now_at(0));
    let c = run(&mut app, Message::ArchiveSelectedProject, now_at(0));
    assert!(matches!(requests(&c)[0], Request::ArchiveProject(4)));
    run(&mut app, Message::SelectNextProject, now_at(0));
    let c = run(&mut app, Message::ArchiveSelectedProject, now_at(0));
    assert!(matches!(requests(&c)[0], Request::ActivateProject(9)));
    let c = feed(&mut app, Reply::ProjectStatusChanged(Ok(())), now_at(0));
    assert_eq!(app.status_message.clone().unwrap().0, "Project status updated.");
    assert!(matches!(requests(&c)[0], Request::LoadProjects(false)));
}

#[test]
fn delete_entry_asks_and_reloads() {
    let mut app = App::new(true, TODAY_0930);
    feed(&mut app, Reply::Entries(Ok(vec![entry(8, 1, TODAY_0930, None, None)])), now_at(0));
    let c = run(&mut app, Message::DeleteSelectedEntry, now_at(0));
    assert_eq!(app.confirm_message, "Delete entry from 2024-03-05 09:30?");
    assert!(matches!(app.confirm_action, Some(Message::Refresh)));
    assert!(matches!(requests(&c)[0], Request::DeleteEntry(8)));
    let c = feed(&mut app, Reply::EntryDeleted(Ok(())), now_at(0));
    assert_eq!(app.status_message.clone().unwrap().0, "Entry deleted.");
    assert!(matches!(requests(&c)[0], Request::LoadEntries));
    assert!(matches!(requests(&c)[1], Request::LoadToday));
}

#[test]
fn submit_requires_project_and_start() {
    let mut app = App::new(true, TODAY_0930);
    run(&mut app, Message::NewEntry, now_at(0));
    let c = run(&mut app, Message::SubmitEntryForm, now_at(0));
    assert!(matches!(c, Command::Done));
    assert_eq!(app.status_message.clone().unwrap().0, "Project and start time are required.");
}

fn type_text(app: &mut App, text: &str) {
    for ch in text.chars() {
        run(app, Message::InputChar(ch), now_at(0));
    }
}

#[test]
fn submit_new_entry_flow() {
    let mut app = App::new(true, TODAY_0930);
    run(&mut app, Message::NewEntry, now_at(0));
    type_text(&mut app, "Alpha");
    run(&mut app, Message::NextField, now_at(0));
    type_text(&mut app, "notes");
    run(&mut app, Message::NextField, now_at(0));
    run(&mut app, Message::NextField, now_at(0));
    type_text(&mut app, "09:30");
    run(&mut app, Message::NextField, now_at(0));
    type_text(&mut app, "10:00");
    assert_eq!(app.entry_form.project_name.value, "Alpha");
    assert_eq!(app.entry_form.start_time.value, "09:30");
    let c = run(&mut app, Message::SubmitEntryForm, now_at(0));
    match &requests(&c)[0] {
        Request::FindProject(n) => assert_eq!(n, "Alpha"),
        other => panic!("{:?}", other),
    }
    let c = feed(&mut app, Reply::ProjectFound(Ok(None)), now_at(0));
    match &requests(&c)[0] {
        Request::CreateProject(n) => assert_eq!(n, "Alpha"),
        other => panic!("{:?}", other),
    }
    let c = feed(&mut app, Reply::ProjectCreated(Ok(12)), now_at(0));
    let saved = match &requests(&c)[0] {
        Request::SaveEntry(e, false) => e.clone(),
        other => panic!("{:?}", other),
    };
    assert_eq!(saved.project_id, 12);
    assert_eq!(saved.description, "notes");
    assert_eq!(saved.start_time, TODAY_0930);
    assert_eq!(saved.end_time, Some(TODAY_0930 + 1800));
    assert!(saved.billable);
    let c = feed(&mut app, Reply::EntrySaved(Ok(()), false), now_at(0));
    assert_eq!(app.status_message.clone().unwrap().0, "Entry created.");
    assert_eq!(app.modal, Modal::Closed);
    assert_eq!(app.input_mode, InputMode::Normal);
    assert!(matches!(requests(&c)[0], Request::LoadEntries));
}

#[test]
fn submit_with_bad_times() {
    let mut app = App::new(true, TODAY_0930);
    run(&mut app, Message::NewEntry, now_at(0));
    type_text(&mut app, "Alpha");
    for _ in 0..3 {
        run(&mut app, Message::NextField, now_at(0));
    }
    type_text(&mut app, "9h30");
    feed(&mut app, Reply::ProjectFound(Ok(Some(1))), now_at(0));
    assert_eq!(app.status_message.clone().unwrap().0, "Invalid start time format.");
    assert_eq!(app.modal, Modal::EntryForm);
    run(&mut app, Message::InputBackspace, now_at(0));
    run(&mut app, Message::InputBackspace, now_at(0));
    run(&mut app, Message::InputBackspace, now_at(0));
    run(&mut app, Message::InputBackspace, now_at(0));
    type_text(&mut app, "09:30");
    run(&mut app, Message::NextField, now_at(0));
    type_text(&mut app, "25:00");
    feed(&mut app, Reply::ProjectFound(Ok(Some(1))), now_at(0));
    assert_eq!(app.status_message.clone().unwrap().0, "Invalid end time format.");
}

#[test]
fn edit_selected_entry_fills_form_and_replaces() {
    let mut app = App::new(true, TODAY_0930);
    feed(&mut app, Reply::Entries(Ok(vec![entry(4, 6, TODAY_0930, Some(TODAY_0930 + 3600), Some(3600))])), now_at(0));
    feed(&mut app, Reply::Names(vec![(6, Some("Beta".to_string()))]), now_at(0));
    run(&mut app, Message::EditSelectedEntry, now_at(0));
    assert_eq!(app.modal, Modal::EntryForm);
    assert_eq!(app.input_mode, InputMode::Editing);
    assert_eq!(app.entry_form.editing_id, Some(4));
    assert_eq!(app.entry_form.project_name.value, "Beta");
    assert_eq!(app.entry_form.description.value, "work 4");
    assert_eq!(app.entry_form.date.value, "2024-03-05");
    assert_eq!(app.entry_form.start_time.value, "09:30");
    assert_eq!(app.entry_form.end_time.value, "10:30");
    let c = feed(&mut app, Reply::ProjectFound(Ok(Some(6))), now_at(0));
    let e = match &requests(&c)[0] {
        Request::RemoveEditedEntry(4, e) => e.clone(),
        other => panic!("{:?}", other),
    };
    assert_eq!(e.start_time, TODAY_0930);
    assert_eq!(e.end_time, Some(TODAY_0930 + 3600));
    let c = feed(&mut app, Reply::EditedEntryRemoved(Ok(()), e), now_at(0));
    assert!(matches!(requests(&c)[0], Request::SaveEntry(_, true)));
    feed(&mut app, Reply::EntrySaved(Ok(()), true), now_at(0));
    assert_eq!(app.status_message.clone().unwrap().0, "Entry updated.");
}

#[test]
fn create_project_failure_is_reported() {
    let mut app = App::new(true, TODAY_0930);
    feed(&mut app, Reply::ProjectCreated(Err("locked".to_string())), now_at(0));
    assert_eq!(app.status_message.clone().unwrap().0, "Error creating project: locked");
}

#[test]
fn picker_filters_case_insensitively() {
    let mut app = App::new(true, TODAY_0930);
    let c = run(&mut app, Message::OpenProjectPicker, now_at(0));
    assert!(matches!(requests(&c)[0], Request::LoadPicker));
    assert_eq!(app.modal, Modal::ProjectPicker);
    let c = run(&mut app, Message::InputChar('A'), now_at(0));
    assert!(matches!(requests(&c)[0], Request::FilterPicker));
    run(&mut app, Message::InputChar('L'), now_at(0));
    let all = vec![project(1, "Alpha"), project(2, "Beta"), project(3, "Palace")];
    feed(&mut app, Reply::PickerCandidates(Ok(all)), now_at(0));
    let names: Vec<&str> = app.picker_projects.iter().map(|p| p.name.as_str()).collect();
    assert_eq!(names, vec!["Alpha", "Palace"]);
    run(&mut app, Message::SelectNextPickerItem, now_at(0));
    let c = run(&mut app, Message::ConfirmPicker, now_at(0));
    assert!(matches!(c, Command::Dispatch(Message::StartTimer(3))));
    assert_eq!(app.modal, Modal::Closed);
}

#[test]
fn week_chart_rows() {
    let mut app = App::new(true, TODAY_0930);
    feed(&mut app, Reply::Week(MONDAY, vec![Some(3600), None, Some(60)]), now_at(0));
    let labels: Vec<&str> = app.week_daily_totals.iter().map(|(l, _)| l.as_str()).collect();
    assert_eq!(labels, vec!["Mon", "Tue", "Wed", "Thu", "Fri", "Sat", "Sun"]);
    let secs: Vec<i64> = app.week_daily_totals.iter().map(|(_, s)| *s).collect();
    assert_eq!(secs, vec![3600, 0, 60, 0, 0, 0, 0]);
}

#[test]
fn confirm_dialog_answers() {
    let mut app = App::new(true, TODAY_0930);
    feed(&mut app, Reply::Entries(Ok(vec![entry(8, 1, TODAY_0930, None, None)])), now_at(0));
    run(&mut app, Message::DeleteSelectedEntry, now_at(0));
    let c = run(&mut app, Message::ConfirmYes, now_at(0));
    assert!(matches!(c, Command::Dispatch(Message::Refresh)));
    assert!(app.confirm_action.is_none());
    let c = run(&mut app, Message::ConfirmYes, now_at(0));
    assert!(matches!(c, Command::Done));
}

#[test]
fn refresh_reloads_everything() {
    let mut app = App::new(true, TODAY_0930);
    run(&mut app, Message::ToggleArchivedProjects, now_at(0));
    let c = run(&mut app, Message::Refresh, now_at(0));
    let rs = requests(&c);
    assert_eq!(rs.len(), 5);
    assert!(matches!(rs[3], Request::LoadProjects(true)));
}

#[test]
fn toggle_billable_twice_restores() {
    let mut app = App::new(true, TODAY_0930);
    run(&mut app, Message::ToggleBillable, now_at(0));
    assert!(!app.entry_form.billable);
    run(&mut app, Message::ToggleBillable, now_at(0));
    assert!(app.entry_form.billable);
}

#[test]
fn field_focus_cycles() {
    let mut app = App::new(true, TODAY_0930);
    for i in 1..=6 {
        run(&mut app, Message::NextField, now_at(0));
        assert_eq!(app.entry_form.focused_field, i % 6);
    }
    run(&mut app, Message::PrevField, now_at(0));
    assert_eq!(app.entry_form.focused_field, 5);
}

#[test]
fn quit_stops_the_loop() {
    let mut app = App::new(true, TODAY_0930);
    run(&mut app, Message::Quit, now_at(0));
    assert!(!app.running);
}

#[test]
fn report_reply_sums() {
    let mut app = App::new(true, TODAY_0930);
    let b = |id: i64, t: i64, bill: i64| ProjectBreakdown {
        project_id: id,
        project_name: format!("p{}", id),
        project_color: "#fff".to_string(),
        total_seconds: t,
        billable_seconds: bill,
        entry_count: 1,
        amount_bits: None,
    };
    feed(&mut app, Reply::Report(Ok(vec![b(1, 100, 40), b(2, 50, 50)]), Err("x".to_string())), now_at(0));
    assert_eq!(app.report_total_secs, 150);
    assert_eq!(app.report_billable_secs, 90);
    assert_eq!(app.report_project_breakdown.len(), 2);
    let over = Reply::Report(Ok(vec![b(1, i64::MAX, 0), b(2, 1, 0)]), Err("x".to_string()));
    assert!(!reply_ready(&app, &over, now_at(0)));
}

#[test]
fn monthly_report_of_february_in_a_leap_year() {
    let mut app = App::new(true, 1709208000);
    let now = Now { local: 1709208000, mono_ms: 0 }; // 2024-02-29 12:00:00
    run(&mut app, Message::NextReportPeriod, now);
    assert_eq!(app.report_period, ReportPeriod::Monthly);
    let c = run(&mut app, Message::NavigateScreen(Screen::Reports), now);
    assert!(matches!(requests(&c)[0], Request::LoadReport(1706745600, 1709164800)));
}

#[test]
fn typing_in_the_picker_ignores_other_modals() {
    let mut app = App::new(true, TODAY_0930);
    let c = run(&mut app, Message::InputChar('x'), now_at(0));
    assert!(matches!(c, Command::Done));
    assert_eq!(app.entry_form.project_name.value, "");
    assert_eq!(app.picker_filter.value, "");
}

fn breakdown(id: i64, name: &str, total: i64, billable: i64, count: i64) -> ProjectBreakdown {
    ProjectBreakdown {
        project_id: id,
        project_name: name.to_string(),
        project_color: "#5B9BD5".to_string(),
        total_seconds: total,
        billable_seconds: billable,
        entry_count: count,
        amount_bits: None,
    }
}

#[test]
fn export_csv_writes_the_report_on_screen() {
    let mut app = App::new(true, TODAY_0930);
    app.report_project_breakdown = vec![breakdown(1, "Alpha", 5400, 3600, 3), breakdown(2, "Beta", 59, 0, 1)];
    let c = run(&mut app, Message::ExportCsv, now_at(0));
    let rs = requests(&c);
    assert_eq!(rs.len(), 1);
    match &rs[0] {
        Request::SaveReportCsv(name, text) => {
            assert_eq!(name, "saga-report-20240305-093000.csv");
            assert_eq!(
                text,
                "Project,Total Seconds,Total Duration,Entries,Billable Seconds\n\
                 Alpha,5400,1h 30m 00s,3,3600\n\
                 Beta,59,59s,1,0\n"
            );
        }
        other => panic!("expected a CSV report, got {:?}", other),
    }
    assert!(app.status_message.is_none());
}

#[test]
fn export_csv_of_an_empty_report_is_the_header() {
    let mut app = App::new(true, TODAY_0930);
    let c = run(&mut app, Message::ExportCsv, now_at(0));
    match &requests(&c)[0] {
        Request::SaveReportCsv(_, text) => {
            assert_eq!(text, "Project,Total Seconds,Total Duration,Entries,Billable Seconds\n");
        }
        other => panic!("expected a CSV report, got {:?}", other),
    }
}

#[test]
fn export_pdf_names_the_file() {
    let mut app = App::new(true, TODAY_0930);
    let c = run(&mut app, Message::ExportPdf, now_at(0));
    assert!(matches!(&requests(&c)[0], Request::SaveReportPdf(n) if n == "saga-report-20240305-093000.pdf"));
}

#[test]
fn report_saved_reply_sets_status() {
    let mut app = App::new(true, TODAY_0930);
    feed(&mut app, Reply::ReportSaved(Ok("saga-report-x.csv".to_string())), now_at(7));
    assert_eq!(app.status_message, Some(("Report saved to saga-report-x.csv".to_string(), 7)));
    feed(&mut app, Reply::ReportSaved(Err("disk full".to_string())), now_at(8));
    assert_eq!(app.status_message, Some(("Error: disk full".to_string(), 8)));
}
