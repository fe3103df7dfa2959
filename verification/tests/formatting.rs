use saga::cli::format_duration as cli_duration;
use saga::screens::{clock, format_duration, format_duration_short};
use saga::state::{EntryFormState, ReportPeriod, Screen, TextInput};

#[test]
fn dashboard_duration_with_hours() {
    assert_eq!(format_duration_short(7500), "2h05m");
    assert_eq!(format_duration_short(3600), "1h00m");
}

#[test]
fn dashboard_duration_minutes_only() {
    assert_eq!(format_duration_short(2700), "45m");
    assert_eq!(format_duration_short(59), "0m");
    assert_eq!(format_duration_short(0), "0m");
}

#[test]
fn dashboard_duration_negative_truncates_toward_zero() {
    // -90 / 3600 == 0 and (-90 % 3600) / 60 == -1 in Rust.
    assert_eq!(format_duration_short(-90), "-1m");
}

#[test]
fn entries_duration() {
    assert_eq!(format_duration(7500), "2:05");
    assert_eq!(format_duration(0), "0:00");
    assert_eq!(format_duration(36000 + 59 * 60), "10:59");
}

#[test]
fn timer_clock() {
    assert_eq!(clock(3723), "01:02:03");
    assert_eq!(clock(0), "00:00:00");
    assert_eq!(clock(100 * 3600 + 5), "100:00:05");
}

#[test]
fn command_line_duration() {
    assert_eq!(cli_duration(-5), "0s");
    assert_eq!(cli_duration(0), "0s");
    assert_eq!(cli_duration(9), "9s");
    assert_eq!(cli_duration(75), "1m 15s");
    assert_eq!(cli_duration(8103), "2h 15m 03s");
    assert_eq!(cli_duration(3600), "1h 00m 00s");
}

#[test]
fn screen_positions_round_trip() {
    let screens = [
        Screen::Dashboard,
        Screen::Timer,
        Screen::Entries,
        Screen::Projects,
        Screen::Clients,
        Screen::Reports,
        Screen::Settings,
    ];
    for (i, s) in screens.iter().enumerate() {
        assert_eq!(s.index(), i);
        assert_eq!(Screen::from_index(i), *s);
    }
    assert_eq!(Screen::from_index(7), Screen::Dashboard);
    assert_eq!(Screen::from_index(100), Screen::Dashboard);
}

#[test]
fn screen_labels() {
    assert_eq!(Screen::Dashboard.label(), "Dashboard");
    assert_eq!(Screen::Timer.label(), "Timer");
    assert_eq!(Screen::Entries.label(), "Entries");
    assert_eq!(Screen::Projects.label(), "Projects");
    assert_eq!(Screen::Clients.label(), "Clients");
    assert_eq!(Screen::Reports.label(), "Reports");
    assert_eq!(Screen::Settings.label(), "Settings");
}

#[test]
fn report_period_labels() {
    assert_eq!(ReportPeriod::Daily.label(), "Daily");
    assert_eq!(ReportPeriod::Weekly.label(), "Weekly");
    assert_eq!(ReportPeriod::Monthly.label(), "Monthly");
}

#[test]
fn text_input_typing_and_editing() {
    let mut t = TextInput::new("Project");
    assert_eq!(t.value, "");
    assert_eq!(t.cursor, 0);
    assert_eq!(t.label, "Project");
    t.insert('a');
    t.insert('é');
    t.insert('b');
    assert_eq!(t.value, "aéb");
    assert_eq!(t.cursor, 4);
    t.move_left();
    assert_eq!(t.cursor, 3);
    t.move_left();
    assert_eq!(t.cursor, 1);
    t.insert('x');
    assert_eq!(t.value, "axéb");
    assert_eq!(t.cursor, 2);
    t.move_right();
    assert_eq!(t.cursor, 4);
    t.delete_back();
    assert_eq!(t.value, "axb");
    assert_eq!(t.cursor, 2);
    t.clear();
    assert_eq!(t.value, "");
    assert_eq!(t.cursor, 0);
    assert_eq!(t.label, "Project");
}

#[test]
fn text_input_edges() {
    let mut t = TextInput::with_value("Date", "2024-03-05");
    assert_eq!(t.cursor, 10);
    t.move_right();
    assert_eq!(t.cursor, 10);
    t.delete_back();
    assert_eq!(t.value, "2024-03-0");
    let mut e = TextInput::new("x");
    e.delete_back();
    e.move_left();
    assert_eq!(e.value, "");
    assert_eq!(e.cursor, 0);
}

#[test]
fn text_input_insert_then_delete_restores() {
    let mut t = TextInput::with_value("Name", "héllo");
    t.move_left();
    t.move_left();
    let before = (t.value.clone(), t.cursor);
    t.insert('ß');
    t.delete_back();
    assert_eq!((t.value.clone(), t.cursor), before);
}

#[test]
fn blank_entry_form() {
    let f = EntryFormState::new(1709631000);
    assert_eq!(f.field_count(), 6);
    assert_eq!(f.date.value, "2024-03-05");
    assert_eq!(f.date.label, "Date");
    assert_eq!(f.project_name.label, "Project");
    assert_eq!(f.start_time.label, "Start (HH:MM)");
    assert_eq!(f.end_time.label, "End (HH:MM)");
    assert!(f.billable);
    assert_eq!(f.focused_field, 0);
    assert!(f.editing_id.is_none());
}

#[test]
fn insert_then_backspace_at_the_start_restores() {
    let mut t = TextInput::with_value("Name", "héllo");
    t.move_left();
    t.move_left();
    t.move_left();
    t.move_left();
    t.move_left();
    assert_eq!(t.cursor, 0);
    t.insert('ß');
    assert_eq!(t.value, "ßhéllo");
    assert_eq!(t.cursor, 2);
    t.delete_back();
    assert_eq!(t.value, "héllo");
    assert_eq!(t.cursor, 0);
}
