use saga::cli::{
    config_key, config_value, invoice_bounds, invoice_number, line_description, log_line,
    log_query, log_start, log_total, parse_flag, parse_number, parse_time, plan_add, rate_kind,
    report_csv, report_file_name, report_format, report_totals, report_window, scope_label,
    time_from_readings, trim, ConfigKey, ConfigValue, NumberError, ReportFormat, ReportRow,
};
use saga::models::{ProjectStatus, Rate, RateType};
use saga::rates::{first_rate_scope, rate_step, RateScope, RateStep};
use saga::replies::moment_of;
use saga::store::{entries_query, pending_migrations, stored_duration, SqlValue};

const TODAY_0930: i64 = 1709631000; // 2024-03-05 09:30:00, a Tuesday
const MIDNIGHT: i64 = 1709596800;
const MONDAY: i64 = 1709510400;
const FIRST_OF_MONTH: i64 = 1709251200;

#[test]
fn trim_drops_surrounding_white_space() {
    assert_eq!(trim("  09:30\t\n"), "09:30");
    assert_eq!(trim("\u{3000}a b\u{a0}"), "a b");
    assert_eq!(trim("   "), "");
    assert_eq!(trim(""), "");
}

#[test]
fn parse_time_forms() {
    assert_eq!(parse_time("2024-03-05 09:30", TODAY_0930), Ok(TODAY_0930));
    assert_eq!(parse_time("2024-03-05 09:30:15", TODAY_0930), Ok(TODAY_0930 + 15));
    assert_eq!(parse_time(" 10:00 ", TODAY_0930), Ok(MIDNIGHT + 36000));
    assert_eq!(
        parse_time(" tomorrow ", TODAY_0930),
        Err("Could not parse time 'tomorrow'. Use HH:MM or YYYY-MM-DD HH:MM.".to_string())
    );
}

#[test]
fn add_needs_end_after_start() {
    assert_eq!(plan_add("09:00", "10:30", TODAY_0930), Ok((MIDNIGHT + 32400, MIDNIGHT + 37800, 5400)));
    assert_eq!(
        plan_add("10:00", "10:00", TODAY_0930),
        Err("End time must be after start time.".to_string())
    );
    assert_eq!(
        plan_add("10:00", "x", TODAY_0930),
        Err("Could not parse time 'x'. Use HH:MM or YYYY-MM-DD HH:MM.".to_string())
    );
}

#[test]
fn log_span_starts() {
    assert_eq!(log_start(true, true, true, TODAY_0930), MIDNIGHT);
    assert_eq!(log_start(false, true, true, TODAY_0930), MONDAY);
    assert_eq!(log_start(false, false, true, TODAY_0930), FIRST_OF_MONTH);
    assert_eq!(log_start(false, false, false, TODAY_0930), TODAY_0930 - 7 * 86400);
}

const LOG_BASE: &str = "SELECT te.start_time, te.end_time, te.duration_secs, te.description, p.name AS project_name\n         FROM time_entries te\n         JOIN projects p ON te.project_id = p.id";

#[test]
fn log_query_without_filters() {
    let (sql, params) = log_query(MONDAY, None, None);
    assert_eq!(sql, format!("{} WHERE te.start_time >= ?1 ORDER BY te.start_time DESC LIMIT 50", LOG_BASE));
    assert_eq!(params, vec!["2024-03-04T00:00:00".to_string()]);
}

#[test]
fn log_query_with_project_and_client() {
    let (sql, params) = log_query(MONDAY, Some("Alpha"), Some("Acme"));
    assert_eq!(
        sql,
        format!(
            "{} LEFT JOIN clients c ON p.client_id = c.id WHERE te.start_time >= ?1 AND p.name = ?2 COLLATE NOCASE AND c.name = ?3 COLLATE NOCASE ORDER BY te.start_time DESC LIMIT 50",
            LOG_BASE
        )
    );
    assert_eq!(params, vec!["2024-03-04T00:00:00".to_string(), "Alpha".to_string(), "Acme".to_string()]);
    let (sql, params) = log_query(MONDAY, None, Some("Acme"));
    assert!(sql.contains(" WHERE te.start_time >= ?1 AND c.name = ?2 COLLATE NOCASE ORDER BY"));
    assert_eq!(params.len(), 2);
}

#[test]
fn log_lines() {
    let l = log_line("2024-03-05T09:30:00", Some("2024-03-05T10:45:00"), Some(4500), TODAY_0930);
    assert_eq!(l.date, "2024-03-05");
    assert_eq!(l.start, "09:30");
    assert_eq!(l.end.as_deref(), Some("10:45"));
    assert_eq!(l.duration, "1h 15m 00s");
    let running = log_line("2024-03-05T09:00:00", None, None, TODAY_0930);
    assert!(running.end.is_none());
    assert_eq!(running.duration, "~30m 00s");
    let odd = log_line("garbage", Some("also garbage"), Some(5), TODAY_0930);
    assert_eq!(odd.date, "1970-01-01");
    assert_eq!(odd.start, "00:00");
    assert_eq!(odd.end.as_deref(), Some("??:??"));
}

#[test]
fn log_totals() {
    assert_eq!(log_total(&vec![Some(60), None, Some(40)]), Some(100));
    assert_eq!(log_total(&vec![]), Some(0));
    assert_eq!(log_total(&vec![Some(i64::MAX), Some(1)]), None);
}

#[test]
fn report_windows() {
    assert_eq!(report_window("daily", TODAY_0930), Ok((MIDNIGHT, TODAY_0930)));
    assert_eq!(report_window("weekly", TODAY_0930), Ok((MONDAY, TODAY_0930)));
    assert_eq!(report_window("monthly", TODAY_0930), Ok((FIRST_OF_MONTH, TODAY_0930)));
    assert_eq!(
        report_window("yearly", TODAY_0930),
        Err("Unknown period 'yearly'. Use daily, weekly, or monthly.".to_string())
    );
}

#[test]
fn report_formats() {
    assert_eq!(report_format("table"), Ok(ReportFormat::Table));
    assert_eq!(report_format("csv"), Ok(ReportFormat::Csv));
    assert_eq!(report_format("pdf"), Ok(ReportFormat::Pdf));
    assert_eq!(report_format("xml"), Err("Unknown format 'xml'. Use table, csv, or pdf.".to_string()));
}

fn row(name: &str, t: i64, c: i64, b: i64) -> ReportRow {
    ReportRow { project: name.to_string(), total_secs: t, count: c, billable_secs: b }
}

#[test]
fn report_as_csv() {
    let rows = vec![row("Alpha", 8103, 3, 3600), row("Beta", 75, 1, 0)];
    assert_eq!(
        report_csv(&rows),
        "Project,Total Seconds,Total Duration,Entries,Billable Seconds\nAlpha,8103,2h 15m 03s,3,3600\nBeta,75,1m 15s,1,0\n"
    );
    assert_eq!(report_csv(&vec![]), "Project,Total Seconds,Total Duration,Entries,Billable Seconds\n");
}

#[test]
fn report_grand_totals() {
    let rows = vec![row("Alpha", 8103, 3, 3600), row("Beta", 75, 1, 0)];
    assert_eq!(report_totals(&rows), Some((8178, 3600)));
    assert_eq!(report_totals(&vec![row("a", i64::MAX, 1, 0), row("b", 1, 1, 0)]), None);
}

#[test]
fn invoice_numbers() {
    assert_eq!(invoice_number(0), Some("INV-0001".to_string()));
    assert_eq!(invoice_number(41), Some("INV-0042".to_string()));
    assert_eq!(invoice_number(12344), Some("INV-12345".to_string()));
    assert_eq!(invoice_number(i64::MAX), None);
}

#[test]
fn invoice_period_and_lines() {
    assert_eq!(
        invoice_bounds("2024-03-01", "2024-03-31"),
        ("2024-03-01T00:00:00".to_string(), "2024-03-31T23:59:59".to_string())
    );
    assert_eq!(line_description("Alpha", ""), "Alpha");
    assert_eq!(line_description("Alpha", "design"), "Alpha: design");
}

#[test]
fn numbers_read_like_std() {
    assert_eq!(parse_number("250"), Ok(250));
    assert_eq!(parse_number("+7"), Ok(7));
    assert_eq!(parse_number("007"), Ok(7));
    assert_eq!(parse_number(""), Err(NumberError::Empty));
    assert_eq!(parse_number("+"), Err(NumberError::InvalidDigit));
    assert_eq!(parse_number("-1"), Err(NumberError::InvalidDigit));
    assert_eq!(parse_number("12a"), Err(NumberError::InvalidDigit));
    assert_eq!(parse_number("18446744073709551615"), Ok(u64::MAX));
    assert_eq!(parse_number("18446744073709551616"), Err(NumberError::TooLarge));
    for s in ["250", "+7", "", "+", "-1", "12a", "18446744073709551616", " 1"] {
        assert_eq!(parse_number(s).ok(), s.parse::<u64>().ok(), "{:?}", s);
    }
    assert_eq!(NumberError::InvalidDigit.describe(), "12a".parse::<u64>().unwrap_err().to_string());
    assert_eq!(NumberError::Empty.describe(), "".parse::<u64>().unwrap_err().to_string());
    assert_eq!(NumberError::TooLarge.describe(), "99999999999999999999".parse::<u64>().unwrap_err().to_string());
}

#[test]
fn flags_read_like_std() {
    assert_eq!(parse_flag("true"), Some(true));
    assert_eq!(parse_flag("false"), Some(false));
    assert_eq!(parse_flag("True"), None);
    assert_eq!(parse_flag("yes"), None);
}

#[test]
fn config_keys_and_values() {
    assert_eq!(config_key("tick_rate_ms"), Ok(ConfigKey::TickRateMs));
    assert_eq!(config_key("theme"), Ok(ConfigKey::Theme));
    assert_eq!(config_key("colour"), Err("Unknown config key: 'colour'".to_string()));
    assert!(matches!(config_value(ConfigKey::TickRateMs, "500"), Ok(ConfigValue::Count(500))));
    assert!(matches!(config_value(ConfigKey::DefaultBillable, "false"), Ok(ConfigValue::Flag(false))));
    match config_value(ConfigKey::DefaultBillable, "no") {
        Err(e) => {
            assert_eq!(e.message, "Invalid boolean for default_billable (use true/false)");
            assert_eq!(e.cause, "provided string was not `true` or `false`");
        },
        other => panic!("{:?}", other),
    }
    match config_value(ConfigKey::ReminderIntervalMins, "ten") {
        Err(e) => {
            assert_eq!(e.message, "Invalid number for reminder_interval_mins");
            assert_eq!(e.cause, "invalid digit found in string");
        },
        other => panic!("{:?}", other),
    }
    match config_value(ConfigKey::DefaultHourlyRate, "80.5") {
        Ok(ConfigValue::Fraction(t)) => assert_eq!(t, "80.5"),
        other => panic!("{:?}", other),
    }
    match config_value(ConfigKey::DefaultCurrency, "EUR") {
        Ok(ConfigValue::Text(t)) => assert_eq!(t, "EUR"),
        other => panic!("{:?}", other),
    }
}

#[test]
fn rate_targets_and_labels() {
    assert_eq!(rate_kind(true, true), RateType::Project);
    assert_eq!(rate_kind(false, true), RateType::Client);
    assert_eq!(rate_kind(false, false), RateType::Default);
    assert_eq!(scope_label(Some("Alpha"), Some("Acme"), "default"), "Alpha");
    assert_eq!(scope_label(None, Some("Acme"), "default"), "Acme");
    assert_eq!(scope_label(None, None, "(global)"), "(global)");
}

#[test]
fn rate_type_names_ignore_case() {
    assert_eq!(RateType::from_str("PROJECT"), Some(RateType::Project));
    assert_eq!(RateType::from_str("Client"), Some(RateType::Client));
    assert_eq!(RateType::from_str("default"), Some(RateType::Default));
    assert_eq!(RateType::from_str("global"), None);
    assert_eq!(RateType::Client.as_text(), "client");
    assert_eq!(ProjectStatus::from_str("archived"), Some(ProjectStatus::Archived));
    assert_eq!(ProjectStatus::from_str("Active"), None);
    assert_eq!(ProjectStatus::Active.as_str(), "active");
}

fn rate(id: i64, kind: RateType) -> Rate {
    Rate {
        id,
        rate_type: kind,
        project_id: None,
        client_id: None,
        hourly_rate_bits: 0,
        currency: "USD".to_string(),
        effective_from: "2024-01-01".to_string(),
        created_at: 0,
    }
}

#[test]
fn rate_cascade_prefers_project_then_client() {
    assert_eq!(first_rate_scope(Some(1), Some(2)), RateScope::Project(1));
    assert_eq!(first_rate_scope(None, Some(2)), RateScope::Client(2));
    assert_eq!(first_rate_scope(None, None), RateScope::Default);
    match rate_step(RateScope::Project(1), Some(2), Ok(None)) {
        RateStep::Look(s) => assert_eq!(s, RateScope::Client(2)),
        other => panic!("{:?}", other),
    }
    match rate_step(RateScope::Project(1), None, Ok(None)) {
        RateStep::Look(s) => assert_eq!(s, RateScope::Default),
        other => panic!("{:?}", other),
    }
    match rate_step(RateScope::Client(2), Some(2), Ok(Some(rate(5, RateType::Client)))) {
        RateStep::Found(Some(r)) => assert_eq!(r.id, 5),
        other => panic!("{:?}", other),
    }
    assert!(matches!(rate_step(RateScope::Default, None, Ok(None)), RateStep::Found(None)));
    match rate_step(RateScope::Client(2), None, Err("busy".to_string())) {
        RateStep::Failed(m) => assert_eq!(m, "Failed to query client rate"),
        other => panic!("{:?}", other),
    }
}

#[test]
fn entry_listing_query() {
    let (sql, params) = entries_query(None, None, None, Some(100));
    assert_eq!(
        sql,
        "SELECT id, uuid, project_id, description, start_time, end_time,\n                    duration_secs, billable, created_at, updated_at\n             FROM time_entries WHERE 1=1 ORDER BY start_time DESC LIMIT ?"
    );
    assert!(matches!(params.as_slice(), [SqlValue::Int(100)]));
    let (sql, params) = entries_query(Some(3), Some(MONDAY), Some(TODAY_0930), None);
    assert!(sql.ends_with(" AND project_id = ? AND start_time >= ? AND start_time <= ? ORDER BY start_time DESC"));
    match params.as_slice() {
        [SqlValue::Int(3), SqlValue::Text(a), SqlValue::Text(b)] => {
            assert_eq!(a, "2024-03-04T00:00:00");
            assert_eq!(b, "2024-03-05T09:30:00");
        },
        other => panic!("{:?}", other),
    }
}

#[test]
fn stored_durations() {
    assert_eq!(stored_duration(MIDNIGHT, Some(MIDNIGHT + 90)), Some(90));
    assert_eq!(stored_duration(MIDNIGHT, None), None);
}

#[test]
fn migrations_to_run() {
    assert_eq!(pending_migrations(0, 1), vec![1]);
    assert_eq!(pending_migrations(1, 1), Vec::<i64>::new());
    assert_eq!(pending_migrations(1, 3), vec![2, 3]);
    assert_eq!(pending_migrations(-4, 2), vec![1, 2]);
}

#[test]
fn week_of_a_sunday_night_starts_the_monday_before() {
    let sunday_night = 1710115199; // 2024-03-10 23:59:59
    assert_eq!(log_start(false, true, false, sunday_night), MONDAY);
    assert_eq!(log_start(true, false, false, sunday_night), 1710028800);
}

#[test]
fn spans_before_the_epoch() {
    let evening = -21600; // 1969-12-31 18:00:00, a Wednesday
    assert_eq!(log_start(true, false, false, evening), -86400);
    assert_eq!(log_start(false, true, false, evening), -259200);
    assert_eq!(log_start(false, false, true, evening), -2678400);
    assert_eq!(report_window("weekly", evening), Ok((-259200, evening)));
}

#[test]
fn month_spans_in_leap_and_common_years() {
    assert_eq!(report_window("monthly", 1709208000), Ok((1706745600, 1709208000)));
    assert_eq!(report_window("monthly", 1676361600), Ok((1675209600, 1676361600)));
    assert_eq!(report_window("daily", 1676361600), Ok((1676332800, 1676361600)));
    assert_eq!(report_window("weekly", 1676361600), Ok((1676246400, 1676361600)));
}

#[test]
fn rate_type_names_read_back() {
    for t in [RateType::Project, RateType::Client, RateType::Default] {
        assert_eq!(RateType::from_str(t.as_text()), Some(t));
        assert_eq!(RateType::from_str(&t.as_text().to_uppercase()), Some(t));
    }
}

#[test]
fn rate_type_from_lowercase_text() {
    assert_eq!(RateType::from_lowercase("client"), Some(RateType::Client));
    assert_eq!(RateType::from_lowercase("Client"), None);
    assert_eq!(RateType::from_lowercase(""), None);
}

#[test]
fn time_readings_first_success_counts() {
    assert_eq!(time_from_readings("x", Some(5), Some(7), Some(60), TODAY_0930), Ok(5));
    assert_eq!(time_from_readings("x", None, Some(7), Some(60), TODAY_0930), Ok(7));
    assert_eq!(time_from_readings("x", None, None, Some(60), TODAY_0930), Ok(MIDNIGHT + 60));
    assert_eq!(
        time_from_readings("soon", None, None, None, TODAY_0930),
        Err("Could not parse time 'soon'. Use HH:MM or YYYY-MM-DD HH:MM.".to_string())
    );
}

#[test]
fn report_file_names_carry_the_time() {
    assert_eq!(report_file_name(TODAY_0930, ".csv"), "saga-report-20240305-093000.csv");
    assert_eq!(report_file_name(MIDNIGHT + 59, ".pdf"), "saga-report-20240305-000059.pdf");
}

#[test]
fn moment_needs_both_date_and_clock() {
    assert_eq!(moment_of(Some(MIDNIGHT), Some(34200)), Some(TODAY_0930));
    assert_eq!(moment_of(None, Some(34200)), None);
    assert_eq!(moment_of(Some(MIDNIGHT), None), None);
}
