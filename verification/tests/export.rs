use saga::export::{export_entries_csv_to_writer, find_name};
use saga::models::TimeEntry;

const START: i64 = 1709631000; // 2024-03-05 09:30:00

fn entry(project_id: i64, description: &str, end: Option<i64>, dur: Option<i64>, billable: bool) -> TimeEntry {
    TimeEntry {
        id: 1,
        uuid: "u".to_string(),
        project_id,
        description: description.to_string(),
        start_time: START,
        end_time: end,
        duration_secs: dur,
        billable,
        created_at: START,
        updated_at: START,
    }
}

#[test]
fn csv_export_writes_header_and_records() {
    let entries = vec![
        entry(1, "plain", Some(START + 1800), Some(1800), true),
        entry(2, "a, \"quoted\" one", None, None, false),
    ];
    let names = vec![(1, "Alpha".to_string())];
    let hours = vec!["0.50".to_string(), String::new()];
    let bytes = export_entries_csv_to_writer(&entries, &names, &hours).unwrap();
    let text = String::from_utf8(bytes).unwrap();
    assert_eq!(
        text,
        "Date,Start,End,Duration (h),Project,Description,Billable\n\
         2024-03-05,09:30,10:00,0.50,Alpha,plain,Yes\n\
         2024-03-05,09:30,,,Unknown,\"a, \"\"quoted\"\" one\",No\n"
    );
}

#[test]
fn csv_export_of_nothing_is_the_header() {
    let bytes = export_entries_csv_to_writer(&vec![], &vec![], &vec![]).unwrap();
    assert_eq!(bytes, b"Date,Start,End,Duration (h),Project,Description,Billable\n".to_vec());
}

#[test]
fn names_are_looked_up_by_project() {
    let names = vec![(4, "Four".to_string()), (9, "Nine".to_string())];
    assert_eq!(find_name(&names, 9), Some("Nine".to_string()));
    assert_eq!(find_name(&names, 5), None);
}
