use rusty_archive_viewer::archiver::commands::{
    check_export_format, collect_fetch_results, connection_status, pv_statuses_from,
    validate_pvs_from,
};
use rusty_archive_viewer::archiver::types::{DataFormat, Meta, NormalizedPVData};

fn meta(name: &str) -> Meta {
    Meta {
        name: name.to_string(),
        egu: String::new(),
        description: None,
        precision: None,
        archive_parameters: None,
        display_limits: None,
        alarm_limits: None,
    }
}

#[test]
fn validity_and_status_come_from_the_metadata() {
    let pvs = vec!["A".to_string(), "B".to_string(), "C".to_string()];
    let answers = vec![
        ("A".to_string(), Ok(meta("A"))),
        ("B".to_string(), Err("Server error occurred".to_string())),
        ("A".to_string(), Err("late failure".to_string())),
    ];
    assert_eq!(validate_pvs_from(&pvs, &answers), vec![false, false, false]);
    let answers2 = vec![("A".to_string(), Ok(meta("A")))];
    assert_eq!(validate_pvs_from(&pvs, &answers2), vec![true, false, false]);
    let statuses = pv_statuses_from(&pvs, &answers2);
    assert!(statuses[0].connected && statuses[0].archived);
    assert_eq!(statuses[0].last_status, None);
    assert!(!statuses[1].connected);
    assert_eq!(statuses[1].last_status, Some("No metadata".to_string()));
    let statuses = pv_statuses_from(&pvs, &answers);
    assert_eq!(statuses[1].last_status, Some("Server error occurred".to_string()));
    assert_eq!(statuses[0].last_status, Some("late failure".to_string()));
    assert_eq!(statuses[2].error_count, 0);
}

#[test]
fn fetch_outcomes_combine() {
    let series = NormalizedPVData { meta: meta("A"), data: vec![], statistics: None };
    let ok = collect_fetch_results(vec![
        ("X".to_string(), Err("timeout".to_string())),
        ("A".to_string(), Ok(series)),
    ])
    .unwrap();
    assert_eq!(ok.len(), 1);
    let err = collect_fetch_results(vec![
        ("X".to_string(), Err("timeout".to_string())),
        ("Y".to_string(), Err("404".to_string())),
    ])
    .unwrap_err();
    assert_eq!(err, "Error fetching X: timeout, Error fetching Y: 404");
}

#[test]
fn connection_and_export_formats() {
    assert_eq!(connection_status(&Ok(meta("A"))), Ok(true));
    assert_eq!(connection_status(&Err("down".to_string())), Ok(false));
    assert!(check_export_format(DataFormat::Csv).is_ok());
    assert!(check_export_format(DataFormat::Svg).is_ok());
    assert_eq!(check_export_format(DataFormat::Json).unwrap_err(), "Unsupported export format");
    assert_eq!(check_export_format(DataFormat::Raw).unwrap_err(), "Unsupported export format");
}
