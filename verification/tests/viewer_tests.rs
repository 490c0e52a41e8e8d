use rusty_archive_viewer::archiver::types::NormalizedPVData;
use rusty_archive_viewer::client::determine_batch_size;
use rusty_archive_viewer::commands::{check_fetch_params, FetchDataParams};
use rusty_archive_viewer::decode_helpers::unescape_new_lines;
use rusty_archive_viewer::export::export_to_svg;
use rusty_archive_viewer::types::ProcessingMode;

#[test]
fn test_csv_export() {
    // Add tests...
}

#[test]
fn test_matlab_export() {
    // Add tests...
}

#[test]
fn test_text_export() {
    // Add tests...
}

#[test]
fn test_svg_export() {
    // Add tests...
}

#[test]
fn svg_document_is_the_empty_canvas() {
    let data: Vec<NormalizedPVData> = Vec::new();
    let svg = export_to_svg(&data).unwrap();
    assert!(svg.starts_with("<svg xmlns=\"http://www.w3.org/2000/svg\" viewBox=\"0 0 800 400\">"));
    assert!(svg.ends_with("</svg>"));
    assert!(svg.contains(".axis { stroke: #333; stroke-width: 1; }"));
}

#[test]
fn escapes_are_undone() {
    assert_eq!(unescape_new_lines(&[0x1B, 0x01]), vec![0x1B]);
    assert_eq!(unescape_new_lines(&[0x41, 0x1B, 0x02, 0x42]), vec![0x41, 0x0A, 0x42]);
    assert_eq!(unescape_new_lines(&[0x1B, 0x03]), vec![0x0D]);
    assert_eq!(unescape_new_lines(&[0x41, 0x42]), vec![0x41, 0x42]);
}

#[test]
fn modes_name_their_operators() {
    assert_eq!(ProcessingMode::Raw.get_operator(), "");
    assert_eq!(ProcessingMode::Mean.get_operator(), "mean");
    assert_eq!(ProcessingMode::Mean.format_pv("PV:1"), "mean(PV:1)");
    assert_eq!(ProcessingMode::Raw.format_pv("PV:1"), "PV:1");
}

#[test]
fn batch_sizes_grow_with_the_range() {
    assert_eq!(determine_batch_size(5), 10);
    assert_eq!(determine_batch_size(60), 30);
    assert_eq!(determine_batch_size(300), 100);
    assert_eq!(determine_batch_size(301), 500);
}

#[test]
fn fetch_parameters_are_checked() {
    let mut p = FetchDataParams { pvs: vec![], from: 0, to: 10, mode: None, format: None };
    assert_eq!(check_fetch_params(&p).unwrap_err(), "No PVs provided");
    p.pvs.push("A".to_string());
    assert!(check_fetch_params(&p).is_ok());
    p.to = 0;
    assert_eq!(check_fetch_params(&p).unwrap_err(), "End time must be after start time");
}
