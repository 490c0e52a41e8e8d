use rusty_archive_viewer::client::{build_url, check_metadata, collect_pv_results, points_from_json};
use rusty_archive_viewer::decode::{
    has_readable_sample, payload_kind, unsupported_type_error, DecoderContext, FieldValue, PayloadInfo, SampleValue,
    ScalarKind, ScalarSample,
};
use rusty_archive_viewer::decode_helpers::{format_date_for_archiver, format_timestamp};
use rusty_archive_viewer::archiver::types::precision_from_json;
use rusty_archive_viewer::types::{Error, JsonValue, Meta, PVData, PointJson, PointValue};

fn info(name: &str, year: i32, headers: Vec<(&str, &str)>) -> PayloadInfo {
    PayloadInfo {
        payload_type: 6,
        pvname: name.to_string(),
        year,
        element_count: None,
        headers: headers
            .into_iter()
            .map(|(n, v)| FieldValue { name: n.to_string(), val: v.to_string() })
            .collect(),
    }
}

fn named(name: &str) -> Meta {
    let mut m = Meta::default();
    m.name = name.to_string();
    m
}

#[test]
fn raw_responses_split_into_header_and_samples() {
    let ctx = DecoderContext::new(10);
    let raw = [b'H', 0x1B, 0x02, b'I', 0x0A, b'a', 0x0A, 0x0A, b'b', 0x1B, 0x01];
    let frames = ctx.split_response(&raw).unwrap();
    assert_eq!(frames.header, vec![b'H', 0x0A, b'I']);
    assert_eq!(frames.points, vec![vec![b'a'], vec![b'b', 0x1B]]);
    assert!(matches!(ctx.split_response(&[]), Err(Error::Decode(m)) if m == "Empty response"));
    assert!(matches!(ctx.split_response(b"abc"), Err(Error::Decode(m)) if m == "Missing metadata"));
}

#[test]
fn samples_are_placed_in_their_year() {
    let ctx = DecoderContext::new(10);
    // 2024-01-01T00:00:00Z is 1704067200.
    assert_eq!(ctx.convert_to_unix_ms(0, 0, 2024), 1_704_067_200_000);
    assert_eq!(ctx.convert_to_unix_ms(60, 250_000_000, 2024), 1_704_067_260_250);
    assert_eq!(ctx.convert_to_unix_ms(0, 0, 2000), 946_684_800_000);
    let sample = ScalarSample {
        seconds_into_year: 1,
        nano: 500_000_000,
        val: SampleValue::Double(2.5f64.to_bits()),
        severity: Some(1),
        status: None,
    };
    let p = ctx.decode_point(&sample, 2024).unwrap();
    assert_eq!(p.secs, 1_704_067_201);
    assert_eq!(p.nanos, 500_000_000);
    assert!(matches!(p.val, PointValue::Double(b) if f64::from_bits(b) == 2.5));
    assert_eq!(p.severity, 1);
    assert_eq!(p.status, 0);
    let empty_byte = ScalarSample { val: SampleValue::Byte(vec![]), ..sample };
    assert!(matches!(ctx.decode_point(&empty_byte, 2024), Err(Error::Decode(_))));
}

#[test]
fn metadata_comes_from_the_headers() {
    let ctx = DecoderContext::new(10);
    let meta = ctx.process_metadata(&info("PV:1", 2024, vec![("EGU", "mA"), ("PREC", "3"), ("EGU", "A")])).unwrap();
    assert_eq!(meta.name, "PV:1");
    assert_eq!(meta.EGU, Some("A".to_string()));
    assert_eq!(meta.PREC, Some("3".to_string()));
    assert!(matches!(
        ctx.process_metadata(&info("", 2024, vec![])),
        Err(Error::Decode(m)) if m == "Missing 'name' in metadata"
    ));
    let samples = vec![
        Some(ScalarSample {
            seconds_into_year: 0,
            nano: 0,
            val: SampleValue::Int(7),
            severity: None,
            status: None,
        }),
        None,
    ];
    let data = ctx.assemble_response(&info("PV:1", 2024, vec![]), &samples).unwrap();
    assert_eq!(data.len(), 1);
    assert_eq!(data[0].data.len(), 1);
}

#[test]
fn payload_kinds_and_unsupported_types() {
    assert_eq!(payload_kind(0), Some(ScalarKind::String));
    assert_eq!(payload_kind(6), Some(ScalarKind::Double));
    assert_eq!(payload_kind(7), None);
    assert!(matches!(unsupported_type_error(12), Error::Invalid(m) if m == "Unsupported type: 12"));
}

#[test]
fn archiver_dates() {
    assert_eq!(format_date_for_archiver(0).unwrap(), "1970-01-01T00:00:00+00:00");
    assert_eq!(format_timestamp(60).unwrap(), "1970-01-01T00:01:00+00:00");
    assert!(matches!(format_timestamp(i64::MAX), Err(Error::Invalid(_))));
}

#[test]
fn json_samples_convert() {
    let number = |f: Option<f64>, i: Option<i64>, u: Option<u64>| JsonValue::Number {
        as_f64: f.map(f64::to_bits),
        as_i64: i,
        as_u64: u,
        text: "n".to_string(),
    };
    let p = |val: JsonValue| PointJson { secs: 1, nanos: 2, val, severity: Some(3), status: None };
    assert!(matches!(p(number(Some(1.5), None, None)).to_point_value(), Ok(PointValue::Double(b)) if f64::from_bits(b) == 1.5));
    assert!(matches!(p(number(None, Some(-4), None)).to_point_value(), Ok(PointValue::Long(-4))));
    assert!(matches!(p(number(None, None, Some(u64::MAX))).to_point_value(), Ok(PointValue::Int(-1))));
    assert!(matches!(p(number(None, None, None)).to_point_value(), Err(Error::Decode(m)) if m == "Unsupported number type"));
    assert!(matches!(p(JsonValue::Bool(true)).to_point_value(), Err(Error::Decode(m)) if m == "Unexpected value type: Bool(true)"));
    assert!(matches!(p(JsonValue::Other("Null".to_string())).to_point_value(), Err(Error::Decode(m)) if m == "Unexpected value type: Null"));
    assert!(matches!(p(JsonValue::Array(vec![Some(1), None, Some(257)])).to_point_value(), Ok(PointValue::ByteArray(b)) if b == vec![1, 1]));
    assert!(matches!(PointValue::from_json(JsonValue::Array(vec![Some(1), None, Some(257)])), PointValue::ByteArray(b) if b == vec![1]));
    assert!(matches!(PointValue::from_json(JsonValue::Bool(false)), PointValue::String(s) if s == "false"));
    assert!(matches!(PointValue::from_json(number(None, None, Some(5))), PointValue::Long(5)));
    let ok = points_from_json(&vec![p(JsonValue::String("x".to_string())), p(number(None, Some(1), None))]).unwrap();
    assert_eq!(ok.len(), 2);
    assert_eq!(ok[0].severity, 3);
    assert_eq!(ok[0].status, 0);
    assert!(points_from_json(&vec![p(JsonValue::String("x".to_string())), p(JsonValue::Bool(true))]).is_err());
}

#[test]
fn precision_is_read_from_strings_and_numbers() {
    assert_eq!(precision_from_json(&JsonValue::String("3".to_string())), Ok(Some(3)));
    assert_eq!(precision_from_json(&JsonValue::String("+3".to_string())), Ok(Some(3)));
    assert_eq!(precision_from_json(&JsonValue::String("x".to_string())), Err("Invalid precision value".to_string()));
    let n = |i: Option<i64>| JsonValue::Number { as_f64: None, as_i64: i, as_u64: None, text: String::new() };
    assert_eq!(precision_from_json(&n(Some(4_294_967_298))), Ok(Some(2)));
    assert_eq!(precision_from_json(&n(None)), Err("Invalid number".to_string()));
    assert_eq!(precision_from_json(&JsonValue::Other("Null".to_string())), Ok(None));
}

#[test]
fn viewer_requests_and_answers() {
    assert_eq!(
        build_url("http://a.example/r", "bpl/getMetadata", &vec![("pv".to_string(), "X:1".to_string())]).unwrap(),
        "http://a.example/r/bpl/getMetadata?pv=X%3A1"
    );
    assert!(matches!(build_url("::", "x", &vec![]), Err(Error::Invalid(m)) if m.starts_with("Invalid URL: ")));
    assert!(check_metadata(named("A")).is_ok());
    assert!(matches!(check_metadata(named("")), Err(Error::Invalid(m)) if m == "Missing name in metadata response"));
    let ok = |n: &str| Ok(PVData { meta: named(n), data: vec![] });
    let all = collect_pv_results(vec![ok("A"), ok("B")]).unwrap();
    assert_eq!(all.len(), 2);
    let first_failure = collect_pv_results(vec![
        ok("A"),
        Err(Error::Network("first".to_string())),
        Err(Error::Network("second".to_string())),
    ]);
    assert!(matches!(first_failure, Err(Error::Network(m)) if m == "first"));
}

#[test]
fn years_without_a_known_start_give_no_samples() {
    let ctx = DecoderContext::new(4);
    let unreadable = ScalarSample {
        seconds_into_year: 0,
        nano: 0,
        val: SampleValue::Byte(vec![]),
        severity: None,
        status: None,
    };
    let readable = ScalarSample { val: SampleValue::Int(3), ..unreadable.clone() };
    let samples = vec![None, Some(unreadable)];
    assert!(!has_readable_sample(&samples));
    assert!(has_readable_sample(&vec![None, Some(readable)]));
    let out = ctx.assemble_response(&info("PV:A", 1999, vec![]), &samples).unwrap();
    assert_eq!(out[0].meta.name, "PV:A");
    assert!(out[0].data.is_empty());
}

#[test]
fn framing_reads_back_escaped_lines() {
    let ctx = DecoderContext::new(2);
    // Header [ESC, NL, 'x'] and the line ['a', CR], escaped and each ended by a newline.
    let raw = [0x1B, 0x01, 0x1B, 0x02, b'x', 0x0A, b'a', 0x1B, 0x03, 0x0A];
    let frames = ctx.split_response(&raw).unwrap();
    assert_eq!(frames.header, vec![0x1B, 0x0A, b'x']);
    assert_eq!(frames.points, vec![vec![b'a', 0x0D]]);
}
