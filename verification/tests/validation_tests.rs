use rusty_archive_viewer::archiver::error::ArchiverError;
use rusty_archive_viewer::archiver::types::DataOperator;
use rusty_archive_viewer::archiver::validation::{
    LiveUpdateParameters, RequestParameters, RequestValidator, ValidationLimits, Validator,
};

fn now_ms() -> i64 {
    chrono::Utc::now().timestamp_millis()
}

#[test]
fn test_pv_name_validation() {
    // Valid cases
    assert!(Validator::validate_pv_name("ROOM:TEMP:1").is_ok());
    assert!(Validator::validate_pv_name("Device_1.ReadBack").is_ok());
    assert!(Validator::validate_pv_name("TEST-123").is_ok());

    // Invalid cases
    assert!(Validator::validate_pv_name("").is_err());
    assert!(Validator::validate_pv_name("ROOM TEMP").is_err());
    assert!(Validator::validate_pv_name("Device#1").is_err());
    assert!(Validator::validate_pv_name("Test/PV").is_err());
}

#[test]
fn test_custom_validation_limits() {
    let custom_limits = ValidationLimits {
        max_pvs: 50,
        max_time_range: 3_600_000, // 1 hour
        min_bin_size: 5,
        max_bin_size: 300,
        min_update_interval: 1_000,
        max_update_interval: 30_000,
        max_buffer_size: 1000,
    };

    let validator = RequestValidator::with_limits(custom_limits);
    let now = now_ms();

    let test_params = RequestParameters {
        pvs: vec!["TEST:PV1".to_string(); 51], // Exceeds new limit of 50
        start_time: now - 90 * 60 * 1000,      // Exceeds new limit of 1 hour
        end_time: now,
        operator: Some("mean_2".to_string()), // Below new min_bin_size of 5
        chart_width: Some(800),
        options: None,
    };

    match validator.validate_data_request(&test_params) {
        Err(ArchiverError::InvalidRequest {
            validation_errors,
            error_context: Some(ctx),
            ..
        }) => {
            assert!(validation_errors.iter().any(|e| e.contains("Too many PVs")));
            assert!(validation_errors.iter().any(|e| e.contains("Time range too large")));
            assert_eq!(ctx.source_component, "RequestValidator");
            assert_eq!(ctx.operation, "validate_data_request");
        }
        _ => panic!("Expected InvalidRequest error with multiple validation failures"),
    }
}

#[test]
fn validator_accepts_known_operators() {
    assert!(Validator::validate_operator("raw").is_ok());
    assert!(Validator::validate_operator("mean_60").is_ok());
    assert!(Validator::validate_operator("optimized_720").is_ok());
    assert!(Validator::validate_operator("bogus_1").is_err());
}

#[test]
fn time_range_in_the_future_is_refused() {
    let now = 1_700_000_000_000;
    assert!(Validator::validate_time_range_at(now - 1000, now, now).is_ok());
    assert!(Validator::validate_time_range_at(now, now - 1000, now).is_err());
}

#[test]
fn default_request_passes_validation() {
    let validator = RequestValidator::new();
    let now = now_ms();
    let params = RequestParameters {
        pvs: vec!["ROOM:TEMP:1".to_string()],
        start_time: now - 60_000,
        end_time: now - 1_000,
        operator: Some("mean_60".to_string()),
        chart_width: Some(800),
        options: None,
    };
    assert!(validator.validate_data_request(&params).is_ok());
}

#[test]
fn live_update_interval_out_of_range_is_refused() {
    let validator = RequestValidator::new();
    let params = LiveUpdateParameters {
        pvs: vec!["ROOM:TEMP:1".to_string()],
        update_interval: 0,
        buffer_size: 10,
        operator: None,
    };
    assert!(validator.validate_live_update_params(&params).is_err());
}

#[test]
fn written_operators_pass_validation() {
    for op in [
        DataOperator::Raw,
        DataOperator::Mean(Some(60)),
        DataOperator::Max(None),
        DataOperator::Nth(5),
        DataOperator::Optimized(720),
        DataOperator::Flyers { bin_size: Some(60), deviations: "2.5".to_string() },
        DataOperator::IgnoreFlyers { bin_size: Some(-1), deviations: "3".to_string() },
    ] {
        assert!(Validator::validate_operator(&op.to_string()).is_ok(), "{}", op.to_string());
    }
    assert!(Validator::validate_operator(&DataOperator::NCount.to_string()).is_err());
    assert!(Validator::validate_operator(&DataOperator::Mean(Some(0)).to_string()).is_err());
    assert!(Validator::validate_operator(&DataOperator::Nth(0).to_string()).is_err());
    let no_bin = DataOperator::Flyers { bin_size: None, deviations: "2".to_string() };
    assert!(Validator::validate_operator(&no_bin.to_string()).is_err());
}
