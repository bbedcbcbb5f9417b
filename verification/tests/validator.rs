use scylla_pg::models::TaskStatus;
use scylla_pg::validator::{
    json_or_refusal, validate_json, validate_pool_size, validate_port, validate_status,
    JSScyllaError,
};

fn reason(e: JSScyllaError) -> String {
    match e {
        JSScyllaError::ArgumentValidationError(reason) => reason,
    }
}

#[test]
fn status_is_read_from_its_stored_name() {
    assert_eq!(validate_status("running").unwrap(), TaskStatus::Running);
    assert_eq!(validate_status("ready").unwrap(), TaskStatus::Ready);
    assert_eq!(validate_status("completed").unwrap(), TaskStatus::Completed);
    assert_eq!(validate_status("cancelled").unwrap(), TaskStatus::Cancelled);
    assert_eq!(validate_status("aborted").unwrap(), TaskStatus::Aborted);
    for wrong in ["", "Running", "READY", "done", " ready", "ready "] {
        assert_eq!(reason(validate_status(wrong).unwrap_err()), "Invalid Task Status");
    }
}

#[test]
fn json_argument_is_parsed_or_named() {
    let doc = validate_json("{\"a\": [1, true, null]}", "spec").unwrap();
    assert_eq!(doc["a"][0], 1);
    assert_eq!(doc["a"][1], true);
    assert!(doc["a"][2].is_null());
    assert_eq!(validate_json("  17 ", "spec").unwrap(), 17);
    assert_eq!(validate_json("\"{}\"", "spec").unwrap(), "{}");
    assert_eq!(reason(validate_json("{\"a\": ", "spec").unwrap_err()), "Invalid JSON for spec");
    assert_eq!(reason(validate_json("", "args").unwrap_err()), "Invalid JSON for args");
    assert_eq!(reason(validate_json("{} {}", "args").unwrap_err()), "Invalid JSON for args");
}

#[test]
fn json_refusal_names_the_argument() {
    let fault = serde_json::from_str::<serde_json::Value>("nope");
    assert_eq!(reason(json_or_refusal(fault, "args").unwrap_err()), "Invalid JSON for args");
    let doc = serde_json::from_str::<serde_json::Value>("[1]");
    assert_eq!(json_or_refusal(doc, "args").unwrap()[0], 1);
}

#[test]
fn port_fits_sixteen_bits() {
    assert_eq!(validate_port(0).unwrap(), 0);
    assert_eq!(validate_port(5432).unwrap(), 5432);
    assert_eq!(validate_port(65535).unwrap(), 65535);
    assert_eq!(reason(validate_port(65536).unwrap_err()), "Invalid value for pg_port");
    assert_eq!(reason(validate_port(u32::MAX).unwrap_err()), "Invalid value for pg_port");
}

#[test]
fn pool_size_is_taken_as_it_is() {
    assert_eq!(validate_pool_size(0).unwrap(), 0);
    assert_eq!(validate_pool_size(16).unwrap(), 16);
    assert_eq!(validate_pool_size(u32::MAX).unwrap(), u32::MAX as usize);
}

#[test]
fn argument_error_is_worded() {
    assert_eq!(
        JSScyllaError::ArgumentValidationError("Invalid Task Status".to_string()).to_string(),
        "Validation failed for fields: Invalid Task Status"
    );
    assert_eq!(
        format!("{:?}", JSScyllaError::ArgumentValidationError("x".to_string())),
        "ArgumentValidationError(\"x\")"
    );
}
