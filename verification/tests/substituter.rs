//! Tests for the binary-cache substituter's decision logic.

use flox_core::substituter::{
    classify_gcs_outcome,
    fallback_headers,
    fallback_object_url,
    header_value_or_empty,
    missing_object_line,
    nix_cache_info_text,
    object_headers,
    object_path_of,
    root_text,
    u64_to_decimal,
    upload_media_type,
    AppState,
    GcsGetOutcome,
    GcsReply,
};

/// The fixed bodies of the root and cache-info routes.
#[test]
fn static_route_bodies() {
    assert_eq!(root_text(), "This is gcs-substituter");
    assert_eq!(
        nix_cache_info_text(),
        "StoreDir: /nix/store\nWantMassQuery: 1\nPriority: 40\n"
    );
}

/// The request path's leading slash names the storage object.
#[test]
fn object_path_strips_slash() {
    assert_eq!(
        object_path_of(&"/nar/abc123.nar.xz".to_string()),
        "nar/abc123.nar.xz"
    );
}

/// Absent options become empty strings, switching features off.
#[test]
fn app_state_from_args_defaults() {
    let state = AppState::from_args("bucket".to_string(), None, true, None);
    assert_eq!(state.bucket, "bucket");
    assert_eq!(state.fallback_url, "");
    assert_eq!(state.missing_objects_filename, "");
    let plan = state.not_found_plan();
    assert!(!plan.record_missing);
    assert!(!plan.use_fallback);
    assert!(!plan.fill_missing);
}

/// With a fallback configured, a missing object is fetched there, and the
/// bucket is filled only when asked.
#[test]
fn not_found_plan_with_fallback() {
    let state = AppState::from_args(
        "bucket".to_string(),
        Some("https://cache.example".to_string()),
        true,
        Some("/var/log/missing".to_string()),
    );
    let plan = state.not_found_plan();
    assert!(plan.record_missing);
    assert!(plan.use_fallback);
    assert!(plan.fill_missing);
}

/// Numbers render in decimal.
#[test]
fn decimal_rendering() {
    assert_eq!(u64_to_decimal(0), "0");
    assert_eq!(u64_to_decimal(7), "7");
    assert_eq!(u64_to_decimal(40), "40");
    assert_eq!(u64_to_decimal(1234567890), "1234567890");
}

/// A found object is streamed with its metadata headers and exact length.
#[test]
fn found_object_headers() {
    let headers = object_headers(&Some("xz".to_string()), &Some("application/x-nix-nar".to_string()), 512);
    assert_eq!(headers, vec![
        ("Content-Encoding".to_string(), "xz".to_string()),
        ("Content-Type".to_string(), "application/x-nix-nar".to_string()),
        ("Content-Length".to_string(), "512".to_string()),
    ]);
    let bare = object_headers(&None, &None, 9);
    assert_eq!(bare, vec![("Content-Length".to_string(), "9".to_string())]);
}

/// A 404 from storage goes to not-found handling; other codes are
/// relayed; other failures surface.
#[test]
fn classify_storage_outcomes() {
    let found = classify_gcs_outcome(GcsGetOutcome::Found {
        content_encoding: None,
        content_type: None,
        size: 1,
    });
    assert!(matches!(found, GcsReply::Stream { .. }));

    let missing = classify_gcs_outcome(GcsGetOutcome::ErrorResponse {
        code: 404,
        message: "not found".to_string(),
    });
    match missing {
        GcsReply::HandleNotFound { message } => assert_eq!(message, "not found"),
        _ => panic!("expected not-found handling"),
    }

    let relayed = classify_gcs_outcome(GcsGetOutcome::ErrorResponse {
        code: 403,
        message: "forbidden".to_string(),
    });
    match relayed {
        GcsReply::Status { code, message } => {
            assert_eq!(code, 403);
            assert_eq!(message, "forbidden");
        },
        _ => panic!("expected a relayed status"),
    }

    let failed = classify_gcs_outcome(GcsGetOutcome::Other { message: "io".to_string() });
    assert!(matches!(failed, GcsReply::Fail { .. }));
}

/// The fallback URL for an object joins the base and the object path.
#[test]
fn fallback_url_join() {
    assert_eq!(
        fallback_object_url(&"https://cache.example".to_string(), &"nar/x.nar".to_string()),
        "https://cache.example/nar/x.nar"
    );
}

/// Fallback replies carry only the headers the fallback reported.
#[test]
fn fallback_reply_headers() {
    let headers = fallback_headers(&"text/plain".to_string(), &"".to_string(), &Some(3));
    assert_eq!(headers, vec![
        ("Content-Type".to_string(), "text/plain".to_string()),
        ("Content-Length".to_string(), "3".to_string()),
    ]);
    let none = fallback_headers(&"".to_string(), &"".to_string(), &None);
    assert_eq!(none, vec![]);
}

/// A missing header reads as the empty string.
#[test]
fn absent_header_is_empty() {
    assert_eq!(header_value_or_empty(None), "");
    assert_eq!(header_value_or_empty(Some("gzip".to_string())), "gzip");
}

/// Uploads declare the fallback's content type, defaulting to an octet
/// stream.
#[test]
fn upload_media_type_defaults() {
    assert_eq!(upload_media_type(&"".to_string()), "application/octet-stream");
    assert_eq!(upload_media_type(&"text/plain".to_string()), "text/plain");
}

/// Each missing object is recorded as its own line.
#[test]
fn missing_object_record_line() {
    assert_eq!(missing_object_line(&"/nar/x.nar".to_string()), "/nar/x.nar\n");
}
