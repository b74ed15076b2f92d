use statistics_collector::dto::{Configuration, StatsV3Query, StatsV4Query};
use statistics_collector::normalize::empty_string_to_null;
use statistics_collector::persist::{check_execute_outcome, u64_string, PersistError};
use statistics_collector::record::{record_statistics_v1, record_statistics_v2};
use statistics_collector::response::{
    png_pixel, statistics_result_to_response, ContentType, ResponseBody,
};
use statistics_collector::router::{
    stats_v1_handler, stats_v2_handler, stats_v3_handler, stats_v4_handler,
};

fn v4_query(
    n: Option<&str>,
    i: Option<&str>,
    u: Option<&str>,
    s: Option<&str>,
    w: Option<&str>,
    v: Option<&str>,
    c1: Option<u16>,
    c2: Option<u16>,
) -> StatsV4Query {
    StatsV4Query {
        n: n.map(str::to_owned),
        i: i.map(str::to_owned),
        u: u.map(str::to_owned),
        s: s.map(str::to_owned),
        w: w.map(str::to_owned),
        v: v.map(str::to_owned),
        c1,
        c2,
    }
}

#[test]
fn normalize_absent_stays_absent() {
    assert_eq!(empty_string_to_null(None), None);
}

#[test]
fn normalize_empty_and_whitespace_to_absent() {
    assert_eq!(empty_string_to_null(Some("")), None);
    assert_eq!(empty_string_to_null(Some("   ")), None);
    assert_eq!(empty_string_to_null(Some("\t\r\n")), None);
    assert_eq!(empty_string_to_null(Some("\u{00A0}\u{2003}")), None);
}

#[test]
fn normalize_keeps_nonempty_untrimmed() {
    assert_eq!(empty_string_to_null(Some("a b")), Some("a b"));
    assert_eq!(empty_string_to_null(Some("  x  ")), Some("  x  "));
}

#[test]
fn normalize_idempotent_on_samples() {
    for sample in [None, Some(""), Some("   "), Some("a b"), Some(" x ")] {
        let once = empty_string_to_null(sample);
        assert_eq!(empty_string_to_null(once), once);
    }
}

#[test]
fn percent_decoding_round_trip() {
    let plain = "a/b %c?&=+";
    let encoded =
        percent_encoding::utf8_percent_encode(plain, percent_encoding::NON_ALPHANUMERIC)
            .to_string();
    assert_ne!(encoded, plain);
    let row = stats_v1_handler(&encoded, "i", "u", "s", "w", &encoded);
    assert_eq!(row.item_name.as_deref(), Some(plain));
    assert_eq!(row.cache_nonce, plain);
}

#[test]
fn malformed_percent_sequences_pass_through() {
    let row = stats_v1_handler("%", "%2", "%ZZ", "ok%20ok", "w", "%e2%ZZ%25");
    assert_eq!(row.item_name.as_deref(), Some("%"));
    assert_eq!(row.item_id.as_deref(), Some("%2"));
    assert_eq!(row.user_id.as_deref(), Some("%ZZ"));
    assert_eq!(row.session_id.as_deref(), Some("ok ok"));
    assert_eq!(row.cache_nonce, "\u{FFFD}%ZZ%");
}

#[test]
fn v1_route_persists_all_path_fields() {
    let before = chrono::Utc::now().timestamp_micros();
    let row = stats_v1_handler("Sword", "123", "U42", "S9", "World7", "nonceABC");
    let after = chrono::Utc::now().timestamp_micros();
    assert_eq!(row.item_name.as_deref(), Some("Sword"));
    assert_eq!(row.item_id.as_deref(), Some("123"));
    assert_eq!(row.user_id.as_deref(), Some("U42"));
    assert_eq!(row.session_id.as_deref(), Some("S9"));
    assert_eq!(row.cache_nonce, "nonceABC");
    assert_eq!(row.protocol_version, 1);
    assert!(before <= row.timestamp && row.timestamp <= after);
}

#[test]
fn v2_route_has_no_session() {
    let row = stats_v2_handler("Sword", "123", "U42", "nonce2");
    assert_eq!(row.item_name.as_deref(), Some("Sword"));
    assert_eq!(row.session_id, None);
    assert_eq!(row.protocol_version, 2);
    assert_eq!(row.cache_nonce, "nonce2");
}

#[test]
fn v3_route_takes_query_fields() {
    let q = StatsV3Query {
        n: Some("Sword".to_owned()),
        i: Some("123".to_owned()),
        u: None,
        s: Some("   ".to_owned()),
    };
    let row = stats_v3_handler("n%41", q);
    assert_eq!(row.item_name.as_deref(), Some("Sword"));
    assert_eq!(row.item_id.as_deref(), Some("123"));
    assert_eq!(row.user_id, None);
    assert_eq!(row.session_id, None);
    assert_eq!(row.protocol_version, 3);
    assert_eq!(row.cache_nonce, "nA");
}

#[test]
fn v4_route_fills_all_eleven_columns() {
    let before = chrono::Utc::now().timestamp_micros();
    let q = v4_query(
        Some("Sword"),
        Some("123"),
        Some("U42"),
        Some("S9"),
        Some("http://x"),
        Some("2.1"),
        Some(3),
        Some(0),
    );
    let row = stats_v4_handler("nonceXYZ", q);
    let after = chrono::Utc::now().timestamp_micros();
    assert_eq!(row.item_name.as_deref(), Some("Sword"));
    assert_eq!(row.item_id.as_deref(), Some("123"));
    assert_eq!(row.user_id.as_deref(), Some("U42"));
    assert_eq!(row.session_id.as_deref(), Some("S9"));
    assert_eq!(row.world_url.as_deref(), Some("http://x"));
    assert_eq!(row.neos_version.as_deref(), Some("2.1"));
    assert_eq!(row.cache_nonce, "nonceXYZ");
    assert_eq!(row.protocol_version, 4);
    assert_eq!(row.client_major_version, Some(3));
    assert_eq!(row.client_minor_version, Some(0));
    assert!(before <= row.timestamp && row.timestamp <= after);
}

#[test]
fn v4_route_normalizes_blank_optionals() {
    let q = v4_query(Some(""), Some("  "), None, Some("S9"), Some(" "), Some(""), None, Some(7));
    let row = stats_v4_handler("n", q);
    assert_eq!(row.item_name, None);
    assert_eq!(row.item_id, None);
    assert_eq!(row.user_id, None);
    assert_eq!(row.session_id.as_deref(), Some("S9"));
    assert_eq!(row.world_url, None);
    assert_eq!(row.neos_version, None);
    assert_eq!(row.client_major_version, None);
    assert_eq!(row.client_minor_version, Some(7));
}

#[test]
fn client_version_narrowing_wraps_like_storage_type() {
    let q = v4_query(None, None, None, None, None, None, Some(65535), Some(40000));
    let row = stats_v4_handler("n", q);
    assert_eq!(row.client_major_version, Some(-1));
    assert_eq!(row.client_minor_version, Some(-25536));
}

#[test]
fn record_v1_narrows_protocol_and_keeps_nonce() {
    let row = record_statistics_v1(Some("a"), None, Some(" "), Some("s"), 99, 3, "  n  ");
    assert_eq!(row.protocol_version, 3);
    assert_eq!(row.timestamp, 99);
    assert_eq!(row.user_id, None);
    assert_eq!(row.cache_nonce, "  n  ");
}

#[test]
fn record_v2_normalizes_every_optional_field() {
    let row = record_statistics_v2(
        Some(" "),
        Some("i"),
        None,
        Some(""),
        Some("w"),
        5,
        4,
        Some("   "),
        "n",
        None,
        Some(2),
    );
    assert_eq!(row.item_name, None);
    assert_eq!(row.item_id.as_deref(), Some("i"));
    assert_eq!(row.session_id, None);
    assert_eq!(row.world_url.as_deref(), Some("w"));
    assert_eq!(row.neos_version, None);
    assert_eq!(row.client_minor_version, Some(2));
}

#[test]
fn outcome_of_one_row_is_success() {
    assert_eq!(check_execute_outcome(Ok(1)), Ok(()));
}

#[test]
fn outcome_of_other_counts_is_rowcount_error() {
    assert_eq!(check_execute_outcome(Ok(0)), Err(PersistError::RowCount(0)));
    assert_eq!(check_execute_outcome(Ok(2)), Err(PersistError::RowCount(2)));
}

#[test]
fn outcome_of_failed_execution_is_execution_error() {
    assert_eq!(
        check_execute_outcome(Err("db down".to_owned())),
        Err(PersistError::Execution("db down".to_owned()))
    );
}

#[test]
fn diagnostics_render_exactly() {
    assert_eq!(
        PersistError::RowCount(0).diagnostic(),
        "expected 1, but updated 0 rows"
    );
    assert_eq!(
        PersistError::RowCount(12345).diagnostic(),
        "expected 1, but updated 12345 rows"
    );
    assert_eq!(
        PersistError::RowCount(u64::MAX).diagnostic(),
        "expected 1, but updated 18446744073709551615 rows"
    );
    assert_eq!(PersistError::Execution("db down".to_owned()).diagnostic(), "db down");
}

#[test]
fn decimal_rendering_matches_std() {
    for n in [0u64, 1, 9, 10, 99, 100, 4096, u64::MAX] {
        assert_eq!(u64_string(n), n.to_string());
    }
}

#[test]
fn success_response_is_the_constant_image() {
    let r = statistics_result_to_response(Ok(()));
    assert_eq!(r.status, 200);
    assert_eq!(r.content_type, ContentType::ImagePng);
    match r.body {
        ResponseBody::Image(bytes) => {
            assert_eq!(bytes, png_pixel());
            assert_eq!(bytes.len(), 67);
            assert_eq!(&bytes[..8], &[0x89, 0x50, 0x4E, 0x47, 0x0D, 0x0A, 0x1A, 0x0A]);
        }
        ResponseBody::Text(_) => panic!("success must carry the image"),
    }
}

#[test]
fn failure_response_carries_nonempty_diagnostic() {
    let r = statistics_result_to_response(Err(PersistError::Execution("boom".to_owned())));
    assert_eq!(r.status, 500);
    assert_eq!(r.content_type, ContentType::TextPlain);
    match r.body {
        ResponseBody::Text(t) => {
            assert!(!t.is_empty());
            assert_eq!(t, "boom");
        }
        ResponseBody::Image(_) => panic!("failure must carry text"),
    }
}

#[test]
fn rowcount_failure_answers_like_execution_failure() {
    let a = statistics_result_to_response(Err(PersistError::RowCount(0)));
    let b = statistics_result_to_response(Err(PersistError::Execution("x".to_owned())));
    assert_eq!(a.status, b.status);
    assert_eq!(a.content_type, b.content_type);
    assert!(matches!(a.body, ResponseBody::Text(_)));
    assert!(matches!(b.body, ResponseBody::Text(_)));
}

#[test]
fn distinct_nonces_build_independent_rows() {
    let row_a = stats_v2_handler("A", "1", "u", "nonce-a");
    let row_b = stats_v2_handler("B", "2", "u", "nonce-b");
    assert_eq!(row_a.cache_nonce, "nonce-a");
    assert_eq!(row_b.cache_nonce, "nonce-b");
    assert_ne!(row_a.cache_nonce, row_b.cache_nonce);
    assert_eq!(row_a.item_name.as_deref(), Some("A"));
    assert_eq!(row_b.item_name.as_deref(), Some("B"));
}

#[test]
fn configuration_holds_connection_settings() {
    let c = Configuration {
        db_host: "localhost".to_owned(),
        db_port: 5432,
        db_user: "stats".to_owned(),
        db_password: "pw".to_owned(),
        db_name: "telemetry".to_owned(),
    };
    assert_eq!(c.db_port, 5432);
    assert_eq!(c.db_host, "localhost");
}
