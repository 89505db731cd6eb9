use trailbase::logging::{request_log_type, LogFields};

#[test]
fn request_kinds_by_path() {
    assert_eq!(request_log_type("/api/_admin/tables"), 1);
    assert_eq!(request_log_type("/api/records/v1/messages"), 3);
    assert_eq!(request_log_type("/"), 2);
    assert_eq!(request_log_type("/api/auth/v1/login"), 2);
}

#[test]
fn log_fields_keep_what_is_stored() {
    let mut f = LogFields::default();
    f.record_i64("request_type", 3);
    f.record_i64("length", 42);
    f.record_i64("other", 7);
    f.record_u64("status", 200);
    f.record_u64("other", 1);
    f.record_str("client_ip", "127.0.0.1");
    f.record_str("host", "localhost");
    f.record_str("referer", "r");
    f.record_str("user_agent", "curl");
    f.record_str("message", "ignored");
    f.record_debug("method", "GET".to_string());
    f.record_debug("uri", "/x".to_string());
    f.record_debug("version", "HTTP/1.1".to_string());
    f.record_debug("message", "ignored".to_string());
    assert_eq!(
        f,
        LogFields {
            request_type: 3,
            method: "GET".to_string(),
            uri: "/x".to_string(),
            client_ip: "127.0.0.1".to_string(),
            host: "localhost".to_string(),
            referer: "r".to_string(),
            user_agent: "curl".to_string(),
            version: "HTTP/1.1".to_string(),
            level: 0,
            status: 200,
            length: 42,
        }
    );
}
