use symphony::json::JsonValue;
use symphony::publication_recovery::{
    classify_request_error, error_chain, response_error, response_error_with_body,
};
use symphony::publication_recovery::{
    admin_base_url, format_blocked_publications, format_publication_reset, is_store_lock_error,
    store_unavailable_message, BlockedPublicationHttpResponse,
    BlockedPublicationResetHttpResponse, RecoveryHttpError, RecoverySource,
};

fn blocked_fixture() -> BlockedPublicationHttpResponse {
    BlockedPublicationHttpResponse {
        intent_id: "intent-1".to_string(),
        run_id: "run-1".to_string(),
        kind: "implementation".to_string(),
        retry_count: 3,
        last_step: Some("comment_pending".to_string()),
        error_code: Some("publication_retry_exhausted".to_string()),
        error_remediation: Some("Check the forge token scopes.".to_string()),
        updated_at_ms: 1_785_412_800_000,
    }
}

#[test]
fn admin_base_url_rewrites_wildcard_binds_to_loopback() {
    assert_eq!(admin_base_url("0.0.0.0", 8080), "http://127.0.0.1:8080");
    assert_eq!(admin_base_url("  ", 9000), "http://127.0.0.1:9000");
    assert_eq!(admin_base_url("::", 8080), "http://[::1]:8080");
}

#[test]
fn admin_base_url_preserves_concrete_hosts() {
    assert_eq!(admin_base_url("127.0.0.1", 8080), "http://127.0.0.1:8080");
    assert_eq!(admin_base_url("symphony.internal", 80), "http://symphony.internal:80");
    assert_eq!(admin_base_url("[::1]", 8080), "http://[::1]:8080");
    assert_eq!(admin_base_url("fd00::1", 8080), "http://[fd00::1]:8080");
}

#[test]
fn admin_base_url_handles_other_wildcards_and_port_zero() {
    assert_eq!(admin_base_url("[::]", 0), "http://[::1]:0");
    assert_eq!(admin_base_url(" 0:0:0:0:0:0:0:0 ", 65535), "http://[::1]:65535");
}

#[test]
fn format_blocked_publications_reports_empty_set_plainly() {
    assert_eq!(format_blocked_publications(&[]), "no blocked publication intents");
}

#[test]
fn format_blocked_publications_names_intent_and_reason() {
    let report = format_blocked_publications(&[blocked_fixture()]);
    assert!(report.starts_with("1 blocked publication intent(s):"));
    assert!(report.contains("intent-1  run=run-1  retries=3  last_step=comment_pending"));
    assert!(report.contains("publication_retry_exhausted — Check the forge token scopes."));
    assert!(report.contains("symphony publication reset <intent-id>"));
}

#[test]
fn format_blocked_publications_falls_back_when_no_error_recorded() {
    let mut intent = blocked_fixture();
    intent.error_code = None;
    intent.error_remediation = None;
    intent.last_step = None;
    let report = format_blocked_publications(&[intent]);
    assert!(report.contains("last_step=none"));
    assert!(report.contains("unknown"));
}

#[test]
fn format_blocked_publications_uses_code_without_remediation() {
    let mut intent = blocked_fixture();
    intent.error_remediation = None;
    let second = blocked_fixture();
    let report = format_blocked_publications(&[intent, second]);
    assert_eq!(
        report,
        "2 blocked publication intent(s):\n  intent-1  run=run-1  retries=3  last_step=comment_pending\n    publication_retry_exhausted\n  intent-1  run=run-1  retries=3  last_step=comment_pending\n    publication_retry_exhausted — Check the forge token scopes.\n\nreset one with: symphony publication reset <intent-id>"
    );
}

#[test]
fn format_publication_reset_distinguishes_who_applied_it() {
    let reset = BlockedPublicationResetHttpResponse {
        intent_id: "intent-1".to_string(),
        run_id: "run-1".to_string(),
        status: "pending".to_string(),
        completed_steps: vec!["comment_pending".to_string()],
    };
    let served = format_publication_reset(&reset, RecoverySource::RunningOrchestrator);
    assert!(served.contains("reset intent-1 to pending (run run-1, 1 completed step(s) preserved)"));
    assert!(served.contains("resumes reconciliation on its next poll"));
    let direct = format_publication_reset(&reset, RecoverySource::DirectStore);
    assert!(direct.contains("no orchestrator is running"));
    assert!(!direct.contains("next poll;"));
}

#[test]
fn store_unavailable_message_explains_a_locked_store_after_an_unreachable_api() {
    let http_error = RecoveryHttpError::Unreachable(
        "could not reach the Symphony admin API at http://127.0.0.1:8080: connection refused"
            .to_string(),
    );
    let store_error =
        "could not acquire exclusive triage store lock /data/factory.sqlite3.lock: locked";
    let message = store_unavailable_message(&http_error, store_error);
    assert!(message.contains("server.host and server.port"));
    assert!(message.contains("--port"));
    assert!(message.contains("http://127.0.0.1:8080"));
    assert!(message.contains(store_error));
}

#[test]
fn store_unavailable_message_passes_through_non_lock_failures() {
    let http_error = RecoveryHttpError::Unreachable("nothing answered".to_string());
    let message = store_unavailable_message(&http_error, "no durable factory store at /data");
    assert_eq!(message, "nothing answered\nno durable factory store at /data");
    assert!(!message.contains("server.host"));
}

#[test]
fn store_unavailable_message_does_not_blame_the_address_when_the_api_answered() {
    let http_error = RecoveryHttpError::Failed("500".to_string());
    let message =
        store_unavailable_message(&http_error, "could not acquire exclusive triage store lock x");
    assert_eq!(message, "500\ncould not acquire exclusive triage store lock x");
    assert!(!http_error.is_unreachable());
    assert_eq!(http_error.message(), "500");
}

#[test]
fn is_store_lock_error_matches_only_the_lock_failure() {
    assert!(is_store_lock_error(
        "storage error: could not acquire exclusive triage store lock /x.lock: locked"
    ));
    assert!(!is_store_lock_error("no durable factory store at /x"));
}

#[test]
fn error_chains_keep_each_new_cause_once() {
    let texts = vec![
        "error sending request for url (http://127.0.0.1:8080/)".to_string(),
        "client error (Connect)".to_string(),
        "Connect".to_string(),
        "Connection refused (os error 111)".to_string(),
    ];
    assert_eq!(
        error_chain(&texts),
        "error sending request for url (http://127.0.0.1:8080/): client error (Connect): Connection refused (os error 111)"
    );
    assert_eq!(error_chain(&vec!["only".to_string()]), "only");
    assert_eq!(error_chain(&vec![]), "");
}

#[test]
fn unanswered_requests_are_unreachable_only_on_connect_or_timeout() {
    let e = classify_request_error("http://127.0.0.1:8080", "refused", true);
    assert!(e.is_unreachable());
    assert_eq!(e.message(), "could not reach the Symphony admin API at http://127.0.0.1:8080: refused");
    let f = classify_request_error("http://h:1", "bad body", false);
    assert!(!f.is_unreachable());
    assert_eq!(f.message(), "could not reach the Symphony admin API at http://h:1: bad body");
}

#[test]
fn error_answers_report_the_best_detail() {
    let body = JsonValue::Object(vec![(
        "error".to_string(),
        JsonValue::Object(vec![("message".to_string(), JsonValue::Str("intent not blocked".to_string()))]),
    )]);
    assert_eq!(
        response_error_with_body("http://h/x", 409, Some("Conflict"), "{...}", Some(&body)).message(),
        "http://h/x returned 409: intent not blocked"
    );
    assert_eq!(
        response_error_with_body("http://h/x", 500, Some("Internal Server Error"), "  boom \n", None).message(),
        "http://h/x returned 500: boom"
    );
    assert_eq!(
        response_error_with_body("http://h/x", 404, Some("Not Found"), "   ", None).message(),
        "http://h/x returned 404: Not Found"
    );
    assert_eq!(
        response_error_with_body("http://h/x", 599, None, "", Some(&JsonValue::Null)).message(),
        "http://h/x returned 599: unknown error"
    );
}

#[test]
fn error_answer_bodies_are_read_as_json() {
    assert_eq!(
        response_error(
            "http://h/x",
            409,
            Some("Conflict"),
            r#"{"error":{"message":"intent not blocked"}}"#
        )
        .message(),
        "http://h/x returned 409: intent not blocked"
    );
    assert_eq!(
        response_error("http://h/x", 400, Some("Bad Request"), r#" {"error":{"message":7}} "#).message(),
        r#"http://h/x returned 400: {"error":{"message":7}}"#
    );
    assert_eq!(
        response_error("http://h/x", 500, Some("Internal Server Error"), "  boom \n").message(),
        "http://h/x returned 500: boom"
    );
    assert_eq!(response_error("http://h/x", 599, None, "").message(), "http://h/x returned 599: unknown error");
}
