use webhook_listener::channel::UpdateChannel;
use webhook_listener::status::Status;
use webhook_listener::stop::StopSignal;
use webhook_listener::webhook::{Outcome, Webhook};

fn decode(body: &str) -> Option<serde_json::Value> {
    serde_json::from_str(body).ok()
}

fn header(s: &str) -> Option<Vec<u8>> {
    Some(s.as_bytes().to_vec())
}

#[test]
fn no_secret_valid_update_is_delivered() {
    let mut hook = Webhook::new(None);
    let body = decode(r#"{"update_id":1,"message":{"text":"hi"}}"#);
    let outcome = hook.handle_request(None, body);
    assert_eq!(outcome, Outcome::Queued);
    assert_eq!(outcome.status().code(), 200);
    let update = hook.next_update().expect("one update queued");
    assert_eq!(update["update_id"].as_i64(), Some(1));
    assert!(hook.next_update().is_none());
}

#[test]
fn wrong_secret_is_unauthorized() {
    let mut hook = Webhook::new(Some(b"abc".to_vec()));
    let outcome = hook.handle_request(header("xyz"), decode(r#"{"update_id":1}"#));
    assert_eq!(outcome, Outcome::Unauthorized);
    assert_eq!(outcome.status().code(), 401);
    assert_eq!(hook.pending_len(), 0);
}

#[test]
fn request_after_stop_is_unavailable_and_closes() {
    let mut hook = Webhook::new(None);
    hook.stop();
    assert!(hook.is_open());
    let outcome = hook.handle_request(None, decode(r#"{"update_id":7}"#));
    assert_eq!(outcome, Outcome::Unavailable);
    assert_eq!(outcome.status().code(), 503);
    assert_eq!(hook.pending_len(), 0);
    assert!(!hook.is_open());
}

#[test]
fn updates_arrive_in_order_without_malformed_ones() {
    let mut hook = Webhook::new(Some(b"s3cr-et_".to_vec()));
    let bodies = [r#"{"update_id":1}"#, "not json", r#"{"update_id":2}"#, "{", r#"{"update_id":3}"#];
    let mut diagnostics = 0;
    for b in bodies {
        let outcome = hook.handle_request(header("s3cr-et_"), decode(b));
        assert_eq!(outcome.status(), Status::Accepted);
        if outcome.needs_diagnostic() {
            diagnostics += 1;
        }
    }
    assert_eq!(diagnostics, 2);
    let mut ids = Vec::new();
    while let Some(u) = hook.next_update() {
        ids.push(u["update_id"].as_i64().unwrap());
    }
    assert_eq!(ids, vec![1, 2, 3]);
}

#[test]
fn stop_twice_is_stop_once() {
    let mut hook: Webhook<i64> = Webhook::new(None);
    assert!(!hook.is_stopped());
    hook.stop();
    hook.stop();
    hook.stop();
    assert!(hook.is_stopped());
    assert_eq!(hook.handle_request(None, Some(5)), Outcome::Unavailable);
    assert!(hook.is_stopped());
}

#[test]
fn stop_signal_latches() {
    let mut s = StopSignal::new();
    assert!(!s.is_stopped());
    s.stop();
    assert!(s.is_stopped());
    s.stop();
    assert!(s.is_stopped());
}

#[test]
fn closed_webhook_refuses_everything() {
    let mut hook: Webhook<i64> = Webhook::new(None);
    hook.close();
    hook.close();
    for id in 0..4 {
        assert_eq!(hook.handle_request(None, Some(id)), Outcome::Unavailable);
    }
    assert!(!hook.is_open());
    assert_eq!(hook.pending_len(), 0);
    assert!(hook.is_finished());
}

#[test]
fn closing_keeps_buffered_updates() {
    let mut hook: Webhook<i64> = Webhook::new(None);
    assert_eq!(hook.handle_request(None, Some(10)), Outcome::Queued);
    assert_eq!(hook.handle_request(None, Some(11)), Outcome::Queued);
    hook.stop();
    assert_eq!(hook.handle_request(None, Some(12)), Outcome::Unavailable);
    assert!(!hook.is_finished());
    assert_eq!(hook.next_update(), Some(10));
    assert_eq!(hook.next_update(), Some(11));
    assert_eq!(hook.next_update(), None);
    assert!(hook.is_finished());
}

#[test]
fn no_secret_no_header_depends_on_state_only() {
    let mut hook: Webhook<i64> = Webhook::new(None);
    assert_eq!(hook.handle_request(None, None).status().code(), 200);
    assert_eq!(hook.handle_request(None, Some(1)).status().code(), 200);
    hook.close();
    assert_eq!(hook.handle_request(None, Some(1)).status().code(), 503);
    assert_eq!(hook.handle_request(None, None).status().code(), 503);
}

#[test]
fn header_without_configured_secret_is_unauthorized() {
    let mut hook: Webhook<i64> = Webhook::new(None);
    assert_eq!(hook.handle_request(header("abc"), Some(1)), Outcome::Unauthorized);
    assert_eq!(hook.pending_len(), 0);
}

#[test]
fn missing_header_with_configured_secret_is_unauthorized() {
    let mut hook: Webhook<i64> = Webhook::new(Some(b"abc".to_vec()));
    assert_eq!(hook.handle_request(None, Some(1)), Outcome::Unauthorized);
    assert_eq!(hook.handle_request(header("abc"), Some(1)), Outcome::Queued);
    assert_eq!(hook.pending_len(), 1);
}

#[test]
fn malformed_header_is_unauthorized() {
    let mut hook: Webhook<i64> = Webhook::new(Some(b"a b".to_vec()));
    assert_eq!(hook.handle_request(header("a b"), Some(1)), Outcome::Unauthorized);
    assert_eq!(hook.handle_request(header(""), Some(1)), Outcome::Unauthorized);
}

#[test]
fn unauthorized_is_checked_before_availability() {
    let mut hook: Webhook<i64> = Webhook::new(Some(b"abc".to_vec()));
    hook.stop();
    assert_eq!(hook.handle_request(header("xyz"), Some(1)), Outcome::Unauthorized);
    assert!(hook.is_open());
    assert_eq!(hook.handle_request(header("abc"), Some(1)), Outcome::Unavailable);
    assert!(!hook.is_open());
}

#[test]
fn malformed_body_is_dropped_with_one_diagnostic() {
    let mut hook: Webhook<serde_json::Value> = Webhook::new(None);
    let outcome = hook.handle_request(None, decode("{\"update_id\": "));
    assert_eq!(outcome, Outcome::Dropped);
    assert!(outcome.needs_diagnostic());
    assert_eq!(outcome.status().code(), 200);
    assert_eq!(hook.pending_len(), 0);
    assert!(!Outcome::Queued.needs_diagnostic());
    assert!(!Outcome::Unauthorized.needs_diagnostic());
    assert!(!Outcome::Unavailable.needs_diagnostic());
}

#[test]
fn channel_send_recv_close() {
    let mut ch: UpdateChannel<u8> = UpdateChannel::new();
    assert!(ch.is_open());
    ch.send(1);
    ch.send(2);
    ch.close();
    assert!(!ch.is_open());
    assert_eq!(ch.len(), 2);
    assert!(!ch.is_finished());
    assert_eq!(ch.recv(), Some(1));
    assert_eq!(ch.recv(), Some(2));
    assert_eq!(ch.recv(), None);
    assert!(ch.is_finished());
}

#[test]
fn json_body_is_decoded_after_checks() {
    let mut hook: Webhook<serde_json::Value> = Webhook::new(None);
    let (outcome, error) = hook.handle_json(None, r#"{"update_id":1,"message":{}}"#);
    assert_eq!(outcome, Outcome::Queued);
    assert!(error.is_none());
    let update = hook.next_update().unwrap();
    assert_eq!(update["update_id"].as_i64(), Some(1));
}

#[test]
fn json_malformed_body_reports_its_error() {
    let mut hook: Webhook<serde_json::Value> = Webhook::new(None);
    let (outcome, error) = hook.handle_json(None, "{\"update_id\":");
    assert_eq!(outcome, Outcome::Dropped);
    assert_eq!(outcome.status().code(), 200);
    assert!(error.is_some());
    assert_eq!(hook.pending_len(), 0);
}

#[test]
fn json_refused_request_is_not_decoded() {
    let mut hook: Webhook<serde_json::Value> = Webhook::new(Some(b"abc".to_vec()));
    let (outcome, error) = hook.handle_json(header("xyz"), "not json");
    assert_eq!(outcome, Outcome::Unauthorized);
    assert!(error.is_none());
    hook.stop();
    let (outcome, error) = hook.handle_json(header("abc"), "not json");
    assert_eq!(outcome, Outcome::Unavailable);
    assert!(error.is_none());
    assert!(!hook.is_open());
}

#[test]
fn screen_then_deliver() {
    let mut hook: Webhook<i64> = Webhook::new(Some(b"k".to_vec()));
    assert_eq!(hook.screen(header("j")), Some(Outcome::Unauthorized));
    assert_eq!(hook.screen(header("k")), None);
    assert_eq!(hook.deliver(Some(4)), Outcome::Queued);
    assert_eq!(hook.deliver(None), Outcome::Dropped);
    assert_eq!(hook.pending_len(), 1);
    hook.close();
    assert_eq!(hook.screen(header("k")), Some(Outcome::Unavailable));
}
