use ssh_cli::error::SshError;
use ssh_cli::sync::{check_sync_status, handle_request, receive_url, SyncMethod, SYNC_PORT};

#[test]
fn get_root_serves_the_store_bytes() {
    let (resp, update) = handle_request(SyncMethod::Get, "/", "", "the whole store");
    assert_eq!(resp.status, 200);
    assert_eq!(resp.body, "the whole store");
    assert!(update.is_none());
}

#[test]
fn post_receive_overwrites_the_store() {
    let (resp, update) = handle_request(SyncMethod::Post, "/receive", "new store bytes", "old");
    assert_eq!(resp.status, 200);
    assert_eq!(resp.body, "ok");
    assert_eq!(update.as_deref(), Some("new store bytes"));
}

#[test]
fn sync_round_trip_returns_exactly_what_was_sent() {
    let sent = "{\"entries\":[{\"name\":\"a\"}]}";
    let store = "stale";
    let (resp, update) = handle_request(SyncMethod::Post, "/receive", sent, store);
    assert_eq!(resp.status, 200);
    let store = update.expect("a write must replace the store");
    assert_eq!(store, sent);
    let (resp, update) = handle_request(SyncMethod::Get, "/", "", &store);
    assert_eq!(resp.status, 200);
    assert_eq!(resp.body, sent);
    assert!(update.is_none());
}

#[test]
fn anything_else_is_not_found() {
    for (method, url) in [
        (SyncMethod::Get, "/receive"),
        (SyncMethod::Post, "/"),
        (SyncMethod::Get, "/other"),
        (SyncMethod::Post, "/receive/x"),
        (SyncMethod::OtherMethod, "/"),
        (SyncMethod::OtherMethod, "/receive"),
        (SyncMethod::OtherMethod, "/anything"),
    ] {
        let (resp, update) = handle_request(method, url, "body", "store");
        assert_eq!(resp.status, 404, "{:?} {} must be 404", method, url);
        assert_eq!(resp.body, "404");
        assert!(update.is_none(), "{:?} {} must not write", method, url);
    }
}

#[test]
fn send_targets_the_fixed_receive_endpoint() {
    assert_eq!(receive_url("192.0.2.9"), "http://192.0.2.9:8080/receive");
    assert_eq!(SYNC_PORT, 8080);
}

#[test]
fn error_statuses_reject_the_sync() {
    assert_eq!(check_sync_status(200), Ok(()));
    assert_eq!(check_sync_status(399), Ok(()));
    assert_eq!(check_sync_status(400), Err(SshError::SyncRejected(400)));
    assert_eq!(check_sync_status(500), Err(SshError::SyncRejected(500)));
}
