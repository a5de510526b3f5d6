//! Scenario tests against the classification and resolution path: a fake
//! server's replies drive the same code the reader loop runs.

use eoka::dispatch::{DispatchCore, SendPrep};
use eoka::envelope::{classify_text, CdpMessage};
use eoka::error::Error;
use eoka::router::{CdpEvent, EventRouter};

#[test]
fn test_version_query_scenario() {
    // The caller sends a version query; the fake server accepts the
    // handshake and answers id 1 with a product string.
    assert!(eoka::handshake::handshake_accepted("HTTP/1.1 101 Switching Protocols\r\n\r\n"));
    let mut core: DispatchCore<&'static str> = DispatchCore::new();
    let mask: [u8; 4] = [0, 0, 0, 0];
    let id = match core.prepare_send("Browser.getVersion", "{}", None, "waiter", &mask) {
        SendPrep::Send { id, .. } => id,
        SendPrep::Blocked { .. } => panic!("version query is allowed"),
    };
    assert_eq!(id, 1);
    let reply = "{\"id\":1,\"result\":{\"product\":\"Chrome/1.0\"}}";
    match classify_text(reply) {
        Some(CdpMessage::Response { id: rid, result }) => {
            assert_eq!(rid, 1);
            let value = result.expect("reply carries no error");
            assert_eq!(core.resolve(rid), Some("waiter"));
            let product = value.get("product").and_then(|p| p.as_str()).unwrap();
            assert_eq!(product, "Chrome/1.0");
        }
        _ => panic!("a reply with an id classifies as a response"),
    }
}

#[test]
fn test_unanswered_command_stays_pending() {
    // The server never answers id 1, then answers id 2 with {}.
    let mut core: DispatchCore<u8> = DispatchCore::new();
    let mask: [u8; 4] = [0, 0, 0, 0];
    let id1 = match core.prepare_send("Page.enable", "{}", None, 1, &mask) {
        SendPrep::Send { id, .. } => id,
        _ => panic!(),
    };
    let id2 = match core.prepare_send("Page.navigate", "{}", None, 2, &mask) {
        SendPrep::Send { id, .. } => id,
        _ => panic!(),
    };
    match classify_text("{\"id\":2,\"result\":{}}") {
        Some(CdpMessage::Response { id, result }) => {
            assert_eq!(id, id2);
            assert!(result.is_ok());
            assert_eq!(core.resolve(id), Some(2));
        }
        _ => panic!("id 2 must classify as a response"),
    }
    // Call 1 stays pending; no corruption.
    assert!(core.pending.contains(id1));
    assert_eq!(core.pending.len(), 1);
}

#[test]
fn test_error_reply_classifies_as_protocol_error() {
    let reply = "{\"id\":7,\"error\":{\"code\":-32000,\"message\":\"No target with given id\"}}";
    match classify_text(reply) {
        Some(CdpMessage::Response { id, result }) => {
            assert_eq!(id, 7);
            match result {
                Err(Error::Cdp { method, code, message }) => {
                    assert_eq!(method, "unknown");
                    assert_eq!(code, -32000);
                    assert_eq!(message, "No target with given id");
                }
                _ => panic!("an error member classifies as a protocol error"),
            }
        }
        _ => panic!("a reply with an id classifies as a response"),
    }
}

#[test]
fn test_event_classification() {
    let text = "{\"method\":\"Page.loadEventFired\",\"params\":{\"timestamp\":1.0},\"sessionId\":\"S1\"}";
    match classify_text(text) {
        Some(CdpMessage::Event { method, session_id, .. }) => {
            assert_eq!(method, "Page.loadEventFired");
            assert_eq!(session_id.as_deref(), Some("S1"));
        }
        _ => panic!("an id-less message with a method classifies as an event"),
    }
}

#[test]
fn test_malformed_input_is_dropped_not_fatal() {
    assert!(classify_text("this is not json").is_none());
    assert!(classify_text("{}").is_none());
    assert!(classify_text("{\"neither\":true}").is_none());
}

#[test]
fn test_session_routing() {
    // Two sessions on one transport: each receives only events carrying
    // its own session id; session-less events go to the connection level.
    let mut router = EventRouter::new();
    router.attach("s1");
    router.attach("s2");
    let ev = |sid: Option<&str>, m: &str| {
        match classify_text(&match sid {
            Some(s) => format!("{{\"method\":\"{}\",\"params\":{{}},\"sessionId\":\"{}\"}}", m, s),
            None => format!("{{\"method\":\"{}\",\"params\":{{}}}}", m),
        }) {
            Some(CdpMessage::Event { method, params, session_id }) => CdpEvent { method, params, session_id },
            _ => panic!("event text must classify"),
        }
    };
    router.route(ev(Some("s1"), "Page.loadEventFired"));
    router.route(ev(Some("s2"), "Page.frameNavigated"));
    router.route(ev(Some("s1"), "Network.responseReceived"));
    router.route(ev(None, "Target.targetCreated"));
    router.route(ev(Some("unknown"), "Page.loadEventFired"));

    let s1 = router.take_session_events("s1").unwrap();
    assert_eq!(s1.len(), 2);
    assert_eq!(s1[0].method, "Page.loadEventFired");
    assert_eq!(s1[1].method, "Network.responseReceived");
    assert!(s1.iter().all(|e| e.session_id.as_deref() == Some("s1")));

    let s2 = router.take_session_events("s2").unwrap();
    assert_eq!(s2.len(), 1);
    assert_eq!(s2[0].method, "Page.frameNavigated");

    let conn = router.take_connection_events();
    assert_eq!(conn.len(), 1);
    assert_eq!(conn[0].method, "Target.targetCreated");
    assert!(conn[0].session_id.is_none());

    // Taking drains the queues.
    assert_eq!(router.take_session_events("s1").unwrap().len(), 0);
    assert!(router.take_session_events("nope").is_none());
}

#[test]
fn test_absent_result_defaults_to_empty_object() {
    match classify_text("{\"id\":5}") {
        Some(CdpMessage::Response { id, result }) => {
            assert_eq!(id, 5);
            let value = result.expect("no error member, so success");
            assert_eq!(value, serde_json::Value::Object(serde_json::Map::new()));
        }
        _ => panic!("an id alone still classifies as a response"),
    }
    match classify_text("{\"method\":\"Page.loadEventFired\"}") {
        Some(CdpMessage::Event { params, session_id, .. }) => {
            assert_eq!(params, serde_json::Value::Object(serde_json::Map::new()));
            assert!(session_id.is_none());
        }
        _ => panic!("a method alone still classifies as an event"),
    }
}
