//! Wire text: command JSON, params objects, the handshake, endpoint
//! discovery, errors, and string helpers.

use eoka::cdp_types::{
    BrowserGetVersion, DOMGetDocument, DOMQuerySelector, InputInsertText, PageNavigate,
    TargetAttachToTarget, TargetCreateTarget,
};
use eoka::error::Error;
use eoka::handshake::{build_handshake_request, extract_ws_url, handshake_accepted, handshake_key, split_ws_url};
use eoka::page_util::{escape_js_string, handle_try_result, response_body_from_parts, ResponseBody};
use eoka::cookies::{cookie_header_of, domain_matches};
use eoka::wire::build_command_json;

#[test]
fn test_command_json_without_session() {
    let json = build_command_json(1, "Browser.getVersion", "{}", None);
    assert_eq!(json, "{\"id\":1,\"method\":\"Browser.getVersion\",\"params\":{}}");
}

#[test]
fn test_command_json_with_session() {
    let json = build_command_json(42, "Page.navigate", "{\"url\":\"https://example.com\"}", Some("SESSION"));
    assert_eq!(
        json,
        "{\"id\":42,\"method\":\"Page.navigate\",\"params\":{\"url\":\"https://example.com\"},\"sessionId\":\"SESSION\"}"
    );
}

#[test]
fn test_command_json_escapes_strings() {
    let json = build_command_json(3, "a\"b\\c", "{}", Some("s\nid"));
    assert_eq!(json, "{\"id\":3,\"method\":\"a\\\"b\\\\c\",\"params\":{},\"sessionId\":\"s\\nid\"}");
}

#[test]
fn test_command_json_escapes_control_characters() {
    // The five named short escapes, and \u00xx for the rest of the
    // control range, exactly as a JSON serializer writes them.
    let json = build_command_json(1, "a\u{8}b\u{c}c\td", "{}", Some("x\u{1}y\u{1f}z"));
    assert_eq!(
        json,
        "{\"id\":1,\"method\":\"a\\bb\\fc\\td\",\"params\":{},\"sessionId\":\"x\\u0001y\\u001fz\"}"
    );
    let parsed: serde_json::Value = serde_json::from_str(&json).unwrap();
    assert_eq!(parsed.get("method").and_then(|m| m.as_str()), Some("a\u{8}b\u{c}c\td"));
    assert_eq!(parsed.get("sessionId").and_then(|m| m.as_str()), Some("x\u{1}y\u{1f}z"));
}

#[test]
fn test_params_json_builders() {
    let create = TargetCreateTarget {
        url: "about:blank".to_string(),
        width: Some(800),
        height: None,
        browser_context_id: None,
        new_window: Some(false),
        background: None,
    };
    assert_eq!(create.params_json(), "{\"url\":\"about:blank\",\"width\":800,\"newWindow\":false}");

    let attach = TargetAttachToTarget { target_id: "T1".to_string(), flatten: Some(true) };
    assert_eq!(attach.params_json(), "{\"targetId\":\"T1\",\"flatten\":true}");

    let nav = PageNavigate {
        url: "https://example.com".to_string(),
        referrer: None,
        transition_type: None,
        frame_id: None,
    };
    assert_eq!(nav.params_json(), "{\"url\":\"https://example.com\"}");

    let doc = DOMGetDocument { depth: Some(-1), pierce: Some(true) };
    assert_eq!(doc.params_json(), "{\"depth\":-1,\"pierce\":true}");

    let q = DOMQuerySelector { node_id: 12, selector: "#a > b".to_string() };
    assert_eq!(q.params_json(), "{\"nodeId\":12,\"selector\":\"#a > b\"}");

    let t = InputInsertText { text: "hi".to_string() };
    assert_eq!(t.params_json(), "{\"text\":\"hi\"}");

    assert_eq!(BrowserGetVersion {}.params_json(), "{}");
}

#[test]
fn test_handshake_request_text() {
    let req = build_handshake_request("/devtools/browser/x", "127.0.0.1:9222", "KEY123");
    assert_eq!(
        req,
        "GET /devtools/browser/x HTTP/1.1\r\nHost: 127.0.0.1:9222\r\nUpgrade: websocket\r\nConnection: Upgrade\r\nSec-WebSocket-Key: KEY123\r\nSec-WebSocket-Version: 13\r\n\r\n"
    );
}

#[test]
fn test_handshake_acceptance() {
    assert!(handshake_accepted("HTTP/1.1 101 Switching Protocols\r\n"));
    assert!(!handshake_accepted("HTTP/1.1 404 Not Found\r\n"));
}

#[test]
fn test_handshake_key_length() {
    // Sixteen random bytes always base64-encode to 24 characters.
    assert_eq!(handshake_key().len(), 24);
    assert_ne!(handshake_key(), handshake_key());
}

#[test]
fn test_split_ws_url() {
    let (host, path) = split_ws_url("ws://127.0.0.1:9222/devtools/browser/abc");
    assert_eq!(host, "127.0.0.1:9222");
    assert_eq!(path, "/devtools/browser/abc");
    let (host, path) = split_ws_url("ws://localhost:1234");
    assert_eq!(host, "localhost:1234");
    assert_eq!(path, "/");
}

#[test]
fn test_extract_ws_url() {
    let line = "DevTools listening on ws://127.0.0.1:9222/devtools/browser/abc \r";
    assert_eq!(extract_ws_url(line).as_deref(), Some("ws://127.0.0.1:9222/devtools/browser/abc"));
    assert!(extract_ws_url("something else entirely").is_none());
    assert!(extract_ws_url("DevTools listening on nothing").is_none());
}

#[test]
fn test_escape_js_string() {
    assert_eq!(escape_js_string("plain"), "plain");
    assert_eq!(escape_js_string("a'b\"c`d"), "a\\'b\\\"c\\`d");
    assert_eq!(escape_js_string("line\nbreak\r"), "line\\nbreak\\r");
    assert_eq!(escape_js_string("back\\slash"), "back\\\\slash");
    assert_eq!(escape_js_string("${tpl}"), "\\${tpl}");
    assert_eq!(escape_js_string("a$b{c"), "a$b{c");
    assert_eq!(escape_js_string("$${x}"), "$\\${x}");
}

#[test]
fn test_handle_try_result_rule() {
    assert_eq!(handle_try_result(Ok(())).unwrap(), true);
    assert_eq!(handle_try_result(Err(Error::cdp("m", -1, "x"))).unwrap(), false);
    assert_eq!(handle_try_result(Err(Error::ElementNotFound("#a".to_string()))).unwrap(), false);
    assert!(handle_try_result(Err(Error::Timeout("t".to_string()))).is_err());
}

#[test]
fn test_error_clarify_and_visibility() {
    let e = Error::cdp("DOM.getBoxModel", -32000, "Could not compute box model.");
    assert!(e.is_not_visible());
    match e.clarify("#btn") {
        Error::ElementNotVisible { selector } => assert_eq!(selector, "#btn"),
        other => panic!("expected a not-visible clarification, got {:?}", other),
    }
    let t = Error::transport("socket closed");
    assert!(!t.is_not_visible());
    match t.clarify("#btn") {
        Error::Transport { context, source } => {
            assert_eq!(context, "socket closed");
            assert!(source.is_none());
        }
        other => panic!("transport errors pass through clarify, got {:?}", other),
    }
    match Error::transport_io("write failed", "broken pipe") {
        Error::Transport { context, source } => {
            assert_eq!(context, "write failed");
            assert_eq!(source.as_deref(), Some("broken pipe"));
        }
        other => panic!("unexpected {:?}", other),
    }
}

#[test]
fn test_response_body_decoding() {
    let text = response_body_from_parts("hello".to_string(), false).unwrap();
    assert_eq!(text.as_text(), Some("hello"));
    assert_eq!(text.as_bytes(), b"hello");

    let binary = response_body_from_parts("aGVsbG8=".to_string(), true).unwrap();
    assert!(binary.as_text().is_none());
    assert_eq!(binary.as_bytes(), b"hello");

    match response_body_from_parts("not base64 at all!!!".to_string(), true) {
        Err(Error::Decode(_)) => {}
        other => panic!("invalid base64 must be a decode error, got {:?}", other),
    }

    match ResponseBody::Binary(vec![1, 2, 3]).as_bytes() {
        b => assert_eq!(b, &[1, 2, 3]),
    }
}

#[test]
fn test_cookie_header_formatting() {
    let pairs = vec![("a".to_string(), "1".to_string()), ("b".to_string(), "2".to_string())];
    assert_eq!(cookie_header_of(&pairs), "a=1; b=2");
    assert_eq!(cookie_header_of(&vec![]), "");
    assert_eq!(cookie_header_of(&vec![("k".to_string(), "v".to_string())]), "k=v");

    assert!(domain_matches("sub.example.com", "example.com"));
    assert!(domain_matches("example.com", "sub.example.com"));
    assert!(!domain_matches("example.com", "other.com"));
    assert!(domain_matches("example.com", "example.com"));
}
