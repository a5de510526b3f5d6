//! Dispatcher behaviour: id allocation, the stealth short-circuit, the
//! pending table's exactly-once resolution, and out-of-order completion.

use eoka::dispatch::{DispatchCore, SendPrep};
use eoka::frame::{decode_frame, FrameDecode};

fn send_ok(core: &mut DispatchCore<u32>, method: &str, waiter: u32) -> (u64, Vec<u8>) {
    let mask: [u8; 4] = [7, 7, 7, 7];
    match core.prepare_send(method, "{}", None, waiter, &mask) {
        SendPrep::Send { id, frame, .. } => (id, frame),
        SendPrep::Blocked { .. } => panic!("method {} was unexpectedly blocked", method),
    }
}

#[test]
fn test_ids_distinct_and_increasing() {
    let mut core: DispatchCore<u32> = DispatchCore::new();
    let mut ids: Vec<u64> = Vec::new();
    for i in 0..20u32 {
        let (id, _) = send_ok(&mut core, "Page.navigate", i);
        ids.push(id);
    }
    for w in ids.windows(2) {
        assert!(w[0] < w[1]);
    }
    let mut sorted = ids.clone();
    sorted.dedup();
    assert_eq!(sorted.len(), 20);
    assert_eq!(ids[0], 1);
}

#[test]
fn test_blocked_method_writes_no_frame() {
    let mut core: DispatchCore<u32> = DispatchCore::new();
    let mask: [u8; 4] = [0, 0, 0, 0];
    let mut frames_written: usize = 0;
    match core.prepare_send("Runtime.enable", "{}", None, 5, &mask) {
        SendPrep::Blocked { waiter } => {
            assert_eq!(waiter, 5);
        }
        SendPrep::Send { .. } => {
            frames_written += 1;
        }
    }
    assert_eq!(frames_written, 0);
    // The short-circuit consumed no id: the next real send still gets 1.
    let (id, _) = send_ok(&mut core, "Page.enable", 6);
    assert_eq!(id, 1);
    assert!(core.resolve(id).is_some());
}

#[test]
fn test_risky_method_is_flagged_but_sent() {
    let mut core: DispatchCore<u32> = DispatchCore::new();
    let mask: [u8; 4] = [0, 0, 0, 0];
    match core.prepare_send("Page.setBypassCSP", "{}", None, 1, &mask) {
        SendPrep::Send { risky, .. } => assert!(risky),
        SendPrep::Blocked { .. } => panic!("risky method must still be sent"),
    }
    match core.prepare_send("Page.navigate", "{}", None, 2, &mask) {
        SendPrep::Send { risky, .. } => assert!(!risky),
        SendPrep::Blocked { .. } => panic!("allowed method must be sent"),
    }
}

#[test]
fn test_duplicate_resolution_is_noop() {
    let mut core: DispatchCore<u32> = DispatchCore::new();
    let (id, _) = send_ok(&mut core, "Page.navigate", 11);
    assert_eq!(core.resolve(id), Some(11));
    // The entry is gone: a duplicate response resolves nothing.
    assert_eq!(core.resolve(id), None);
    assert_eq!(core.resolve(id), None);
}

#[test]
fn test_out_of_order_completion() {
    let mut core: DispatchCore<u32> = DispatchCore::new();
    let (id_a, _) = send_ok(&mut core, "Page.navigate", 100);
    let (id_b, _) = send_ok(&mut core, "Page.enable", 200);
    // B's response arrives first: B resolves, A remains pending.
    assert_eq!(core.resolve(id_b), Some(200));
    assert!(core.pending.contains(id_a));
    assert_eq!(core.resolve(id_a), Some(100));
}

#[test]
fn test_unmatched_response_is_dropped_silently() {
    let mut core: DispatchCore<u32> = DispatchCore::new();
    let (_id, _) = send_ok(&mut core, "Page.navigate", 1);
    assert_eq!(core.resolve(999), None);
    assert_eq!(core.pending.len(), 1);
}

#[test]
fn test_frame_carries_the_command_json() {
    let mut core: DispatchCore<u32> = DispatchCore::new();
    let mask: [u8; 4] = [3, 1, 4, 1];
    let prep = core.prepare_send("Page.navigate", "{\"url\":\"https://example.com\"}", Some("sess-1"), 9, &mask);
    let frame = match prep {
        SendPrep::Send { frame, .. } => frame,
        SendPrep::Blocked { .. } => panic!("navigate is allowed"),
    };
    match decode_frame(&frame) {
        FrameDecode::Complete { payload, .. } => {
            let text = String::from_utf8(payload).unwrap();
            assert_eq!(
                text,
                "{\"id\":1,\"method\":\"Page.navigate\",\"params\":{\"url\":\"https://example.com\"},\"sessionId\":\"sess-1\"}"
            );
        }
        FrameDecode::Incomplete => panic!("produced frame must decode"),
    }
}

#[test]
fn test_drain_empties_pending() {
    let mut core: DispatchCore<u32> = DispatchCore::new();
    send_ok(&mut core, "Page.navigate", 1);
    send_ok(&mut core, "Page.enable", 2);
    let waiters = core.drain();
    assert_eq!(waiters.len(), 2);
    assert_eq!(core.pending.len(), 0);
    // Ids are not reused after tear-down.
    let (id, _) = send_ok(&mut core, "Page.navigate", 3);
    assert_eq!(id, 3);
}
