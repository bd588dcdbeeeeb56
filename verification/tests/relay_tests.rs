use resilience_core::{EmitDisposition, EventRelay};

fn emit_queued(relay: &mut EventRelay, name: &str, payload: &str) {
    match relay.emit(name.to_string(), payload.to_string()) {
        EmitDisposition::Queued => {}
        EmitDisposition::Deliver(e) => panic!("event {} delivered instead of queued", e.name),
    }
}

#[test]
fn events_before_ready_flush_in_emission_order() {
    let mut relay = EventRelay::new();
    assert!(!relay.is_ready());
    emit_queued(&mut relay, "first", "1");
    emit_queued(&mut relay, "second", "2");
    emit_queued(&mut relay, "third", "3");
    let flushed = relay.set_ready();
    let names: Vec<&str> = flushed.iter().map(|e| e.name.as_str()).collect();
    assert_eq!(names, vec!["first", "second", "third"]);
    assert!(relay.is_ready());
}

#[test]
fn set_ready_is_idempotent() {
    let mut relay = EventRelay::new();
    emit_queued(&mut relay, "queued", "{}");
    assert_eq!(relay.set_ready().len(), 1);
    // The second ready signal flushes nothing and readiness stays set.
    assert_eq!(relay.set_ready().len(), 0);
    assert!(relay.is_ready());
}

#[test]
fn events_after_ready_bypass_the_queue() {
    let mut relay = EventRelay::new();
    relay.set_ready();
    match relay.emit("now".to_string(), "{}".to_string()) {
        EmitDisposition::Deliver(e) => {
            assert_eq!(e.name, "now");
            assert_eq!(e.payload, "{}");
        }
        EmitDisposition::Queued => panic!("event queued after ready"),
    }
    // Nothing was queued: a later ready signal flushes nothing.
    assert_eq!(relay.set_ready().len(), 0);
}

#[test]
fn overflow_drops_exactly_the_oldest() {
    let mut relay = EventRelay::new();
    for i in 0..1000 {
        emit_queued(&mut relay, &format!("event-{i}"), "{}");
    }
    // The 1001st event drops exactly the oldest, leaving 1000 entries with
    // the newest present.
    emit_queued(&mut relay, "event-1000", "{}");
    let flushed = relay.set_ready();
    assert_eq!(flushed.len(), 1000);
    assert_eq!(flushed[0].name, "event-1");
    assert_eq!(flushed[999].name, "event-1000");
    assert!(!flushed.iter().any(|e| e.name == "event-0"));
}
