use upstream_sync::envelope::{decode, decode_messages, encode};
use upstream_sync::errors::SyncError;

#[test]
fn encode_decode_round_trip() {
    let message = encode("peer-a", "{\"kind\":\"comment\",\"n\":7}").unwrap();
    let envelope = decode(message.as_bytes()).unwrap();
    assert_eq!(envelope.peer_id, "peer-a");
    let payload: serde_json::Value = serde_json::from_str(&envelope.event).unwrap();
    assert_eq!(payload["kind"], serde_json::Value::String("comment".to_string()));
    assert_eq!(payload["n"], serde_json::Value::from(7u32));
}

#[test]
fn encode_is_self_describing() {
    // The message itself is a structured document holding both fields.
    let message = encode("peer-a", "[1,2,3]").unwrap();
    let document: serde_json::Value = serde_json::from_str(&message).unwrap();
    assert_eq!(document["peer_id"], serde_json::Value::String("peer-a".to_string()));
    assert_eq!(document["event"], serde_json::from_str::<serde_json::Value>("[1,2,3]").unwrap());
}

#[test]
fn encode_rejects_malformed_payload() {
    assert_eq!(encode("peer-a", "not structured").unwrap_err(), SyncError::MalformedEnvelope);
}

#[test]
fn decode_rejects_unstructured_bytes() {
    assert_eq!(decode("garbage".as_bytes()).unwrap_err(), SyncError::MalformedEnvelope);
}

#[test]
fn decode_rejects_missing_fields() {
    assert_eq!(decode("{}".as_bytes()).unwrap_err(), SyncError::MalformedEnvelope);
    assert_eq!(
        decode("{\"peer_id\":\"p\"}".as_bytes()).unwrap_err(),
        SyncError::MalformedEnvelope
    );
    assert_eq!(
        decode("{\"peer_id\":7,\"event\":1}".as_bytes()).unwrap_err(),
        SyncError::MalformedEnvelope
    );
}

#[test]
fn decode_messages_keeps_order_and_aborts_on_bad_entry() {
    let first = encode("peer-a", "1").unwrap().into_bytes();
    let second = encode("peer-b", "2").unwrap().into_bytes();
    let envelopes = decode_messages(&vec![first.clone(), second.clone()]).unwrap();
    assert_eq!(envelopes.len(), 2);
    assert_eq!(envelopes[0].peer_id, "peer-a");
    assert_eq!(envelopes[0].event, "1");
    assert_eq!(envelopes[1].peer_id, "peer-b");
    assert_eq!(envelopes[1].event, "2");

    let with_bad = vec![first, "broken".as_bytes().to_vec(), second];
    assert_eq!(decode_messages(&with_bad).unwrap_err(), SyncError::MalformedEnvelope);
}

#[test]
fn codec_round_trip_function() {
    let envelope = upstream_sync::envelope::codec_round_trip("peer-a", " {\"n\": 7} ").unwrap();
    assert_eq!(envelope.peer_id, "peer-a");
    // The payload comes back in its canonical rendering.
    assert_eq!(envelope.event, "{\"n\":7}");

    assert!(upstream_sync::envelope::codec_round_trip("peer-a", "not structured").is_none());
}

#[test]
fn deeply_nested_payload_is_rejected_not_poisoned() {
    // The deepest nesting the parser accepts for a standalone document.
    let mut deepest: usize = 0;
    for d in 1..400 {
        let text = format!("{}{}", "[".repeat(d), "]".repeat(d));
        if serde_json::from_str::<serde_json::Value>(&text).is_ok() {
            deepest = d;
        } else {
            break;
        }
    }
    assert!(deepest > 2);

    // A payload at the limit parses on its own, but its envelope would lie
    // one level deeper than the parser reads: the codec rejects it up front
    // instead of committing a message no read could decode.
    let at_limit = format!("{}{}", "[".repeat(deepest), "]".repeat(deepest));
    assert_eq!(encode("peer-a", &at_limit).unwrap_err(), SyncError::MalformedEnvelope);

    // One level inside the limit round-trips.
    let inside_limit = format!("{}{}", "[".repeat(deepest - 1), "]".repeat(deepest - 1));
    let message = encode("peer-a", &inside_limit).unwrap();
    let envelope = decode(message.as_bytes()).unwrap();
    assert_eq!(envelope.peer_id, "peer-a");
    assert_eq!(envelope.event, inside_limit);
}
