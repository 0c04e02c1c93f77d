use fleet_net::hmac::{generate_hmac, validate_hmac, HmacKey};
use fleet_net::message::FramedMessage;
use serde_json::Value;

#[test]
fn test_message_with_hmac() {
    let mut object = serde_json::Map::new();
    object.insert("type".to_string(), Value::String("join_channel_request".to_string()));
    object.insert("channel_id".to_string(), Value::from(42u16));
    let msg = Value::Object(object);

    let key = HmacKey::from_bytes(b"test_session_key_32_bytes_long!!");
    let message_bytes = serde_json::to_vec(&msg).unwrap();
    let hmac = generate_hmac(&key, &message_bytes);

    let framed = FramedMessage { payload: message_bytes.clone(), hmac: hmac.clone() };

    assert!(validate_hmac(&key, &framed.payload, &framed.hmac));

    let parsed: Value = serde_json::from_slice(&framed.payload).unwrap();
    match parsed.get("type").and_then(Value::as_str) {
        Some("join_channel_request") => {
            assert_eq!(parsed.get("channel_id").and_then(Value::as_u64), Some(42));
        }
        _ => panic!("Wrong message type!"),
    }
}

#[test]
fn envelope_made_with_new_validates_and_returns_payload() {
    let key = HmacKey::from_bytes(b"envelope_key_32_bytes_long_!!!!!");
    let framed = FramedMessage::new(b"payload bytes".to_vec(), &key);
    assert_eq!(framed.hmac, generate_hmac(&key, b"payload bytes"));
    assert_eq!(framed.validate_payload(&key).unwrap(), &b"payload bytes".to_vec());

    let mut bad_tag = framed.clone();
    bad_tag.hmac[31] ^= 0xff;
    match bad_tag.validate_payload(&key) {
        Err(fleet_net::error::FleetNetError::PacketError(msg)) => {
            assert!(msg.contains("Invalid HMAC"))
        }
        other => panic!("unexpected: {other:?}"),
    }
}
