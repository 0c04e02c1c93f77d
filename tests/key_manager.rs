use fleet_net::hmac::{extract_hmac_prefix, generate_hmac, HmacKey};
use fleet_net::key_manager::KeyManager;
use fleet_net::message::FramedMessage;
use fleet_net::packet::PacketHeader;
use serde_json::Value;

fn join_channel_json(channel_id: u16) -> Vec<u8> {
    let mut object = serde_json::Map::new();
    object.insert("type".to_string(), Value::String("join_channel_request".to_string()));
    object.insert("channel_id".to_string(), Value::from(channel_id));
    serde_json::to_vec(&Value::Object(object)).unwrap()
}

#[test]
fn test_generate_session_key() {
    let user_id: u16 = 42;
    let server_secret = b"super_secret_server_key_32b!!!!!";
    let session_nonce = b"unique_session_nonce_value";

    let key = KeyManager::generate_session_key(user_id, server_secret, session_nonce);

    assert_eq!(key.as_bytes().len(), 32);

    let key2 = KeyManager::generate_session_key(user_id, server_secret, session_nonce);
    assert_eq!(key.as_bytes(), key2.as_bytes());
}

#[test]
fn test_derive_protocol_key() {
    let base_key = HmacKey::from_bytes(b"base_session_key_32_bytes_long!!");

    let keys = KeyManager::derive_protocol_keys(&base_key);

    assert_ne!(keys.tcp_key.as_bytes(), keys.udp_key.as_bytes());

    assert_eq!(keys.tcp_key.as_bytes().len(), 32);
    assert_eq!(keys.udp_key.as_bytes().len(), 32);
}

#[test]
fn test_tcp_message_flow_with_hmac() {
    let user_id: u16 = 1001;
    let server_secret = b"super_secret_server_key_32b!!!!!";
    let session_nonce = b"unique_session_nonce_value_10011";

    let session_key = KeyManager::generate_session_key(user_id, server_secret, session_nonce);
    let keys = KeyManager::derive_protocol_keys(&session_key);

    let framed = FramedMessage::new(join_channel_json(42), &keys.tcp_key);

    let payload = framed.validate_payload(&keys.tcp_key).unwrap();
    let decoded: Value = serde_json::from_slice(payload).unwrap();

    match decoded.get("type").and_then(Value::as_str) {
        Some("join_channel_request") => {
            assert_eq!(decoded.get("channel_id").and_then(Value::as_u64), Some(42))
        }
        _ => panic!("Unexpected message type"),
    }
}

#[test]
fn test_udp_packet_flow_with_hmac() {
    let session_key = KeyManager::generate_session_key(
        2002,
        b"another_secret_server_key_32b!",
        b"session_nonce_2002",
    );
    let keys = KeyManager::derive_protocol_keys(&session_key);

    let mut header = PacketHeader {
        channel_id: 5,
        user_id: 10,
        sequence: 100,
        timestamp: 123456,
        signal_strength: 255,
        frame_duration: 20,
        audio_length: 128,
        hmac_prefix: 0,
    };

    let audio_data = vec![0xFF; 128];

    let mut packet_bytes = Vec::new();
    packet_bytes.extend_from_slice(&header.channel_id.to_be_bytes());
    packet_bytes.extend_from_slice(&header.user_id.to_be_bytes());
    packet_bytes.extend_from_slice(&header.sequence.to_be_bytes());
    packet_bytes.extend_from_slice(&header.timestamp.to_be_bytes());
    packet_bytes.push(header.signal_strength);
    packet_bytes.push(header.frame_duration);
    packet_bytes.extend_from_slice(&header.audio_length.to_be_bytes());
    packet_bytes.extend_from_slice(&audio_data);

    let full_hmac = generate_hmac(&keys.udp_key, &packet_bytes);
    header.hmac_prefix = extract_hmac_prefix(&full_hmac);

    assert!(header.validate_hmac(&keys.udp_key, &audio_data))
}

#[test]
fn test_invalid_hmac_rejected() {
    let key1 = HmacKey::from_bytes(b"valid_session_key_32_bytes_long!");
    let key2 = HmacKey::from_bytes(b"invalid_session_key_32_bytes_lon");

    let framed = FramedMessage::new(br#"{"type":"ping"}"#.to_vec(), &key1);

    assert!(framed.validate_payload(&key2).is_err());

    assert!(framed.validate_payload(&key1).is_ok());
}

fn hex(bytes: &[u8]) -> String {
    bytes.iter().map(|b| format!("{b:02x}")).collect()
}

#[test]
fn session_key_is_sha256_of_secret_user_and_nonce() {
    // With an empty secret and nonce the input is the two bytes of user id 0.
    let key = KeyManager::generate_session_key(0, b"", b"");
    assert_eq!(
        hex(key.as_bytes()),
        "96a296d224f285c67bee93c30f8a309157f0daa35dc5b87e410b78630a09cfc7"
    );
    assert_ne!(
        KeyManager::generate_session_key(1, b"s", b"n").as_bytes(),
        KeyManager::generate_session_key(2, b"s", b"n").as_bytes()
    );
}

#[test]
fn protocol_keys_hash_the_base_key_with_their_labels() {
    let base_key = HmacKey::from_bytes(b"base_session_key_32_bytes_long!!");
    let keys = KeyManager::derive_protocol_keys(&base_key);
    assert_eq!(
        hex(keys.tcp_key.as_bytes()),
        "913f5d6c8324290f88256bb905055bf3db8b4ee120f3a47e458e7c661d19199c"
    );
    assert_eq!(
        hex(keys.udp_key.as_bytes()),
        "64dd80be3d6844c56cc106bc71ea48d7c3ade046f0fdbf7ba748ce2fe04d10c7"
    );
}

#[test]
fn end_to_end_tampered_envelope_is_rejected() {
    let session_key =
        KeyManager::generate_session_key(1001, b"server secret", b"per-session nonce");
    let keys = KeyManager::derive_protocol_keys(&session_key);
    let framed = FramedMessage::new(join_channel_json(42), &keys.tcp_key);

    let payload = framed.validate_payload(&keys.tcp_key).unwrap();
    let decoded: Value = serde_json::from_slice(payload).unwrap();
    assert_eq!(decoded.get("channel_id").and_then(Value::as_u64), Some(42));

    let mut tampered = framed.clone();
    tampered.payload[5] ^= 1;
    assert!(tampered.validate_payload(&keys.tcp_key).is_err());
    assert!(framed.validate_payload(&keys.udp_key).is_err());
}
