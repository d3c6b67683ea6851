use ws_echo::MessageData;
use ws_echo::WebSocketMessage;
use ws_echo::message::process_binary;
use ws_echo::message::process_both;
use ws_echo::message::process_text;

#[test]
fn text_payload_is_delivered_verbatim() {
    let delivered = process_both(MessageData::Text(Some("hello there".to_string())));
    assert_eq!(
        delivered,
        Some(WebSocketMessage::Text("hello there".to_string()))
    );
    assert!(!matches!(delivered, Some(WebSocketMessage::Binary(_))));
}

#[test]
fn empty_text_payload_is_delivered() {
    let delivered = process_both(MessageData::Text(Some(String::new())));
    assert_eq!(delivered, Some(WebSocketMessage::Text(String::new())));
}

#[test]
fn binary_payload_keeps_bytes_order_and_length() {
    let bytes = vec![3u8, 1, 4, 1, 5, 9, 2, 6];
    let delivered = process_both(MessageData::Binary(Some(bytes.clone())));
    match delivered {
        Some(WebSocketMessage::Binary(data)) => {
            assert_eq!(data.len(), bytes.len());
            assert_eq!(data, bytes);
        }
        other => panic!("expected a binary message, got {:?}", other),
    }
}

#[test]
fn undecodable_text_payload_is_dropped() {
    assert_eq!(process_both(MessageData::Text(None)), None);
    assert_eq!(process_text(None), None);
}

#[test]
fn undecodable_binary_payload_is_dropped() {
    assert_eq!(process_both(MessageData::Binary(None)), None);
    assert_eq!(process_binary(None), None);
}

#[test]
fn process_text_wraps_decoded_text() {
    assert_eq!(
        process_text(Some("abc".to_string())),
        Some(WebSocketMessage::Text("abc".to_string()))
    );
}

#[test]
fn process_binary_wraps_decoded_bytes() {
    assert_eq!(
        process_binary(Some(vec![0u8, 255])),
        Some(WebSocketMessage::Binary(vec![0u8, 255]))
    );
}

#[test]
fn empty_payloads_are_empty() {
    assert!(WebSocketMessage::Binary(vec![]).is_empty());
    assert!(WebSocketMessage::Text(String::new()).is_empty());
}

#[test]
fn non_empty_payloads_are_not_empty() {
    assert!(!WebSocketMessage::Text("x".to_string()).is_empty());
    assert!(!WebSocketMessage::Binary(vec![0u8]).is_empty());
}

#[test]
fn binary_displays_as_lowercase_hex_pairs() {
    assert_eq!(
        WebSocketMessage::Binary(vec![0x0au8, 0xff]).to_string(),
        "0aff"
    );
}

#[test]
fn every_hex_digit_renders_lowercase() {
    let msg = WebSocketMessage::Binary(vec![0x01u8, 0x23, 0x45, 0x67, 0x89, 0xab, 0xcd, 0xef]);
    assert_eq!(msg.to_string(), "0123456789abcdef");
}

#[test]
fn single_byte_renders_two_digits() {
    assert_eq!(WebSocketMessage::Binary(vec![0x00u8]).to_string(), "00");
    assert_eq!(WebSocketMessage::Binary(vec![0x07u8]).to_string(), "07");
}

#[test]
fn empty_binary_displays_as_empty() {
    assert_eq!(WebSocketMessage::Binary(vec![]).to_string(), "");
}

#[test]
fn text_displays_verbatim() {
    assert_eq!(
        WebSocketMessage::Text("Random string: 42".to_string()).to_string(),
        "Random string: 42"
    );
}
