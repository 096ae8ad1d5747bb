use psst_core::codec::{
    deserialize, frame, frame_body_len, serialize, DecodeError, EncodeError, Message, HEADER_LEN,
    MAX_PAYLOAD_LEN, MESSAGE_TAG,
};

fn msg(seq: u32, op: u32, payload: Vec<u8>) -> Message {
    Message { seq, op, payload }
}

#[test]
fn round_trip_reproduces_every_field() {
    let m = msg(42, 7, vec![1, 2, 3, 250, 0, 255]);
    let bytes = serialize(&m).unwrap();
    let back = deserialize(&bytes).unwrap();
    assert_eq!(back, m);
}

#[test]
fn round_trip_empty_payload() {
    let m = msg(0, 0, vec![]);
    let bytes = serialize(&m).unwrap();
    assert_eq!(bytes.len(), HEADER_LEN);
    assert_eq!(deserialize(&bytes).unwrap(), m);
}

#[test]
fn round_trip_extreme_field_values() {
    let m = msg(u32::MAX, u32::MAX, vec![0; 1000]);
    let bytes = serialize(&m).unwrap();
    assert_eq!(deserialize(&bytes).unwrap(), m);
}

#[test]
fn decoded_message_owns_its_payload() {
    let m = msg(9, 1, vec![10, 20, 30]);
    let mut bytes = serialize(&m).unwrap();
    let back = deserialize(&bytes).unwrap();
    // Overwrite the input buffer: the decoded message must be unaffected.
    for b in bytes.iter_mut() {
        *b = 0;
    }
    assert_eq!(back.payload, vec![10, 20, 30]);
}

#[test]
fn encoded_layout_starts_with_tag() {
    let bytes = serialize(&msg(1, 2, vec![5])).unwrap();
    assert_eq!(bytes[0], MESSAGE_TAG);
    assert_eq!(bytes.len(), HEADER_LEN + 1);
}

#[test]
fn serialize_rejects_oversized_payload() {
    let m = msg(1, 1, vec![0; MAX_PAYLOAD_LEN + 1]);
    assert_eq!(serialize(&m), Err(EncodeError::PayloadTooLarge));
}

#[test]
fn deserialize_rejects_truncated_header() {
    assert_eq!(deserialize(&[]), Err(DecodeError::Truncated));
    assert_eq!(deserialize(&[MESSAGE_TAG, 0, 0]), Err(DecodeError::Truncated));
}

#[test]
fn deserialize_rejects_truncated_payload() {
    let mut bytes = serialize(&msg(3, 4, vec![1, 2, 3, 4])).unwrap();
    bytes.pop();
    assert_eq!(deserialize(&bytes), Err(DecodeError::Truncated));
}

#[test]
fn deserialize_rejects_wrong_tag() {
    let mut bytes = serialize(&msg(3, 4, vec![1])).unwrap();
    bytes[0] = 0x00;
    assert_eq!(deserialize(&bytes), Err(DecodeError::InvalidTag));
}

#[test]
fn deserialize_rejects_trailing_bytes() {
    let mut bytes = serialize(&msg(3, 4, vec![1])).unwrap();
    bytes.push(99);
    assert_eq!(deserialize(&bytes), Err(DecodeError::TrailingBytes));
}

#[test]
fn deserialize_rejects_oversized_announced_payload() {
    // A header announcing a payload beyond the schema bound.
    let mut bytes = vec![MESSAGE_TAG];
    bytes.extend_from_slice(&1u32.to_le_bytes());
    bytes.extend_from_slice(&2u32.to_le_bytes());
    bytes.extend_from_slice(&(MAX_PAYLOAD_LEN as u32 + 1).to_le_bytes());
    assert_eq!(deserialize(&bytes), Err(DecodeError::PayloadTooLarge));
}

#[test]
fn frame_prefixes_body_with_its_length() {
    let body = serialize(&msg(5, 6, vec![7, 8])).unwrap();
    let body_len = body.len();
    let framed = frame(body.clone());
    assert_eq!(framed.len(), 4 + body_len);
    assert_eq!(frame_body_len(&framed[0..4]), body_len as u32);
    assert_eq!(&framed[4..], &body[..]);
}

#[test]
fn frame_of_empty_body() {
    let framed = frame(vec![]);
    assert_eq!(framed, vec![0, 0, 0, 0]);
    assert_eq!(frame_body_len(&framed), 0);
}
