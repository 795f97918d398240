use golem_core::container::parse_container;
use golem_core::errors::LoadError;

const MAGIC: [u8; 6] = [0x4d, 0x69, 0x53, 0x54, 0x65, 0x72];

fn wrapped(len_bytes: [u8; 4], payload: &[u8]) -> Vec<u8> {
    let mut buf = Vec::new();
    buf.extend_from_slice(&MAGIC);
    buf.extend_from_slice(&[0, 0, 0, 0, 0, 0]);
    buf.extend_from_slice(&len_bytes);
    buf.extend_from_slice(payload);
    buf
}

#[test]
fn parse_unwrapped_is_identity() {
    let buf: Vec<u8> = vec![1, 2, 3, 4, 5, 6, 7, 8];
    let parsed = parse_container(&buf).expect("no tag means the buffer is the payload");
    assert_eq!(parsed, buf.as_slice());
}

#[test]
fn parse_short_buffer_without_tag_is_identity() {
    let buf: Vec<u8> = vec![0x4d, 0x69];
    let parsed = parse_container(&buf).expect("too short for the tag");
    assert_eq!(parsed, buf.as_slice());
}

#[test]
fn parse_strips_container() {
    let payload: Vec<u8> = (0..32).collect();
    let buf = wrapped([32, 0, 0, 0], &payload);
    assert_eq!(buf.len(), 48);
    let parsed = parse_container(&buf).expect("well-formed container");
    assert_eq!(parsed, payload.as_slice());
    // The same payload without the wrapper parses to the same bytes.
    let unwrapped = parse_container(&payload).expect("payload alone");
    assert_eq!(parsed, unwrapped);
}

#[test]
fn parse_wide_length_field() {
    // 258 = 0x0102 exercises more than the low length byte.
    let payload: Vec<u8> = (0..258u16).map(|i| (i % 251) as u8).collect();
    let buf = wrapped([2, 1, 0, 0], &payload);
    let parsed = parse_container(&buf).expect("well-formed container");
    assert_eq!(parsed, payload.as_slice());
}

#[test]
fn parse_declared_length_exceeding_buffer_is_malformed() {
    let payload: Vec<u8> = (0..32).collect();
    let buf = wrapped([33, 0, 0, 0], &payload);
    assert_eq!(parse_container(&buf), Err(LoadError::MalformedContainer));
}

#[test]
fn parse_tag_without_header_is_malformed() {
    let buf: Vec<u8> = MAGIC.to_vec();
    assert_eq!(parse_container(&buf), Err(LoadError::MalformedContainer));
    let mut buf2 = MAGIC.to_vec();
    buf2.extend_from_slice(&[0, 0, 0, 0, 0]);
    assert_eq!(parse_container(&buf2), Err(LoadError::MalformedContainer));
}

#[test]
fn parse_empty_declared_length() {
    let buf = wrapped([0, 0, 0, 0], &[]);
    let parsed = parse_container(&buf).expect("empty payload is well-formed");
    assert_eq!(parsed, &[] as &[u8]);
}
