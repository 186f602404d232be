use bytes::BytesMut;
use synapse::codec::{CodecError, MessageCodec, MAX_FRAME_SIZE, PREFIX_LEN};

fn encoded(payload: &[u8]) -> BytesMut {
    let mut out = BytesMut::new();
    MessageCodec.encode(payload, &mut out).unwrap();
    out
}

#[test]
fn limit_is_sixteen_mebibytes() {
    assert_eq!(MAX_FRAME_SIZE, 16 * 1024 * 1024);
    assert_eq!(PREFIX_LEN, 4);
}

#[test]
fn encode_writes_big_endian_length_then_payload() {
    assert_eq!(&encoded(&[1, 2, 3])[..], &[0, 0, 0, 3, 1, 2, 3]);
    assert_eq!(&encoded(&[])[..], &[0, 0, 0, 0]);
    let long = vec![7u8; 0x01_02_03];
    let frame = encoded(&long);
    assert_eq!(&frame[..4], &[0, 1, 2, 3]);
    assert_eq!(&frame[4..], &long[..]);
}

#[test]
fn encode_appends_to_what_is_there() {
    let mut out = BytesMut::new();
    out.extend_from_slice(&[9, 9]);
    MessageCodec.encode(&[5], &mut out).unwrap();
    MessageCodec.encode(&[6, 7], &mut out).unwrap();
    assert_eq!(&out[..], &[9, 9, 0, 0, 0, 1, 5, 0, 0, 0, 2, 6, 7]);
}

#[test]
fn round_trip() {
    let payloads: Vec<Vec<u8>> =
        vec![vec![], vec![0], vec![1, 2, 3], (0..=255).collect(), vec![0xAB; 70_000]];
    for payload in payloads {
        let mut buf = encoded(&payload);
        let decoded = MessageCodec.decode(&mut buf).unwrap().unwrap();
        assert_eq!(&decoded[..], &payload[..]);
        assert!(buf.is_empty());
        assert_eq!(MessageCodec.decode(&mut buf), Ok(None));
    }
}

#[test]
fn decode_needs_the_whole_prefix() {
    let mut buf = BytesMut::new();
    assert_eq!(MessageCodec.decode(&mut buf), Ok(None));
    buf.extend_from_slice(&[0, 0, 0]);
    assert_eq!(MessageCodec.decode(&mut buf), Ok(None));
    assert_eq!(&buf[..], &[0, 0, 0]);
}

#[test]
fn decode_needs_the_whole_payload() {
    let mut buf = BytesMut::new();
    buf.extend_from_slice(&[0, 0, 0, 3, 1, 2]);
    assert_eq!(MessageCodec.decode(&mut buf), Ok(None));
    assert_eq!(&buf[..], &[0, 0, 0, 3, 1, 2]);
    buf.extend_from_slice(&[3]);
    let payload = MessageCodec.decode(&mut buf).unwrap().unwrap();
    assert_eq!(&payload[..], &[1, 2, 3]);
    assert!(buf.is_empty());
}

#[test]
fn decode_leaves_what_follows_the_frame() {
    let mut buf = BytesMut::new();
    buf.extend_from_slice(&[0, 0, 0, 2, 10, 11, 0, 0, 0, 1, 12, 0, 0]);
    let first = MessageCodec.decode(&mut buf).unwrap().unwrap();
    assert_eq!(&first[..], &[10, 11]);
    assert_eq!(&buf[..], &[0, 0, 0, 1, 12, 0, 0]);
    let second = MessageCodec.decode(&mut buf).unwrap().unwrap();
    assert_eq!(&second[..], &[12]);
    assert_eq!(MessageCodec.decode(&mut buf), Ok(None));
    assert_eq!(&buf[..], &[0, 0]);
}

#[test]
fn decode_reads_the_length_big_endian() {
    let mut buf = BytesMut::new();
    buf.extend_from_slice(&[0, 0, 1, 2]);
    buf.extend_from_slice(&vec![3u8; 258]);
    let payload = MessageCodec.decode(&mut buf).unwrap().unwrap();
    assert_eq!(payload.len(), 258);
    assert!(buf.is_empty());
}

#[test]
fn streaming_one_byte_at_a_time() {
    let payloads: Vec<Vec<u8>> = vec![vec![1, 2, 3], vec![], vec![4; 300], vec![5]];
    let mut stream = BytesMut::new();
    for p in &payloads {
        MessageCodec.encode(p, &mut stream).unwrap();
    }
    // All at once.
    let mut at_once = Vec::new();
    let mut whole = stream.clone();
    while let Some(p) = MessageCodec.decode(&mut whole).unwrap() {
        at_once.push(p.to_vec());
    }
    // Byte by byte.
    let mut bytewise = Vec::new();
    let mut buf = BytesMut::new();
    for b in stream.iter() {
        buf.extend_from_slice(&[*b]);
        while let Some(p) = MessageCodec.decode(&mut buf).unwrap() {
            bytewise.push(p.to_vec());
        }
    }
    assert_eq!(at_once, payloads);
    assert_eq!(bytewise, payloads);
    assert!(buf.is_empty());
    assert!(whole.is_empty());
}

#[test]
fn encode_rejects_oversize_payload() {
    let payload = vec![0u8; MAX_FRAME_SIZE as usize + 1];
    let mut out = BytesMut::new();
    out.extend_from_slice(&[1]);
    assert_eq!(
        MessageCodec.encode(&payload, &mut out),
        Err(CodecError::FrameTooLarge { len: MAX_FRAME_SIZE as usize + 1 })
    );
    assert_eq!(&out[..], &[1]);
}

#[test]
fn encode_accepts_payload_at_the_limit() {
    let payload = vec![0x5Au8; MAX_FRAME_SIZE as usize];
    let mut buf = BytesMut::new();
    assert_eq!(MessageCodec.encode(&payload, &mut buf), Ok(()));
    assert_eq!(&buf[..4], &[1, 0, 0, 0]);
    let decoded = MessageCodec.decode(&mut buf).unwrap().unwrap();
    assert_eq!(decoded.len(), MAX_FRAME_SIZE as usize);
    assert!(buf.is_empty());
}

#[test]
fn decode_rejects_oversize_length_without_payload() {
    // 16 MiB + 1, and not one byte of payload.
    let mut buf = BytesMut::new();
    buf.extend_from_slice(&[1, 0, 0, 1]);
    assert_eq!(
        MessageCodec.decode(&mut buf),
        Err(CodecError::FrameTooLarge { len: MAX_FRAME_SIZE as usize + 1 })
    );
    assert_eq!(&buf[..], &[1, 0, 0, 1]);
    let mut huge = BytesMut::new();
    huge.extend_from_slice(&[0xFF, 0xFF, 0xFF, 0xFF, 1, 2, 3]);
    assert_eq!(
        MessageCodec.decode(&mut huge),
        Err(CodecError::FrameTooLarge { len: 0xFFFF_FFFF })
    );
    assert_eq!(huge.len(), 7);
}

#[test]
fn oversize_length_stays_an_error() {
    let mut buf = BytesMut::new();
    buf.extend_from_slice(&[2, 0, 0, 0]);
    assert!(MessageCodec.decode(&mut buf).is_err());
    buf.extend_from_slice(&[0; 64]);
    assert!(MessageCodec.decode(&mut buf).is_err());
}
