use farms::response::{CodecError, HeaderPair, IdempotencyData};

fn response(status: u16, headers: &[(&str, &[u8])], body: &[u8]) -> IdempotencyData {
    IdempotencyData {
        response_status_code: status,
        response_headers: headers
            .iter()
            .map(|(n, v)| HeaderPair { name: n.to_string(), value: v.to_vec() })
            .collect(),
        response_body: body.to_vec(),
    }
}

#[test]
fn round_trip_keeps_everything() {
    let original = response(
        201,
        &[("content-type", b"application/json"), ("set-cookie", b"a=1"), ("set-cookie", b"b=2")],
        b"{\"id\":1}",
    );
    let bytes = original.encode().unwrap();
    let back = IdempotencyData::decode(&bytes).unwrap();
    assert_eq!(back, original);
    assert_eq!(back.response_headers[1].value, b"a=1".to_vec());
    assert_eq!(back.response_headers[2].value, b"b=2".to_vec());
}

#[test]
fn round_trip_with_empty_body_and_no_headers() {
    let original = response(204, &[], b"");
    let back = IdempotencyData::decode(&original.encode().unwrap()).unwrap();
    assert_eq!(back, original);
}

#[test]
fn round_trip_at_status_extremes() {
    for status in [1u16, 100, 599, u16::MAX] {
        let original = response(status, &[("x", b"")], &[0, 255, 7]);
        let back = IdempotencyData::decode(&original.encode().unwrap()).unwrap();
        assert_eq!(back, original);
    }
}

#[test]
fn encoding_is_the_compact_messagepack_array() {
    // [201, [], []]: fixarray of 3, uint8 201, two empty fixarrays.
    let bytes = response(201, &[], b"").encode().unwrap();
    assert_eq!(bytes, vec![0x93, 0xcc, 0xc9, 0x90, 0x90]);
    // A header pair is itself a two-element array of a string and bytes.
    let bytes = response(1, &[("a", &[2])], &[3]).encode().unwrap();
    assert_eq!(bytes, vec![0x93, 0x01, 0x91, 0x92, 0xa1, b'a', 0x91, 0x02, 0x91, 0x03]);
}

#[test]
fn encoding_is_deterministic() {
    let a = response(200, &[("k", b"v")], b"body");
    let b = a.duplicate();
    assert_eq!(a.encode().unwrap(), b.encode().unwrap());
}

#[test]
fn garbage_does_not_decode() {
    assert_eq!(IdempotencyData::decode(&[]).unwrap_err(), CodecError::Decoding);
    assert_eq!(IdempotencyData::decode(&[0xc1]).unwrap_err(), CodecError::Decoding);
    assert_eq!(IdempotencyData::decode(b"hello").unwrap_err(), CodecError::Decoding);
}

#[test]
fn ordinary_responses_are_representable() {
    let r = response(200, &[("a", b"b")], &[1, 2, 3]);
    assert!(r.fits_wire());
    assert!(r.encode().is_ok());
}
