use http2_core::preface::preface_bytes;
use http2_core::preface::validate;

#[test]
fn preface_bytes_is_the_fixed_literal() {
    assert_eq!(preface_bytes(), b"PRI * HTTP/2.0\r\n\r\nSM\r\n\r\n".to_vec());
}

#[test]
fn exact_preface_validates() {
    let buf = b"PRI * HTTP/2.0\r\n\r\nSM\r\n\r\n".to_vec();
    assert!(validate(&buf));
}

#[test]
fn any_single_flipped_byte_is_rejected() {
    let good = b"PRI * HTTP/2.0\r\n\r\nSM\r\n\r\n".to_vec();
    for i in 0..24 {
        let mut bad = good.clone();
        bad[i] ^= 0x01;
        assert!(!validate(&bad), "flip at index {} was accepted", i);
    }
}

#[test]
fn wrong_length_is_rejected() {
    let short = b"PRI * HTTP/2.0\r\n\r\nSM\r\n\r".to_vec();
    assert!(!validate(&short));
    let mut long = b"PRI * HTTP/2.0\r\n\r\nSM\r\n\r\n".to_vec();
    long.push(b'\n');
    assert!(!validate(&long));
    assert!(!validate(&Vec::new()));
}
