use disk_crypto::token_io::{challenge_argument, parse_response};

#[test]
fn challenge_is_lowercase_hex() {
    let mut challenge = [0u8; 32];
    challenge[0] = 0xab;
    challenge[1] = 0x01;
    challenge[31] = 0xf0;
    let arg = challenge_argument(&challenge);
    assert_eq!(arg.len(), 64);
    assert!(arg.starts_with("ab01"));
    assert!(arg.ends_with("00f0"));
}

#[test]
fn response_round_trips() {
    let response: [u8; 20] = core::array::from_fn(|i| (i * 13) as u8);
    let mut challenge = [0u8; 32];
    challenge[..20].copy_from_slice(&response);
    let hex = &challenge_argument(&challenge)[..40];
    assert_eq!(parse_response(&format!("{hex}\n")), Some(response));
}

#[test]
fn response_parsing_exact_value() {
    let line = "00112233445566778899aabbccddeeff01020304\n";
    let expected: [u8; 20] = [
        0x00, 0x11, 0x22, 0x33, 0x44, 0x55, 0x66, 0x77, 0x88, 0x99, 0xaa, 0xbb, 0xcc, 0xdd, 0xee, 0xff, 0x01, 0x02,
        0x03, 0x04,
    ];
    assert_eq!(parse_response(line), Some(expected));
}

#[test]
fn malformed_responses_are_rejected() {
    let good = "00112233445566778899aabbccddeeff01020304";
    assert_eq!(parse_response(good), None);
    assert_eq!(parse_response(""), None);
    assert_eq!(parse_response("\n"), None);
    assert_eq!(parse_response(&format!("{}\n", good.to_uppercase())), None);
    assert_eq!(parse_response(&format!("{}\n", &good[..38])), None);
    assert_eq!(parse_response(&format!("{}0\n", good)), None);
    assert_eq!(parse_response(&format!("{}00\n", good)), None);
    assert_eq!(parse_response(&format!("{}\n\n", good)), None);
    assert_eq!(parse_response(&format!("{}g\n", &good[..39])), None);
}
