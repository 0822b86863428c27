use vpn_helper::otp::{
    code_for, decode_secret, generate_code, generate_current_code, CodeError, CodeFault,
};

// The ASCII text "12345678901234567890" in base32.
const SECRET: &str = "GEZDGNBVGY3TQOJQGEZDGNBVGY3TQOJQ";

const NOT_BASE32: &str = "Could not decode base32 secret.";

fn code(time: u64) -> String {
    generate_code(SECRET, time).expect("the secret is sound")
}

fn malformed<T: std::fmt::Debug>(r: Result<T, CodeError>) {
    let e = r.expect_err("the secret is malformed");
    assert_eq!(e.fault, CodeFault::MalformedSecret);
    assert_eq!(e.message(), NOT_BASE32);
}

fn too_short<T: std::fmt::Debug>(r: Result<T, CodeError>, bits: usize) {
    let e = r.expect_err("the secret is too short");
    assert_eq!(e.fault, CodeFault::SecretTooShort);
    assert_eq!(
        e.message(),
        format!(
            "The length of the shared secret MUST be at least 128 bits. {} bits is not enough",
            bits
        )
    );
}

#[test]
fn decode_secret_yields_the_encoded_bytes() {
    assert_eq!(decode_secret(SECRET), Ok(b"12345678901234567890".to_vec()));
}

#[test]
fn decode_secret_of_empty_text_is_empty() {
    assert_eq!(decode_secret(""), Ok(Vec::new()));
}

#[test]
fn decode_secret_rounds_down_to_whole_bytes() {
    // "MY" holds ten bits: one byte, 'f'.
    assert_eq!(decode_secret("MY"), Ok(vec![0x66]));
    assert_eq!(decode_secret("M"), Ok(Vec::new()));
    assert_eq!(decode_secret("MZXW6YTBOI"), Ok(b"foobar".to_vec()));
}

#[test]
fn decode_secret_rejects_lower_case() {
    malformed(decode_secret("gezdgnbvgy3tqojq"));
}

#[test]
fn decode_secret_rejects_padding() {
    malformed(decode_secret("MY======"));
}

#[test]
fn decode_secret_rejects_digits_outside_the_alphabet() {
    malformed(decode_secret("GEZDGNBVGY3TQOJ1"));
    malformed(decode_secret("GEZDGNBVGY3TQOJ8"));
    malformed(decode_secret("GEZDGNBVGY3TQOJ0"));
}

#[test]
fn decode_secret_rejects_other_characters() {
    malformed(decode_secret("GEZD GNBV"));
    malformed(decode_secret("GEZD-GNBV"));
    malformed(decode_secret("GEZDGNB\u{e9}"));
}

#[test]
fn code_matches_published_vector_at_59() {
    assert_eq!(code(59), "287082");
}

#[test]
fn code_matches_published_vector_at_1111111109() {
    assert_eq!(code(1111111109), "081804");
}

#[test]
fn code_matches_published_vector_at_1111111111() {
    assert_eq!(code(1111111111), "050471");
}

#[test]
fn code_matches_published_vector_at_1234567890() {
    assert_eq!(code(1234567890), "005924");
}

#[test]
fn code_matches_published_vector_at_2000000000() {
    assert_eq!(code(2000000000), "279037");
}

#[test]
fn code_matches_published_vector_at_20000000000() {
    assert_eq!(code(20000000000), "353130");
}

#[test]
fn code_is_the_same_within_one_step() {
    assert_eq!(code(30), "287082");
    assert_eq!(code(45), "287082");
    assert_eq!(code(59), "287082");
    assert_eq!(code(1111111110), code(1111111139));
}

#[test]
fn code_changes_at_the_step_boundary() {
    assert_ne!(code(29), code(30));
    assert_ne!(code(59), code(60));
    assert_ne!(code(59), code(89));
    assert_ne!(code(1111111109), code(1111111110));
}

#[test]
fn code_at_time_zero() {
    // Counter 0 of the published HOTP vectors for the same secret.
    assert_eq!(code(0), "755224");
    assert_eq!(code(29), "755224");
}

#[test]
fn code_at_the_largest_time() {
    let last = code(u64::MAX);
    assert_eq!(last.len(), 6);
    assert!(last.chars().all(|c| c.is_ascii_digit()));
    assert_eq!(code(u64::MAX - 15), last);
}

#[test]
fn code_has_six_digits_with_leading_zeros() {
    let code = code(1234567890);
    assert_eq!(code.len(), 6);
    assert!(code.starts_with("00"));
}

#[test]
fn code_for_decoded_secret_matches_encoded() {
    let secret = b"12345678901234567890".to_vec();
    assert_eq!(code_for(&secret, 59), Ok("287082".to_string()));
}

#[test]
fn code_for_accepts_sixteen_bytes() {
    let secret = vec![7u8; 16];
    let code = code_for(&secret, 59).expect("sixteen bytes are enough");
    assert_eq!(code.len(), 6);
}

#[test]
fn code_for_rejects_fifteen_bytes() {
    let secret = vec![7u8; 15];
    too_short(code_for(&secret, 59), 120);
}

#[test]
fn code_for_rejects_empty_secret() {
    too_short(code_for(&Vec::new(), 59), 0);
}

#[test]
fn generate_code_rejects_malformed_secret() {
    malformed(generate_code("not base32!", 59));
}

#[test]
fn generate_code_reports_malformed_before_short() {
    malformed(generate_code("a", 59));
}

#[test]
fn generate_code_rejects_short_secret() {
    // Twenty-five characters decode to fifteen bytes.
    too_short(generate_code("GEZDGNBVGY3TQOJQGEZDGNBVG", 59), 120);
    too_short(generate_code("", 59), 0);
    too_short(generate_code("MZXW6YTBOI", 59), 48);
}

#[test]
fn generate_code_accepts_shortest_sound_secret() {
    // Twenty-six characters decode to sixteen bytes.
    let code = generate_code("GEZDGNBVGY3TQOJQGEZDGNBVGY", 59).expect("sixteen bytes");
    assert_eq!(code.len(), 6);
    assert_eq!(Ok(code), code_for(&b"1234567890123456".to_vec(), 59));
}

#[test]
fn generate_current_code_yields_six_digits() {
    let code = generate_current_code(SECRET).expect("the clock stands after the epoch");
    assert_eq!(code.len(), 6);
    assert!(code.chars().all(|c| c.is_ascii_digit()));
}

#[test]
fn generate_current_code_reports_the_faults_of_the_secret() {
    malformed(generate_current_code("gezd"));
    too_short(generate_current_code("GEZD"), 16);
}

#[test]
fn code_error_message_is_the_cause() {
    let e = CodeError { fault: CodeFault::Clock, cause: "the clock is off".to_string() };
    assert_eq!(e.message(), "the clock is off");
}
