use shared_assets::session_id::{
    generate_session_id, generate_session_id_with, session_id_from_bytes, session_id_from_draws,
    SESSION_ID_BYTES,
};
use std::collections::HashSet;

#[test]
fn session_id_is_32_hex_chars() {
    let id = generate_session_id();
    assert_eq!(id.len(), SESSION_ID_BYTES * 2);
    assert!(id.chars().all(|c| c.is_ascii_hexdigit()));
}

#[test]
fn session_ids_are_unique() {
    let mut seen = HashSet::new();
    for _ in 0..256 {
        let id = generate_session_id();
        assert!(seen.insert(id), "collision in 256 generated ids");
    }
}

#[test]
fn session_id_is_lowercase_hex_of_bytes() {
    let bytes = [
        0x00, 0x01, 0x0f, 0x10, 0x7f, 0x80, 0xab, 0xcd, 0xef, 0xff, 0x12, 0x34, 0x56, 0x78, 0x9a,
        0xbc,
    ];
    assert_eq!(
        session_id_from_bytes(&bytes),
        "00010f107f80abcdefff123456789abc"
    );
    let expected: String = bytes.iter().map(|b| format!("{b:02x}")).collect();
    assert_eq!(session_id_from_bytes(&bytes), expected);
}

#[test]
fn generated_ids_are_lowercase() {
    for _ in 0..32 {
        let id = generate_session_id();
        assert!(id.chars().all(|c| c.is_ascii_digit() || ('a'..='f').contains(&c)));
    }
}

#[test]
fn distinct_bytes_give_distinct_ids() {
    let a = [0u8; 16];
    let mut b = [0u8; 16];
    b[15] = 1;
    assert_ne!(session_id_from_bytes(&a), session_id_from_bytes(&b));
    assert_eq!(session_id_from_bytes(&a), "0".repeat(32));
}

#[test]
fn failed_draws_fall_back_in_order() {
    let mut a = [0u8; 16];
    a[0] = 0xab;
    let mut b = [0u8; 16];
    b[15] = 0x01;
    assert_eq!(session_id_from_draws(Some(a), Some(b)), format!("ab{}", "0".repeat(30)));
    assert_eq!(session_id_from_draws(None, Some(b)), format!("{}01", "0".repeat(30)));
    assert_eq!(session_id_from_draws(None, None), "0".repeat(32));
}

#[test]
fn fallback_generator_gives_hex_ids() {
    let id = generate_session_id_with(|| Some([0x5a; 16]));
    assert_eq!(id.len(), 32);
    assert!(id.chars().all(|c| c.is_ascii_digit() || ('a'..='f').contains(&c)));
}
