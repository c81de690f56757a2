use chat_relay::address::Address;
use chat_relay::iphash::{big_endian_bytes, HashToString};
use std::collections::hash_map::DefaultHasher;
use std::collections::HashSet;
use std::hash::Hasher;

fn expected_token(family: u8, octets: &[u8]) -> String {
    let mut hasher = DefaultHasher::new();
    hasher.write(&[family]);
    hasher.write(octets);
    format!("{:016x}", hasher.finish())
}

#[test]
fn big_endian_bytes_puts_the_high_octet_first() {
    assert_eq!(big_endian_bytes(0x0102_0304, 4), vec![1, 2, 3, 4]);
    assert_eq!(big_endian_bytes(0x0102_0304, 2), vec![3, 4]);
    assert_eq!(big_endian_bytes(0xff, 8), vec![0, 0, 0, 0, 0, 0, 0, 0xff]);
    assert_eq!(big_endian_bytes(u128::MAX, 16), vec![0xff; 16]);
    assert_eq!(big_endian_bytes(7, 0), Vec::<u8>::new());
    assert_eq!(
        big_endian_bytes(0x0011_2233_4455_6677_8899_aabb_ccdd_eeff, 16),
        vec![0x00, 0x11, 0x22, 0x33, 0x44, 0x55, 0x66, 0x77, 0x88, 0x99, 0xaa, 0xbb, 0xcc, 0xdd, 0xee, 0xff]
    );
}

#[test]
fn token_is_the_hex_digest_of_family_and_octets() {
    let v4 = Address::V4(0xc0a8_0001);
    assert_eq!(v4.hash_to_string(), expected_token(4, &[192, 168, 0, 1]));
    let v6 = Address::V6(1);
    let mut octets = [0u8; 16];
    octets[15] = 1;
    assert_eq!(v6.hash_to_string(), expected_token(16, &octets));
}

#[test]
fn token_is_sixteen_lowercase_hex_digits() {
    for bits in [0u32, 1, 0x7f00_0001, 0xffff_ffff, 0x0a00_0001] {
        let token = Address::V4(bits).hash_to_string();
        assert_eq!(token.len(), 16);
        assert!(token.chars().all(|c| c.is_ascii_digit() || ('a'..='f').contains(&c)));
    }
    let token = Address::V6(u128::MAX).hash_to_string();
    assert_eq!(token.len(), 16);
    assert!(token.chars().all(|c| c.is_ascii_digit() || ('a'..='f').contains(&c)));
}

#[test]
fn token_is_not_the_octets_themselves() {
    let token = Address::V4(0x0102_0304).hash_to_string();
    assert_ne!(token, "01020304");
    assert_ne!(token.as_bytes(), &[1u8, 2, 3, 4]);
}

#[test]
fn token_is_stable_across_calls() {
    let a = Address::V4(0x0a01_0203);
    let first = a.hash_to_string();
    for _ in 0..100 {
        assert_eq!(a.hash_to_string(), first);
    }
    let copy = Address::V4(0x0a01_0203);
    assert_eq!(copy.hash_to_string(), first);
}

#[test]
fn the_two_families_do_not_share_tokens() {
    assert_ne!(Address::V4(1).hash_to_string(), Address::V6(1).hash_to_string());
    assert_ne!(Address::V4(0).hash_to_string(), Address::V6(0).hash_to_string());
}

#[test]
fn tokens_do_not_collide_over_a_large_sample() {
    let mut seen = HashSet::new();
    for i in 0..60_000u32 {
        let bits = i.wrapping_mul(2_654_435_761);
        assert!(seen.insert(Address::V4(bits).hash_to_string()), "collision at {}", bits);
    }
    for i in 0..60_000u128 {
        let bits = (i << 64) | (i * 7919);
        assert!(seen.insert(Address::V6(bits).hash_to_string()), "collision at {}", bits);
    }
    assert_eq!(seen.len(), 120_000);
}

#[test]
fn address_accessors_report_family_width_and_bits() {
    let v4 = Address::V4(0x0102_0304);
    assert_eq!(v4.octet_count(), 4);
    assert_eq!(v4.to_bits(), 0x0102_0304u128);
    let v6 = Address::V6(5);
    assert_eq!(v6.octet_count(), 16);
    assert_eq!(v6.to_bits(), 5);
    assert_ne!(Address::V4(5), Address::V6(5));
}
