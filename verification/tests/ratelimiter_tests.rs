use chat_relay::address::Address;
use chat_relay::clienthandle::{SessionState, BANTIME};
use chat_relay::ratelimiter::IpBanner;

const SECOND: u128 = 1_000_000_000;

#[test]
fn nobody_is_banned_at_first() {
    let mut banner = IpBanner::new();
    assert!(!banner.is_blacklisted(&Address::V4(1), 0));
    assert!(!banner.is_blacklisted(&Address::V6(1), u128::MAX));
}

#[test]
fn ban_holds_until_it_expires() {
    let mut banner = IpBanner::new();
    let ip = Address::V4(0x7f00_0001);
    let now = 1_700_000_000 * SECOND;
    banner.add(ip, now, BANTIME);
    assert!(banner.is_blacklisted(&ip, now));
    assert!(banner.is_blacklisted(&ip, now + 1));
    assert!(banner.is_blacklisted(&ip, now + 5 * SECOND));
    assert!(banner.is_blacklisted(&ip, now + 10 * SECOND - 1));
    assert!(!banner.is_blacklisted(&ip, now + 10 * SECOND));
}

#[test]
fn ban_time_is_ten_seconds() {
    assert_eq!(BANTIME, 10 * SECOND);
}

#[test]
fn expired_entry_is_removed_by_the_lookup() {
    let mut banner = IpBanner::new();
    let ip = Address::V6(42);
    banner.add(ip, 100, 50);
    assert!(!banner.is_blacklisted(&ip, 150));
    // The entry is gone: an earlier instant finds nothing either.
    assert!(!banner.is_blacklisted(&ip, 0));
    assert!(!banner.is_blacklisted(&ip, 149));
}

#[test]
fn lookup_leaves_a_ban_that_holds() {
    let mut banner = IpBanner::new();
    let ip = Address::V6(42);
    banner.add(ip, 100, 50);
    for _ in 0..5 {
        assert!(banner.is_blacklisted(&ip, 120));
    }
    assert!(banner.is_blacklisted(&ip, 149));
}

#[test]
fn ban_of_zero_duration_never_holds() {
    let mut banner = IpBanner::new();
    let ip = Address::V4(9);
    banner.add(ip, 100, 0);
    assert!(!banner.is_blacklisted(&ip, 100));
}

#[test]
fn new_ban_replaces_the_old_one() {
    let mut banner = IpBanner::new();
    let ip = Address::V4(9);
    banner.add(ip, 100, 1000);
    banner.add(ip, 200, 10);
    assert!(banner.is_blacklisted(&ip, 209));
    assert!(!banner.is_blacklisted(&ip, 210));
    banner.add(ip, 300, 10);
    assert!(banner.is_blacklisted(&ip, 305));
}

#[test]
fn ban_concerns_one_address_only() {
    let mut banner = IpBanner::new();
    banner.add(Address::V4(1), 0, 100);
    assert!(!banner.is_blacklisted(&Address::V4(2), 50));
    assert!(!banner.is_blacklisted(&Address::V6(1), 50));
    assert!(banner.is_blacklisted(&Address::V4(1), 50));
    banner.add(Address::V6(1), 0, 10);
    assert!(!banner.is_blacklisted(&Address::V6(1), 50));
    assert!(banner.is_blacklisted(&Address::V4(1), 50));
}

#[test]
fn ban_may_reach_the_last_instant() {
    let mut banner = IpBanner::new();
    let ip = Address::V4(3);
    banner.add(ip, u128::MAX - 5, 5);
    assert!(banner.is_blacklisted(&ip, u128::MAX - 1));
    assert!(!banner.is_blacklisted(&ip, u128::MAX));
}

#[test]
fn banned_address_is_refused_and_admitted_after_the_ban() {
    let mut banner = IpBanner::new();
    let ip = Address::V4(0x0a00_0001);
    let now = 5 * SECOND;
    banner.add(ip, now, BANTIME);
    assert!(banner.accept(ip, now).is_none());
    assert!(banner.accept(ip, now + 9 * SECOND).is_none());
    let session = banner.accept(ip, now + BANTIME).unwrap();
    assert_eq!(session.address(), ip);
    assert_eq!(session.state(), SessionState::Starting);
}

#[test]
fn unbanned_address_is_admitted() {
    let mut banner = IpBanner::new();
    banner.add(Address::V4(1), 0, BANTIME);
    let session = banner.accept(Address::V4(2), 1).unwrap();
    assert_eq!(session.address(), Address::V4(2));
    assert_eq!(session.state(), SessionState::Starting);
}
