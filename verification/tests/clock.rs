use cw721::state::{Approval, BlockInfo, Expiration};

fn block(height: u64, time: u64) -> BlockInfo {
    BlockInfo { height, time, chain_id: "test-1".to_string() }
}

#[test]
fn a_height_has_been_reached_from_that_block_on() {
    let at = Expiration::AtHeight(10);
    assert!(!at.is_expired(&block(0, u64::MAX)));
    assert!(!at.is_expired(&block(9, u64::MAX)));
    assert!(at.is_expired(&block(10, 0)));
    assert!(at.is_expired(&block(11, 0)));
    assert!(at.is_expired(&block(u64::MAX, 0)));
    assert!(Expiration::AtHeight(0).is_expired(&block(0, 0)));
    assert!(!Expiration::AtHeight(u64::MAX).is_expired(&block(u64::MAX - 1, 0)));
}

#[test]
fn a_time_has_been_reached_from_that_moment_on() {
    let at = Expiration::AtTime(1_000_000_000);
    assert!(!at.is_expired(&block(u64::MAX, 0)));
    assert!(!at.is_expired(&block(u64::MAX, 999_999_999)));
    assert!(at.is_expired(&block(0, 1_000_000_000)));
    assert!(at.is_expired(&block(0, 1_000_000_001)));
    assert!(Expiration::AtTime(0).is_expired(&block(0, 0)));
}

#[test]
fn never_is_never_reached() {
    assert!(!Expiration::Never.is_expired(&block(0, 0)));
    assert!(!Expiration::Never.is_expired(&block(u64::MAX, u64::MAX)));
    assert_eq!(Expiration::default(), Expiration::Never);
}

#[test]
fn an_approval_lapses_with_its_expiration() {
    let approval = Approval { spender: "sam".to_string(), expires: Expiration::AtHeight(3) };
    assert!(!approval.is_expired(&block(2, 0)));
    assert!(approval.is_expired(&block(3, 0)));
    let copy = approval.clone();
    assert_eq!(copy, approval);
}
