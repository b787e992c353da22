use robit::fixed::SCALE;
use robit::{Fixed, Scalar};

fn fx(raw: i64) -> Fixed {
    Fixed { raw }
}

#[test]
fn zero_and_one() {
    assert_eq!(fx(0), Fixed::zero());
    assert_eq!(fx(1_000_000), Fixed::one());
    assert_eq!(1_000_000, SCALE);
}

#[test]
fn sums_and_differences_are_exact() {
    assert_eq!(fx(800_000), fx(500_000).add(fx(300_000)));
    assert_eq!(fx(-300_000), fx(300_000).sub(fx(600_000)));
}

#[test]
fn sums_saturate() {
    assert_eq!(fx(i64::MAX), fx(i64::MAX).add(fx(1)));
    assert_eq!(fx(i64::MIN), fx(i64::MIN).add(fx(-1)));
    assert_eq!(fx(i64::MAX), fx(i64::MAX).sub(fx(i64::MIN)));
    assert_eq!(fx(i64::MIN), fx(i64::MIN).sub(fx(i64::MAX)));
}

#[test]
fn products_scale_back() {
    assert_eq!(fx(1_000_000), fx(500_000).mul(fx(2_000_000)));
    assert_eq!(fx(-900_000), fx(300_000).mul(fx(-3_000_000)));
    assert_eq!(fx(250_000), fx(-500_000).mul(fx(-500_000)));
}

#[test]
fn products_round_toward_zero() {
    assert_eq!(fx(0), fx(1).mul(fx(999_999)));
    assert_eq!(fx(0), fx(-1).mul(fx(999_999)));
    assert_eq!(fx(1), fx(1_500).mul(fx(1_000)));
    assert_eq!(fx(-1), fx(-1_500).mul(fx(1_000)));
}

#[test]
fn products_saturate() {
    assert_eq!(fx(i64::MAX), fx(i64::MAX).mul(fx(2_000_000)));
    assert_eq!(fx(i64::MIN), fx(i64::MAX).mul(fx(-2_000_000)));
    assert_eq!(fx(i64::MAX), fx(i64::MIN).mul(fx(i64::MIN)));
}

#[test]
fn quotients_scale_up() {
    assert_eq!(fx(125_000), fx(250_000).div(fx(2_000_000)));
    assert_eq!(fx(-150_000), fx(-300_000).div(fx(2_000_000)));
    assert_eq!(fx(-2_000_000), fx(1_000_000).div(fx(-500_000)));
}

#[test]
fn quotients_round_toward_zero() {
    assert_eq!(fx(333_333), fx(1_000_000).div(fx(3_000_000)));
    assert_eq!(fx(-333_333), fx(-1_000_000).div(fx(3_000_000)));
    assert_eq!(fx(-333_333), fx(1_000_000).div(fx(-3_000_000)));
    assert_eq!(fx(333_333), fx(-1_000_000).div(fx(-3_000_000)));
}

#[test]
fn division_by_zero_saturates() {
    assert_eq!(fx(i64::MAX), fx(1).div(fx(0)));
    assert_eq!(fx(i64::MIN), fx(-1).div(fx(0)));
    assert_eq!(fx(0), fx(0).div(fx(0)));
}

#[test]
fn quotients_saturate() {
    assert_eq!(fx(i64::MAX), fx(i64::MAX).div(fx(1)));
    assert_eq!(fx(i64::MAX), fx(i64::MIN).div(fx(-1)));
    assert_eq!(fx(i64::MIN), fx(i64::MIN).div(fx(1)));
}

#[test]
fn counts_become_whole_numbers() {
    assert_eq!(fx(0), Fixed::from_count(0));
    assert_eq!(fx(32_000_000), Fixed::from_count(32));
    assert_eq!(fx(i64::MAX), Fixed::from_count(usize::MAX));
}

#[test]
fn order_follows_the_raw_count() {
    assert!(fx(-1).le(fx(0)));
    assert!(fx(5).le(fx(5)));
    assert!(!fx(6).le(fx(5)));
}
