use rko_core::time::{Ktime, Time};

#[test]
fn time_from_secs() {
    let t = Time::from_secs(42);
    assert_eq!(t.secs, 42);
    assert_eq!(t.nsecs, 0);
    assert_eq!(Time::zero(), Time::default());
}

#[test]
fn ktime_conversions() {
    assert_eq!(Ktime::from_ns(1234).to_ns(), 1234);
    assert_eq!(Ktime::from_ms(3).to_ns(), 3_000_000);
    assert_eq!(Ktime::from_secs(2).to_ns(), 2_000_000_000);
    assert_eq!(Ktime::zero().to_ns(), 0);
}

#[test]
fn ktime_to_ms_truncates_toward_zero() {
    assert_eq!(Ktime::from_ns(1_999_999).to_ms(), 1);
    assert_eq!(Ktime::from_ns(-1_999_999).to_ms(), -1);
    assert_eq!(Ktime::from_ms(-7).to_ms(), -7);
}

#[test]
fn ktime_orders_by_value() {
    assert!(Ktime::from_ms(1) < Ktime::from_secs(1));
}
