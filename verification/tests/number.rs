use tcp_server::util::number::{fold_nanos, random_non_zero_u32, reading_value};

#[test]
fn fold_nanos_values() {
    assert_eq!(fold_nanos(0), 0);
    assert_eq!(fold_nanos(5), 5);
    assert_eq!(fold_nanos(1u128 << 32), 1);
    assert_eq!(fold_nanos((3u128 << 32) | 3), 0);
    assert_eq!(fold_nanos(0x0000_0001_ffff_ffff), 0xffff_fffe);
}

#[test]
fn random_is_never_zero() {
    for _ in 0..1000 {
        assert_ne!(random_non_zero_u32(), 0);
    }
}

#[test]
fn reading_value_decisions() {
    assert_eq!(reading_value(None), None);
    assert_eq!(reading_value(Some(0)), None);
    assert_eq!(reading_value(Some((3u128 << 32) | 3)), None);
    assert_eq!(reading_value(Some(7)), Some(7));
    assert_eq!(reading_value(Some(1u128 << 32)), Some(1));
}
