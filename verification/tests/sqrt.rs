use rust_pong::game::sqrt::integer_sqrt;

#[test]
fn integer_sqrt_of_small_numbers() {
    let expected = [0u128, 1, 1, 1, 2, 2, 2, 2, 2, 3, 3, 3, 3, 3, 3, 3, 4, 4];
    for (n, root) in expected.iter().enumerate() {
        assert_eq!(*root, integer_sqrt(n as u128), "for {n}");
    }
}

#[test]
fn integer_sqrt_rounds_down() {
    assert_eq!(7_000, integer_sqrt(49_000_000));
    assert_eq!(6_999, integer_sqrt(48_999_999));
    assert_eq!(7_000, integer_sqrt(49_014_000));
    assert_eq!(7_001, integer_sqrt(49_014_001));
    assert_eq!(7_000_000_000_000, integer_sqrt(49_000_000_000_000_000_000_000_000));
    assert_eq!(6_999_999_999_999, integer_sqrt(48_999_999_999_999_999_999_999_999));
    assert_eq!(4_898_979_485_566, integer_sqrt(24_000_000_000_000_000_000_000_000));
}

#[test]
fn integer_sqrt_at_the_end_of_the_number_range() {
    let last: u128 = 18_446_744_073_709_551_615;
    assert_eq!(last, integer_sqrt(u128::MAX));
    assert_eq!(last, integer_sqrt(last * last));
    assert_eq!(last - 1, integer_sqrt(last * last - 1));
}

#[test]
fn integer_sqrt_brackets_every_number() {
    let mut n: u128 = 1;
    while n < u128::MAX / 3 {
        let root = integer_sqrt(n);
        assert!(root * root <= n, "for {n}");
        assert!(root < 18_446_744_073_709_551_615, "for {n}");
        assert!(n < (root + 1) * (root + 1), "for {n}");
        n = n * 3 + 1;
    }
}
