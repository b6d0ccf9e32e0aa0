use coingecko_tokio::text::{boolean_str, decimal_string};

#[test]
fn decimal_of_zero_is_a_single_zero() {
    assert_eq!(decimal_string(0), "0");
}

#[test]
fn decimal_of_single_digits() {
    let digits = ["0", "1", "2", "3", "4", "5", "6", "7", "8", "9"];
    let mut n: u32 = 0;
    while n < 10 {
        assert_eq!(decimal_string(n), digits[n as usize]);
        n += 1;
    }
}

#[test]
fn decimal_at_the_powers_of_ten() {
    assert_eq!(decimal_string(9), "9");
    assert_eq!(decimal_string(10), "10");
    assert_eq!(decimal_string(99), "99");
    assert_eq!(decimal_string(100), "100");
    assert_eq!(decimal_string(1000000000), "1000000000");
}

#[test]
fn decimal_of_the_largest_number() {
    assert_eq!(decimal_string(u32::MAX), "4294967295");
}

#[test]
fn decimal_keeps_inner_zeros() {
    assert_eq!(decimal_string(250), "250");
    assert_eq!(decimal_string(1002003), "1002003");
}

#[test]
fn decimal_agrees_with_the_standard_rendering() {
    let samples: [u32; 8] = [0, 7, 42, 101, 65535, 65536, 123456789, 4294967294];
    for n in samples.iter() {
        assert_eq!(decimal_string(*n), format!("{}", n));
    }
}

#[test]
fn boolean_texts() {
    assert_eq!(boolean_str(true), "true");
    assert_eq!(boolean_str(false), "false");
}
