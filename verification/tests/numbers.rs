use thum::text::{decimal_text, digit_text, integer_text};
use thum::voltage::volts_text;

#[test]
fn digits() {
    for d in 0..10u8 {
        assert_eq!(digit_text(d), d.to_string());
    }
}

#[test]
fn decimals_are_as_the_standard_library_writes_them() {
    for n in [0, 7, 9, 10, 99, 100, 101, 65535, 1_000_000, u32::MAX] {
        assert_eq!(decimal_text(n), n.to_string());
        assert_eq!(decimal_text(n).parse::<u32>().unwrap(), n);
    }
}

#[test]
fn integers_are_as_the_standard_library_writes_them() {
    for i in [0, 1, -1, -67, -100, 42, i32::MIN, i32::MAX] {
        assert_eq!(integer_text(i), format!("{i}"));
        assert_eq!(integer_text(i).parse::<i32>().unwrap(), i);
    }
}

#[test]
fn volts() {
    assert_eq!(volts_text(0), "0.00");
    assert_eq!(volts_text(2), "0.00");
    assert_eq!(volts_text(3), "0.01");
    assert_eq!(volts_text(1834), "3.67");
    assert_eq!(volts_text(2500), "5.00");
    assert_eq!(volts_text(65535), "131.07");
}

#[test]
fn volts_are_those_of_the_floating_point_formula() {
    for mv in 0..=u16::MAX {
        assert_eq!(volts_text(mv), format!("{:.2}", f32::from(mv) / 1000. * 2.));
    }
}

#[test]
fn volts_rise_with_the_sample() {
    let mut last: f64 = 0.0;
    for mv in 0..=u16::MAX {
        let v: f64 = volts_text(mv).parse().unwrap();
        assert!(v >= last);
        assert!((v - f64::from(mv) / 500.0).abs() < 0.005);
        last = v;
    }
}
