use pdf_doc::{In, Unit};

#[test]
fn test_to_pt() {
    let length = In(1000); // 1 inch
    let expected_points = 72_000; // 1 inch = 72 points
    let actual_points = length.pt();
    assert_eq!(actual_points, expected_points);
}

#[test]
fn test_add_in() {
    let a = In(5000);
    let b = In(3000);
    let result = a + b;
    assert_eq!(result.0, 8000);
}

#[test]
fn test_sub_in() {
    let a = In(5000);
    let b = In(3000);
    let result = a - b;
    assert_eq!(result.0, 2000);
}

#[test]
fn test_mul_in() {
    let a = In(5000);
    let b = In(3000);
    let result = a * b;
    assert_eq!(result.0, 15000);
}

#[test]
fn test_div_in() {
    let a = In(10000);
    let b = In(2000);
    let result = a / b;
    assert_eq!(result.0, 5000);
}

#[test]
fn test_rem_in() {
    let a = In(10000);
    let b = In(3000);
    let result = a % b;
    assert_eq!(result.0, 1000);
}

#[test]
fn scalar_ops_take_whole_inches() {
    let a = In(5000);
    assert_eq!((a + 2i64).0, 7000);
    assert_eq!((a - 2i64).0, 3000);
    assert_eq!((a * 2i64).0, 10000);
    assert_eq!((a / 2i64).0, 2500);
    assert_eq!((a % 2i64).0, 1000);
}

#[test]
fn pt_is_thousandths_times_72() {
    assert_eq!(In(12340).pt(), 12340 * 72);
    assert_eq!(In(-500).pt(), -36_000);
    assert_eq!(In(0).pt(), 0);
}

#[test]
fn division_rounds_toward_zero() {
    assert_eq!((In(-7000) / In(2000)).0, -3500);
    assert_eq!((In(1) * In(1)).0, 0);
    assert_eq!((In(-7) / 2i64).0, -3);
    assert_eq!((In(-7000) % In(2000)).0, -1000);
}

#[test]
fn scalar_ops_for_every_integer_width() {
    let a = In(5000);
    assert_eq!((a + 2i8).0, 7000);
    assert_eq!((a - 2u8).0, 3000);
    assert_eq!((a * 2i16).0, 10000);
    assert_eq!((a / 2u16).0, 2500);
    assert_eq!((a % 2i32).0, 1000);
    assert_eq!((a + 2u32).0, 7000);
    assert_eq!((a * 2u64).0, 10000);
    assert_eq!((a / 2isize).0, 2500);
    assert_eq!((a % 2usize).0, 1000);
    assert_eq!((a - 2i128).0, 3000);
    assert_eq!((a * 2u128).0, 10000);
}

#[test]
fn scalar_ops_with_huge_divisors() {
    let a = In(-5000);
    assert_eq!((a / u128::MAX).0, 0);
    assert_eq!((a % u128::MAX).0, -5000);
    assert_eq!((a % i128::MIN).0, -5000);
    assert_eq!((In(0) * u128::MAX).0, 0);
}
