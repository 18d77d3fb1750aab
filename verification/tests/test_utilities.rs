use ls7366::utilities::{vec_to_i64, vec_to_u32};

#[test]
fn test_vec_to_u32() {
    assert_eq!(vec_to_u32(&vec![0xDE, 0xAD, 0xBE, 0xEF]), 0xDEADBEEF);
    assert_eq!(vec_to_u32(&vec![0x00, 0x00, 0x00, 0x0]), 0x0000000)
}

#[test]
fn utilities_test_vec_to_u32() {
    assert_eq!(vec_to_i64(&vec![0xDE, 0xAD, 0xBE, 0xEF]), 0xDEADBEEF);
    assert_eq!(vec_to_i64(&vec![0x00, 0x00, 0x00, 0x0]), 0x0000000)
}

#[test]
fn test_vec_to_u32_short_input() {
    assert_eq!(vec_to_u32(&vec![]), 0);
    assert_eq!(vec_to_u32(&vec![0x7F]), 0x7F);
    assert_eq!(vec_to_u32(&vec![0x01, 0x00]), 0x100);
}

#[test]
fn test_vec_to_i64_is_unsigned_magnitude() {
    // The most significant bit is part of the magnitude, not a sign.
    assert_eq!(vec_to_i64(&vec![0xFF, 0xFF, 0xFF, 0xFF]), 0xFFFFFFFF);
}
