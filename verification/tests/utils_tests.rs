use egui_luminance::utils::{binary_of, V};

#[test]
fn binary_of_zero_and_one() {
    assert_eq!(binary_of(0), "0");
    assert_eq!(binary_of(1), "1");
}

#[test]
fn binary_of_small_numbers() {
    assert_eq!(binary_of(2), "10");
    assert_eq!(binary_of(5), "101");
    assert_eq!(binary_of(255), "11111111");
    assert_eq!(binary_of(256), "100000000");
}

#[test]
fn binary_of_the_largest_number() {
    assert_eq!(binary_of(u32::MAX), "11111111111111111111111111111111");
}

#[test]
fn binary_of_agrees_with_the_standard_formatter() {
    let mut n: u32 = 1;
    for _ in 0..200 {
        assert_eq!(binary_of(n), format!("{:b}", n));
        n = n.wrapping_mul(2654435761).wrapping_add(12345);
    }
}

#[test]
fn list_is_separated_by_single_spaces() {
    assert_eq!(V(vec![1, 2, 3]).to_binary_string(), "1 10 11");
    assert_eq!(V(vec![0, 0]).to_binary_string(), "0 0");
}

#[test]
fn empty_list_is_empty_text() {
    assert_eq!(V(vec![]).to_binary_string(), "");
}

#[test]
fn single_number_has_no_separator() {
    assert_eq!(V(vec![6]).to_binary_string(), "110");
}
