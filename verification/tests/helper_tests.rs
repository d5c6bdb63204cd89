use rusty::{element_at, get_array_length, hello_napi, modulo, plus_100};

#[test]
fn hello_greets_the_given_name() {
    assert_eq!(hello_napi(Some("world".to_string())), "Hello, world!");
}

#[test]
fn hello_greets_the_default_guest() {
    assert_eq!(hello_napi(None), "Hello, napi-rs!");
}

#[test]
fn hello_keeps_an_empty_name() {
    assert_eq!(hello_napi(Some(String::new())), "Hello, !");
}

#[test]
fn hello_keeps_non_ascii_names() {
    assert_eq!(hello_napi(Some("Zoë ☕".to_string())), "Hello, Zoë ☕!");
}

#[test]
fn modulo_prefers_four() {
    assert_eq!(modulo(0), "index is divisible by 4");
    assert_eq!(modulo(4), "index is divisible by 4");
    assert_eq!(modulo(12), "index is divisible by 4");
}

#[test]
fn modulo_then_three() {
    assert_eq!(modulo(3), "index is divisible by 3");
    assert_eq!(modulo(6), "index is divisible by 3");
    assert_eq!(modulo(9), "index is divisible by 3");
}

#[test]
fn modulo_then_two() {
    assert_eq!(modulo(2), "index is divisible by 2");
    assert_eq!(modulo(10), "index is divisible by 2");
}

#[test]
fn modulo_none_of_them() {
    assert_eq!(modulo(1), "index is not divisible by 4, 3, or 2");
    assert_eq!(modulo(5), "index is not divisible by 4, 3, or 2");
    assert_eq!(modulo(usize::MAX), "index is divisible by 3");
}

#[test]
fn element_at_within_bounds() {
    let items = [1, 2, 3, 4, 5];
    assert_eq!(element_at(&items, 0), (0, 1));
    assert_eq!(element_at(&items, 4), (4, 5));
}

#[test]
fn element_at_wraps_past_the_end() {
    let items = [1, 2, 3, 4, 5];
    assert_eq!(element_at(&items, 5), (0, 1));
    assert_eq!(element_at(&items, 7), (2, 3));
    assert_eq!(element_at(&items, 104), (4, 5));
}

#[test]
fn plus_100_adds_one_hundred() {
    assert_eq!(plus_100(0), 100);
    assert_eq!(plus_100(23), 123);
    assert_eq!(plus_100(u32::MAX - 100), u32::MAX);
}

#[test]
fn get_array_length_counts_elements() {
    assert_eq!(get_array_length(Vec::<u8>::new()), 0);
    assert_eq!(get_array_length(vec![7, 8, 9]), 3);
    assert_eq!(get_array_length(vec!["a".to_string(); 1000]), 1000);
}
