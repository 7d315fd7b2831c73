use tdog::text::{str_ends_with, str_eq, str_starts_with, string_of, vec_reversed};

#[test]
fn string_helpers() {
    assert!(str_eq("abc", "abc"));
    assert!(!str_eq("abc", "abd"));
    assert!(!str_eq("ab", "abc"));
    assert!(str_ends_with("customer.deleted", ".deleted"));
    assert!(!str_ends_with("deleted", "customer.deleted"));
    assert!(str_ends_with("x", ""));
    assert!(str_starts_with("customer.discount.created", "customer.discount."));
    assert!(!str_starts_with("invoice.paid", "customer."));
    assert_eq!(tdog::text::concat("a", "bc"), "abc");
    assert_eq!(string_of("é"), "é");
    assert_eq!(vec_reversed(vec![1, 2, 3]), vec![3, 2, 1]);
    assert!(vec_reversed(Vec::<u8>::new()).is_empty());
}
