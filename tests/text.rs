use mission_control::text::{push_decimal, str_equal};

#[test]
fn decimal_notation() {
    let mut s = String::new();
    push_decimal(&mut s, 0);
    assert_eq!(s, "0");
    let mut s = String::from("port ");
    push_decimal(&mut s, 5173);
    assert_eq!(s, "port 5173");
    let mut s = String::new();
    push_decimal(&mut s, u32::MAX);
    assert_eq!(s, "4294967295");
    let mut s = String::new();
    push_decimal(&mut s, 100);
    assert_eq!(s, "100");
}

#[test]
fn string_equality() {
    assert!(str_equal("", ""));
    assert!(str_equal("quit", "quit"));
    assert!(!str_equal("quit", "quiT"));
    assert!(!str_equal("quit", "quits"));
    assert!(str_equal("héllo", "héllo"));
    assert!(!str_equal("héllo", "hello"));
}
