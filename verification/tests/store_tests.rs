use wsrelay::store::StoreState;

#[test]
fn fresh_store_is_version_zero_and_empty() {
    let s = StoreState::new();
    let (v, p) = s.read();
    assert_eq!(v, 0);
    assert_eq!(p, "");
}

#[test]
fn each_write_bumps_version_by_one_and_replaces_payload() {
    let mut s = StoreState::new();
    s.write("a".to_string());
    s.write("b".to_string());
    s.write("c".to_string());
    let (v, p) = s.read();
    assert_eq!(v, 3);
    assert_eq!(p, "c");
}

#[test]
fn write_at_max_version_wraps_to_zero() {
    let mut s = StoreState { version: u32::MAX, payload: String::new() };
    s.write("x".to_string());
    let (v, p) = s.read();
    assert_eq!(v, 0);
    assert_eq!(p, "x");
}

#[test]
fn read_returns_the_pair_of_one_state() {
    let mut s = StoreState::new();
    s.write("hello".to_string());
    let (v, p) = s.read();
    assert_eq!(v, 1);
    assert_eq!(p, "hello");
}

#[test]
fn empty_payload_may_be_written() {
    let mut s = StoreState::new();
    s.write("something".to_string());
    s.write(String::new());
    let (v, p) = s.read();
    assert_eq!(v, 2);
    assert_eq!(p, "");
}
