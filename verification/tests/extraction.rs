use optional_scalars::wrappers::OptFixed64;
use optional_scalars::wrappers::OptInt64;
use optional_scalars::wrappers::OptString;
use optional_scalars::wrappers::OptUint64;

#[test]
fn int64_extraction_is_idempotent() {
    let w = OptInt64::from(-9000i64);
    let first = w.value();
    let second = w.value();
    assert_eq!(first, -9000i64);
    assert_eq!(second, -9000i64);
    assert_eq!(first, second);
    assert_eq!(i64::from(w), first);
}

#[test]
fn fixed64_extraction_is_idempotent() {
    let w = OptFixed64::from(12345u64);
    let first = w.value();
    let second = w.value();
    assert_eq!(first, second);
    assert_eq!(u64::from(w), 12345u64);
}

#[test]
fn uint64_extraction_is_idempotent() {
    let w = OptUint64::from(67890u64);
    let first = w.value();
    let second = w.value();
    assert_eq!(first, second);
    assert_eq!(u64::from(w), 67890u64);
}

#[test]
fn string_extraction_is_idempotent() {
    let w = OptString::from(String::from("twice"));
    let first = String::from(w.value());
    let second = String::from(w.value());
    assert_eq!(first, "twice");
    assert_eq!(first, second);
    assert_eq!(String::from(w), "twice");
}

#[test]
fn extraction_from_clones_agrees() {
    let w = OptString::from(String::from("shared"));
    let a = String::from(w.clone());
    let b = String::from(w);
    assert_eq!(a, b);
}
