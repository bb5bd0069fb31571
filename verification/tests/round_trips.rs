use optional_scalars::wrappers::OptFixed64;
use optional_scalars::wrappers::OptInt64;
use optional_scalars::wrappers::OptString;
use optional_scalars::wrappers::OptUint64;

#[test]
fn int64_forty_two_round_trips() {
    let w = OptInt64::from(42i64);
    assert_eq!(w.val, 42i64);
    let y = i64::from(w);
    assert_eq!(y, 42i64);
}

#[test]
fn uint64_max_round_trips() {
    let w = OptUint64::from(18446744073709551615u64);
    assert_eq!(w.val, 18446744073709551615u64);
    let y = u64::from(w);
    assert_eq!(y, 18446744073709551615u64);
}

#[test]
fn fixed64_round_trips() {
    let xs: [u64; 3] = [0, 7, u64::MAX];
    for &x in xs.iter() {
        let w = OptFixed64::from(x);
        assert_eq!(u64::from(w), x);
    }
}

#[test]
fn string_hello_round_trips() {
    let w = OptString::from(String::from("hello"));
    assert_eq!(w.val, "hello");
    let s = String::from(w);
    assert_eq!(s, "hello");
}

#[test]
fn string_empty_round_trips() {
    let w = OptString::from(String::new());
    let s = String::from(w);
    assert_eq!(s, "");
}

#[test]
fn string_multibyte_round_trips() {
    let original = String::from("héllo wörld \u{1F600} \u{4E2D}\u{6587}");
    let w = OptString::from(original.clone());
    let s = String::from(w);
    assert_eq!(s, original);
}

#[test]
fn int64_boundaries_round_trip() {
    let xs: [i64; 5] = [i64::MIN, -1, 0, 1, i64::MAX];
    for &x in xs.iter() {
        let w = OptInt64::from(x);
        assert_eq!(i64::from(w), x);
    }
}

#[test]
fn uint64_boundaries_round_trip() {
    let xs: [u64; 3] = [0, 1, u64::MAX];
    for &x in xs.iter() {
        let fixed = OptFixed64::from(x);
        assert_eq!(u64::from(fixed), x);
        let var = OptUint64::from(x);
        assert_eq!(u64::from(var), x);
    }
}
