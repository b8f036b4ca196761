use jade::ErrKind;
use jade::JadeErr;

#[test]
fn new_keeps_the_details() {
    let e = JadeErr::new("connection refused");
    assert_eq!(e.details, "connection refused");
    assert_eq!(e.kind, ErrKind::UpstreamFailure);
}

#[test]
fn to_string_gives_the_details_back() {
    let e = JadeErr::new("No user with the specified token found.");
    assert_eq!(e.to_string(), "No user with the specified token found.");
}

#[test]
fn to_string_of_empty_details_is_empty() {
    assert_eq!(JadeErr::new("").to_string(), "");
}

#[test]
fn of_keeps_kind_and_details() {
    let e = JadeErr::of(ErrKind::Forbidden, String::from("no"));
    assert_eq!(e.kind(), ErrKind::Forbidden);
    assert_eq!(e.description(), "no");
}

#[test]
fn clone_of_an_error_equals_it() {
    let e = JadeErr::of(ErrKind::Inconsistency, String::from("two active moods"));
    assert_eq!(e.clone(), e);
}

#[test]
fn errors_of_different_kinds_differ() {
    let a = JadeErr::of(ErrKind::NotFound, String::from("x"));
    let b = JadeErr::of(ErrKind::Inconsistency, String::from("x"));
    assert_ne!(a, b);
}
