use std::cmp::Ordering;

use remote_control::control::Identifier;
use remote_control::order::bytes_precede;

#[test]
fn bytes_in_dictionary_order() {
    assert!(!bytes_precede(b"", b""));
    assert!(bytes_precede(b"", b"a"));
    assert!(!bytes_precede(b"a", b""));
    assert!(bytes_precede(b"a", b"b"));
    assert!(!bytes_precede(b"b", b"a"));
    assert!(bytes_precede(b"ab", b"abc"));
    assert!(!bytes_precede(b"abc", b"ab"));
    assert!(!bytes_precede(b"abc", b"abc"));
    assert!(bytes_precede(b"abc", b"abd"));
    assert!(bytes_precede(b"abz", b"b"));
    assert!(bytes_precede(&[1, 255], &[2, 0]));
    assert!(!bytes_precede(&[200], &[100, 100]));
}

#[test]
fn identifiers_are_ordered_by_name_only() {
    let speed = Identifier::new("control.speed", "A", None);
    let coordinates = Identifier::new("control.coordinates", "Z", Some("z"));
    let speed_again = Identifier::new("control.speed", "Z", Some("other"));
    assert!(coordinates < speed);
    assert!(coordinates.precedes(&speed));
    assert!(!speed.precedes(&coordinates));
    assert!(!(speed < coordinates));
    assert!(speed > coordinates);
    assert!(!speed.precedes(&speed_again));
    assert!(!speed_again.precedes(&speed));
    assert!(speed <= speed_again && speed >= speed_again);
    assert_eq!(speed.partial_cmp(&speed_again), Some(Ordering::Equal));
    assert_eq!(coordinates.partial_cmp(&speed), Some(Ordering::Less));
    assert_eq!(speed.partial_cmp(&coordinates), Some(Ordering::Greater));
}

#[test]
fn identifier_order_agrees_with_string_order() {
    let names = ["", "a", "ab", "b", "control.speed", "control.Speed", "é", "z", "日本", "~"];
    for left in names {
        for right in names {
            let a = Identifier::new(left, "", None);
            let b = Identifier::new(right, "", None);
            assert_eq!(a.precedes(&b), left < right);
            assert_eq!(a.partial_cmp(&b), Some(left.cmp(right)));
            assert_eq!(a == b, left == right);
        }
    }
}
