use git2::signature::{from_c_sig, time_cmp, to_c_sig, Signature, Time};
use std::cmp::Ordering;

fn at(time: i64, offset: i64) -> Time {
    Time { time, offset }
}

fn signed(name: &str, email: &str, when: Time) -> Signature {
    Signature { name: name.to_string(), email: email.to_string(), when }
}

#[test]
fn time_cmp_is_the_difference_of_instants() {
    assert_eq!(time_cmp(&at(1000, 0), &at(400, 0)), 600);
    assert_eq!(time_cmp(&at(400, 0), &at(1000, 0)), -600);
    assert_eq!(time_cmp(&at(0, 1), &at(0, 0)), 60);
    assert_eq!(time_cmp(&at(100, -2), &at(0, 3)), 100 - 120 - 180);
    assert_eq!(time_cmp(&at(7, 5), &at(7, 5)), 0);
}

#[test]
fn times_of_one_instant_are_equal() {
    let a = at(3600, 0);
    let b = at(0, 60);
    assert_eq!(time_cmp(&a, &b), 0);
    assert!(a == b);
    assert!(a.equals(&b));
    assert_eq!(a.cmp(&b), Ordering::Equal);
    assert!(!(a < b) && !(b < a));
}

#[test]
fn times_are_ordered_by_instant_not_by_fields() {
    let earlier = at(1000, -60);
    let later = at(0, 10);
    assert!(earlier.time > later.time);
    assert!(earlier < later);
    assert_eq!(earlier.cmp(&later), Ordering::Less);
    assert_eq!(later.cmp(&earlier), Ordering::Greater);
    assert_eq!(earlier.partial_cmp(&later), Some(Ordering::Less));
}

#[test]
fn time_cmp_does_not_wrap() {
    assert_eq!(time_cmp(&at(i64::MAX, 0), &at(i64::MIN, 0)), i64::MAX);
    assert_eq!(time_cmp(&at(i64::MIN, 0), &at(i64::MAX, 0)), i64::MIN);
    assert_eq!(time_cmp(&at(i64::MAX, i64::MAX), &at(0, 0)), i64::MAX);
    assert_eq!(time_cmp(&at(0, i64::MIN), &at(0, 0)), i64::MIN);
    assert!(at(i64::MAX, 1) > at(i64::MAX, 0));
    assert!(at(i64::MIN, 0) < at(i64::MAX, 0));
    assert_eq!(time_cmp(&at(i64::MAX, 1), &at(i64::MAX, 0)), 60);
}

#[test]
fn signature_goes_to_the_engine_as_c_strings() {
    let sig = signed("Ann", "ann@example.org", at(1_370_000_000, 120));
    let raw = to_c_sig(&sig).unwrap();
    assert_eq!(raw.name, b"Ann\0".to_vec());
    assert_eq!(raw.email, b"ann@example.org\0".to_vec());
    assert_eq!(raw.time, 1_370_000_000);
    assert_eq!(raw.offset, 120);
}

#[test]
fn signature_keeps_text_beyond_ascii() {
    let sig = signed("Zo\u{eb}", "", at(0, -720));
    let raw = to_c_sig(&sig).unwrap();
    assert_eq!(raw.name, vec![b'Z', b'o', 0xc3, 0xab, 0]);
    assert_eq!(raw.email, vec![0]);
    assert_eq!(raw.offset, -720);
}

#[test]
fn signature_with_a_zero_byte_has_no_engine_form() {
    assert!(to_c_sig(&signed("A\0nn", "ann@example.org", at(0, 0))).is_none());
    assert!(to_c_sig(&signed("Ann", "\0", at(0, 0))).is_none());
}

#[test]
fn signature_with_an_offset_beyond_a_c_int_has_no_engine_form() {
    assert!(to_c_sig(&signed("Ann", "a", at(0, i32::MAX as i64 + 1))).is_none());
    assert!(to_c_sig(&signed("Ann", "a", at(0, i32::MIN as i64 - 1))).is_none());
    assert_eq!(to_c_sig(&signed("Ann", "a", at(0, i32::MAX as i64))).unwrap().offset, i32::MAX);
    assert_eq!(to_c_sig(&signed("Ann", "a", at(0, i32::MIN as i64))).unwrap().offset, i32::MIN);
}

#[test]
fn signature_comes_back_from_the_engine() {
    let sig = from_c_sig("Ann".to_string(), "ann@example.org".to_string(), 99, -30);
    assert_eq!(sig.name, "Ann");
    assert_eq!(sig.email, "ann@example.org");
    assert_eq!(sig.when.time, 99);
    assert_eq!(sig.when.offset, -30);
    let raw = to_c_sig(&sig).unwrap();
    assert_eq!((raw.time, raw.offset), (99, -30));
}

#[test]
fn signatures_are_equal_by_texts_and_instant() {
    let a = signed("Ann", "ann@example.org", at(3600, 0));
    assert!(a == signed("Ann", "ann@example.org", at(0, 60)));
    assert!(a != signed("Ann", "ann@example.org", at(3601, 0)));
    assert!(a != signed("Bob", "ann@example.org", at(3600, 0)));
    assert!(a != signed("Ann", "bob@example.org", at(3600, 0)));
}
