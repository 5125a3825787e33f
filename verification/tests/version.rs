use cqrs_postgres::version::{EventNumber, Version};

fn number(n: u64) -> EventNumber {
    EventNumber::new(n).unwrap()
}

#[test]
fn zero_is_no_event_number() {
    assert_eq!(EventNumber::new(0), None);
    assert_eq!(number(1).get(), 1);
    assert_eq!(number(u64::MAX).get(), u64::MAX);
}

#[test]
fn event_numbers_count_up() {
    let mut n = number(41);
    n.incr();
    assert_eq!(n, number(42));
}

#[test]
fn zero_is_the_initial_version() {
    assert_eq!(Version::new(0), Version::Initial);
    assert_eq!(Version::default(), Version::Initial);
    assert_eq!(Version::Initial.get(), 0);
    assert_eq!(Version::new(7), Version::Number(number(7)));
    assert_eq!(Version::new(7).get(), 7);
}

#[test]
fn versions_lead_to_the_next_event() {
    assert_eq!(Version::Initial.next_event(), number(1));
    assert_eq!(Version::new(7).next_event(), number(8));
    assert_eq!(Version::new(u64::MAX - 1).next_event(), number(u64::MAX));
    let mut version = Version::Initial;
    version.incr();
    assert_eq!(version, Version::new(1));
    version.incr();
    assert_eq!(version, Version::new(2));
}

#[test]
fn versions_are_ordered_by_their_numbers() {
    assert!(Version::Initial < Version::new(1));
    assert!(Version::new(1) < Version::new(2));
    assert!(Version::new(2) <= Version::new(2));
    assert!(number(3) < number(4));
}
