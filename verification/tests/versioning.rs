//! The anchor-versioning pattern at the course level: create, fetch,
//! update, delete, and the permanence of each guarantee.

use courses::error::ZomeError;
use courses::store::EntryData;
use courses::{
    create_course, delete_course, get_all_courses, get_latest_course_entry, init, update_course,
};

#[test]
fn created_course_resolves_to_its_payload() {
    let mut store = init();
    let ca = create_course(&mut store, String::from("Algebra"), 100).unwrap();
    let latest = get_latest_course_entry(&store, ca).unwrap();
    let course = latest.expect("a fresh course must resolve");
    assert_eq!(course.title, "Algebra");
    assert_eq!(course.timestamp, 100);
    assert_eq!(course.anchor_address, ca);
    assert!(course.sections.is_empty());
}

#[test]
fn update_chain_keeps_every_snapshot_fetchable() {
    let mut store = init();
    let ca = create_course(&mut store, String::from("v1"), 1).unwrap();
    let first_entry = ca + 1;

    let r1 = update_course(&mut store, String::from("v2"), vec![], ca).unwrap();
    assert_eq!(r1, ca);
    let second_entry = first_entry + 1;
    let r2 = update_course(&mut store, String::from("v3"), vec![7, 8], ca).unwrap();
    assert_eq!(r2, ca);
    let third_entry = second_entry + 1;

    // The latest snapshot carries the last payload.
    let course = get_latest_course_entry(&store, ca).unwrap().unwrap();
    assert_eq!(course.title, "v3");
    assert_eq!(course.sections, vec![7, 8]);

    // History is never lost: every earlier snapshot is still fetchable
    // at its original address, with its original payload.
    for (address, title) in [(first_entry, "v1"), (second_entry, "v2"), (third_entry, "v3")] {
        match store.get_entry(address) {
            Some(EntryData::Course(c)) => assert_eq!(c.title, title),
            _ => panic!("snapshot at {address} must stay fetchable"),
        }
    }
}

#[test]
fn deleted_course_reads_none_permanently() {
    let mut store = init();
    let ca = create_course(&mut store, String::from("Gone"), 5).unwrap();
    assert_eq!(delete_course(&mut store, ca).unwrap(), ca);
    assert!(get_latest_course_entry(&store, ca).unwrap().is_none());

    // Further writes elsewhere never resurrect it.
    let other = create_course(&mut store, String::from("Other"), 6).unwrap();
    update_course(&mut store, String::from("Other2"), vec![], other).unwrap();
    assert!(get_latest_course_entry(&store, ca).unwrap().is_none());

    // And the deleted course cannot be updated or deleted again.
    assert_eq!(
        update_course(&mut store, String::from("X"), vec![], ca),
        Err(ZomeError::CannotUpdateDeletedCourse)
    );
    assert_eq!(delete_course(&mut store, ca), Err(ZomeError::EntryNotFound));
}

#[test]
fn get_latest_is_idempotent() {
    let mut store = init();
    let ca = create_course(&mut store, String::from("Stable"), 9).unwrap();
    let first = get_latest_course_entry(&store, ca).unwrap().unwrap();
    let second = get_latest_course_entry(&store, ca).unwrap().unwrap();
    assert_eq!(first.title, second.title);
    assert_eq!(first.sections, second.sections);
    assert_eq!(first.timestamp, second.timestamp);
    assert_eq!(first.anchor_address, second.anchor_address);
}

#[test]
fn catalog_lists_every_course_ever_created() {
    let mut store = init();
    let a = create_course(&mut store, String::from("A"), 1).unwrap();
    let b = create_course(&mut store, String::from("B"), 2).unwrap();
    delete_course(&mut store, a).unwrap();
    // Deletion does not unhook the anchor from the catalog.
    assert_eq!(get_all_courses(&store).unwrap(), vec![a, b]);
}

#[test]
fn fetch_through_unknown_address_reads_none() {
    let store = init();
    assert!(get_latest_course_entry(&store, 999).unwrap().is_none());
}

#[test]
fn update_through_wrong_kind_of_address_fails() {
    let mut store = init();
    let ca = create_course(&mut store, String::from("K"), 3).unwrap();
    // The course snapshot address is live but is no anchor: it carries
    // no latest-version edge, which is detected.
    assert_eq!(
        update_course(&mut store, String::from("K2"), vec![], ca + 1),
        Err(ZomeError::MissingLatestLink)
    );
    // Deleting it is refused by the kind check.
    assert_eq!(delete_course(&mut store, ca + 1), Err(ZomeError::EntryTypeMismatch));
}
