//! The course -> section -> content hierarchy: parent-liveness gating,
//! the per-level deletion policy, and the full walk-through scenario.

use courses::error::ZomeError;
use courses::store::EntryData;
use courses::{
    create_content, create_course, create_section, delete_section, get_contents,
    get_latest_section_entry, init, update_content, update_section,
};

#[test]
fn section_lives_under_its_course() {
    let mut store = init();
    let ca = create_course(&mut store, String::from("Course"), 1).unwrap();
    let sa = create_section(&mut store, String::from("Part one"), ca, 2).unwrap();
    let section = get_latest_section_entry(&store, sa).unwrap().unwrap();
    assert_eq!(section.title, "Part one");
    assert_eq!(section.timestamp, 2);
    assert_eq!(section.anchor_address, sa);
}

#[test]
fn section_update_swaps_the_latest_snapshot() {
    let mut store = init();
    let ca = create_course(&mut store, String::from("Course"), 1).unwrap();
    let sa = create_section(&mut store, String::from("Old"), ca, 2).unwrap();
    assert_eq!(update_section(&mut store, String::from("New"), sa).unwrap(), sa);
    let section = get_latest_section_entry(&store, sa).unwrap().unwrap();
    assert_eq!(section.title, "New");
    // The timestamp is part of the created payload and is kept.
    assert_eq!(section.timestamp, 2);
}

#[test]
fn create_section_in_deleted_course_fails_without_orphans() {
    let mut store = init();
    let ca = create_course(&mut store, String::from("Doomed"), 1).unwrap();
    courses::delete_course(&mut store, ca).unwrap();
    let next_address = store.entry_count();

    let result = create_section(&mut store, String::from("Orphan"), ca, 2);
    assert_eq!(result, Err(ZomeError::CannotCreateInDeletedCourse));

    // Nothing was committed on the failure path: no anchor, no entry.
    assert_eq!(store.entry_count(), next_address);
    assert!(store.get_entry(next_address).is_none());
}

#[test]
fn update_of_deleted_section_fails() {
    let mut store = init();
    let ca = create_course(&mut store, String::from("C"), 1).unwrap();
    let sa = create_section(&mut store, String::from("S"), ca, 2).unwrap();
    delete_section(&mut store, sa).unwrap();
    assert_eq!(
        update_section(&mut store, String::from("S2"), sa),
        Err(ZomeError::CannotUpdateDeletedSection)
    );
    assert_eq!(
        create_content(&mut store, String::from("n"), String::from("u"), String::from("d"), 3, sa),
        Err(ZomeError::CannotCreateInDeletedSection)
    );
}

#[test]
fn course_scenario_walkthrough() {
    let mut store = init();
    let ca = create_course(&mut store, String::from("Algebra"), 100).unwrap();
    let sa = create_section(&mut store, String::from("Intro"), ca, 101).unwrap();
    let k1 = create_content(
        &mut store,
        String::from("video1"),
        String::from("http://x"),
        String::from("intro video"),
        102,
        sa,
    )
    .unwrap();
    assert_eq!(get_contents(&store, sa).unwrap(), vec![k1]);

    let k2 = update_content(
        &mut store,
        k1,
        String::from("video1-fixed"),
        String::from("http://y"),
        String::from("intro video v2"),
        sa,
    )
    .unwrap();
    assert_ne!(k1, k2);
    assert_eq!(get_contents(&store, sa).unwrap(), vec![k2]);

    // The replaced content stays fetchable directly.
    match store.get_entry(k1) {
        Some(EntryData::Content(c)) => assert_eq!(c.name, "video1"),
        _ => panic!("replaced content must stay fetchable"),
    }

    delete_section(&mut store, sa).unwrap();
    assert!(get_latest_section_entry(&store, sa).unwrap().is_none());

    // Content is not cascaded by section deletion.
    match store.get_entry(k2) {
        Some(EntryData::Content(c)) => {
            assert_eq!(c.name, "video1-fixed");
            assert_eq!(c.url, "http://y");
            assert_eq!(c.description, "intro video v2");
            assert_eq!(c.timestamp, 102);
        }
        _ => panic!("content must survive section deletion"),
    }
}
