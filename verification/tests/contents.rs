//! The content multiset relation: listing, removal, reuse, and the
//! error paths of content operations.

use courses::error::ZomeError;
use courses::store::EntryData;
use courses::{
    create_content, create_course, create_section, delete_content, get_contents, init,
    update_content,
};

fn course_and_section(store: &mut courses::store::Store) -> usize {
    let ca = create_course(store, String::from("C"), 1).unwrap();
    create_section(store, String::from("S"), ca, 2).unwrap()
}

#[test]
fn listing_reports_every_linked_content() {
    let mut store = init();
    let sa = course_and_section(&mut store);
    let c1 = create_content(
        &mut store,
        String::from("one"),
        String::from("http://1"),
        String::from("first"),
        3,
        sa,
    )
    .unwrap();
    let c2 = create_content(
        &mut store,
        String::from("two"),
        String::from("http://2"),
        String::from("second"),
        4,
        sa,
    )
    .unwrap();
    assert_eq!(get_contents(&store, sa).unwrap(), vec![c1, c2]);
}

#[test]
fn deleting_a_content_removes_the_edge_and_keeps_the_entry() {
    let mut store = init();
    let sa = course_and_section(&mut store);
    let c1 = create_content(
        &mut store,
        String::from("one"),
        String::from("http://1"),
        String::from("first"),
        3,
        sa,
    )
    .unwrap();
    let c2 = create_content(
        &mut store,
        String::from("two"),
        String::from("http://2"),
        String::from("second"),
        4,
        sa,
    )
    .unwrap();

    assert_eq!(delete_content(&mut store, c1, sa).unwrap(), c1);
    assert_eq!(get_contents(&store, sa).unwrap(), vec![c2]);

    // The unlinked entry survives, fetchable by address.
    match store.get_entry(c1) {
        Some(EntryData::Content(c)) => assert_eq!(c.name, "one"),
        _ => panic!("unlinked content must stay fetchable"),
    }
}

#[test]
fn content_update_keeps_timestamp_and_replaces_payload() {
    let mut store = init();
    let sa = course_and_section(&mut store);
    let c1 = create_content(
        &mut store,
        String::from("draft"),
        String::from("http://old"),
        String::from("first cut"),
        30,
        sa,
    )
    .unwrap();
    let c2 = update_content(
        &mut store,
        c1,
        String::from("final"),
        String::from("http://new"),
        String::from("second cut"),
        sa,
    )
    .unwrap();
    match store.get_entry(c2) {
        Some(EntryData::Content(c)) => {
            assert_eq!(c.name, "final");
            assert_eq!(c.url, "http://new");
            assert_eq!(c.description, "second cut");
            assert_eq!(c.timestamp, 30);
        }
        _ => panic!("updated content must be fetchable"),
    }
}

#[test]
fn deleting_an_unlinked_content_fails() {
    let mut store = init();
    let sa = course_and_section(&mut store);
    assert_eq!(delete_content(&mut store, 999, sa), Err(ZomeError::LinkNotFound));
}

#[test]
fn updating_a_missing_content_fails() {
    let mut store = init();
    let sa = course_and_section(&mut store);
    assert_eq!(
        update_content(
            &mut store,
            999,
            String::from("n"),
            String::from("u"),
            String::from("d"),
            sa
        ),
        Err(ZomeError::EntryNotFound)
    );
    // A live address that holds no content entry is refused.
    assert_eq!(
        update_content(
            &mut store,
            sa,
            String::from("n"),
            String::from("u"),
            String::from("d"),
            sa
        ),
        Err(ZomeError::EntryTypeMismatch)
    );
}

#[test]
fn error_messages_name_the_failure() {
    assert_eq!(
        ZomeError::CannotCreateInDeletedSection.message(),
        "Can't create a content in deleted section"
    );
    assert_eq!(
        ZomeError::CannotUpdateDeletedSection.message(),
        "Can't update a deleted section"
    );
    assert_eq!(
        ZomeError::CannotCreateInDeletedCourse.message(),
        "Can't create a section in deleted course"
    );
}
