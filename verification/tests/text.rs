//! Character-addressed operations on a text handle.

use spork::doc::DocHandle;
use spork::RepoError;

fn doc() -> DocHandle {
    let id = "00000000-0000-0000-0000-000000000003"
        .parse::<samod_core::DocumentId>()
        .unwrap();
    DocHandle::new(id)
}

#[test]
fn put_text_then_splice_scenario() {
    let mut d = doc();
    let t = d.put_text("body", "Hello").unwrap();
    assert_eq!(t.length(&d).unwrap(), 5);
    t.splice(&mut d, 5, 0, " World").unwrap();
    assert_eq!(t.get(&d).unwrap(), "Hello World");
    assert_eq!(t.length(&d).unwrap(), 11);
}

#[test]
fn splice_length_law_concrete() {
    let mut d = doc();
    let t = d.put_text("k", "abcdef").unwrap();
    t.splice(&mut d, 2, 2, "XYZ").unwrap();
    assert_eq!(t.get(&d).unwrap(), "abXYZef");
    assert_eq!(t.length(&d).unwrap(), 6 - 2 + 3);
}

#[test]
fn splice_inserts_exactly_at_position() {
    let mut d = doc();
    let t = d.put_text("k", "Hello World").unwrap();
    t.splice(&mut d, 6, 0, "Beautiful ").unwrap();
    assert_eq!(t.get(&d).unwrap(), "Hello Beautiful World");
}

#[test]
fn splice_deletes_exactly_at_position() {
    let mut d = doc();
    let t = d.put_text("k", "Hello cruel World").unwrap();
    t.splice(&mut d, 5, 6, "").unwrap();
    assert_eq!(t.get(&d).unwrap(), "Hello World");
}

#[test]
fn splice_negative_delete_is_rejected() {
    let mut d = doc();
    let t = d.put_text("k", "abc").unwrap();
    assert_eq!(t.splice(&mut d, 1, -1, "x"), Err(RepoError::DocumentOperationFailure));
    assert_eq!(t.get(&d).unwrap(), "abc");
}

#[test]
fn splice_out_of_range_is_rejected() {
    let mut d = doc();
    let t = d.put_text("k", "abc").unwrap();
    assert_eq!(t.splice(&mut d, 4, 0, "x"), Err(RepoError::DocumentOperationFailure));
    assert_eq!(t.splice(&mut d, 1, 3, "x"), Err(RepoError::DocumentOperationFailure));
    assert_eq!(t.get(&d).unwrap(), "abc");
}

#[test]
fn splice_at_end_and_whole_range() {
    let mut d = doc();
    let t = d.put_text("k", "abc").unwrap();
    t.splice(&mut d, 3, 0, "d").unwrap();
    assert_eq!(t.get(&d).unwrap(), "abcd");
    t.splice(&mut d, 0, 4, "").unwrap();
    assert_eq!(t.get(&d).unwrap(), "");
    assert_eq!(t.length(&d).unwrap(), 0);
}

#[test]
fn insert_is_splice_without_delete() {
    let mut d = doc();
    let t = d.put_text("k", "ac").unwrap();
    t.insert(&mut d, 1, "b").unwrap();
    assert_eq!(t.get(&d).unwrap(), "abc");
}

#[test]
fn delete_is_splice_without_insert() {
    let mut d = doc();
    let t = d.put_text("k", "abcd").unwrap();
    t.delete(&mut d, 1, 2).unwrap();
    assert_eq!(t.get(&d).unwrap(), "ad");
}

#[test]
fn append_adds_at_current_end() {
    let mut d = doc();
    let t = d.put_text("k", "Hello").unwrap();
    t.append(&mut d, " World").unwrap();
    assert_eq!(t.get(&d).unwrap(), "Hello World");
    t.append(&mut d, "!").unwrap();
    assert_eq!(t.get(&d).unwrap(), "Hello World!");
}

#[test]
fn offsets_count_characters_not_bytes() {
    let mut d = doc();
    let t = d.put_text("k", "h\u{e9}llo").unwrap();
    assert_eq!(t.length(&d).unwrap(), 5);
    t.splice(&mut d, 2, 1, "L").unwrap();
    assert_eq!(t.get(&d).unwrap(), "h\u{e9}Llo");
    t.delete(&mut d, 1, 1).unwrap();
    assert_eq!(t.get(&d).unwrap(), "hLlo");
}

#[test]
fn empty_initial_text() {
    let mut d = doc();
    let t = d.put_text("k", "").unwrap();
    assert_eq!(t.length(&d).unwrap(), 0);
    assert_eq!(t.get(&d).unwrap(), "");
    t.append(&mut d, "x").unwrap();
    assert_eq!(t.get(&d).unwrap(), "x");
}

#[test]
fn replacing_text_object_invalidates_old_handle() {
    let mut d = doc();
    let t1 = d.put_text("k", "first").unwrap();
    let t2 = d.put_text("k", "second").unwrap();
    assert_eq!(t1.get(&d), Err(RepoError::DocumentOperationFailure));
    assert_eq!(t1.length(&d), Err(RepoError::DocumentOperationFailure));
    assert_eq!(t1.splice(&mut d, 0, 0, "x"), Err(RepoError::DocumentOperationFailure));
    assert_eq!(t1.append(&mut d, "x"), Err(RepoError::DocumentOperationFailure));
    assert_eq!(t2.get(&d).unwrap(), "second");
}

#[test]
fn handle_for_other_field_stays_valid() {
    let mut d = doc();
    let t1 = d.put_text("a", "one").unwrap();
    d.put_text("b", "two").unwrap();
    d.set_string("c", "three").unwrap();
    assert_eq!(t1.get(&d).unwrap(), "one");
}

#[test]
fn get_text_returns_working_handle() {
    let mut d = doc();
    d.put_text("k", "shared").unwrap();
    let t = d.get_text("k").unwrap();
    assert_eq!(t.get(&d).unwrap(), "shared");
    t.append(&mut d, "!").unwrap();
    assert_eq!(t.get(&d).unwrap(), "shared!");
}
