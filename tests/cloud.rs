use custom_notes::cloud::{
    delete_bucket_notes, fetch_bucket_note, fetch_bucket_notes, find_note_by_uuid, locate_bucket_note,
    seal_upload, update_bucket_note, upload_note_to_bucket, BucketNote, FetchedObject, ObjectHead,
    ObjectMetadata,
};
use custom_notes::envelope::{open, seal};
use custom_notes::note::{Note, NoteError};

fn note(title: &str, content: &str) -> Note {
    Note {
        id: Some(3),
        uuid: None,
        title: title.to_string(),
        content: content.to_string(),
        nonce: None,
        created_at: 1714876260,
        updated_at: None,
        timestamp: None,
    }
}

fn metadata(uuid: &str, nonce: Option<String>) -> ObjectMetadata {
    ObjectMetadata {
        uuid: Some(uuid.to_string()),
        timestamp: Some("2024-05-05T02:51:00.732617662+00:00".to_string()),
        created_at: Some("1714876260".to_string()),
        updated_at: Some("0".to_string()),
        nonce,
    }
}

fn uploaded(title: &str, content: &str, uuid: &str) -> (ObjectHead, Vec<u8>) {
    let object = upload_note_to_bucket(&note(title, content), uuid.to_string()).unwrap();
    (ObjectHead { key: object.key, metadata: Some(object.metadata) }, object.body)
}

#[test]
fn identity_scan_finds_the_tagged_object() {
    let (head_a, body_a) = uploaded("same title", "first body", "a");
    let (head_b, body_b) = uploaded("same title", "second body", "b");
    let heads = vec![head_a.clone(), head_b.clone()];

    let i = find_note_by_uuid(&heads, &"b".to_string()).unwrap();
    assert_eq!(i, 1);
    let bodies = [body_a, body_b];
    let found = fetch_bucket_note(heads[i].key.clone(), &heads[i].metadata, &bodies[i], &"b".to_string(), 99).unwrap();
    assert_eq!(found.content, "second body");
    assert_eq!(found.uuid.as_deref(), Some("b"));
    assert_eq!(found.title, "same title.txt");
    assert_eq!(found.id, None);
    assert_eq!(found.created_at, 1714876260);
    assert_eq!(found.updated_at, Some(99));

    assert_eq!(find_note_by_uuid(&heads, &"c".to_string()), None);
    assert_eq!(locate_bucket_note(&heads, &"c".to_string()), Err(NoteError::NotFound));
    assert_eq!(locate_bucket_note(&heads, &"a".to_string()), Ok(0));
}

#[test]
fn scan_skips_objects_without_metadata_and_stops_at_the_first_match() {
    let (head, _) = uploaded("t", "c", "x");
    let heads = vec![
        ObjectHead { key: "bare.txt".to_string(), metadata: None },
        head.clone(),
        head,
    ];
    assert_eq!(find_note_by_uuid(&heads, &"x".to_string()), Some(1));
    assert_eq!(find_note_by_uuid(&vec![], &"x".to_string()), None);
}

#[test]
fn upload_writes_key_body_and_metadata() {
    let object = seal_upload(&note("Groceries", "milk"), "u-9".to_string(), &[0u8; 12], "ts".to_string()).unwrap();
    assert_eq!(object.key, "Groceries.txt");
    assert_eq!(object.metadata.uuid.as_deref(), Some("u-9"));
    assert_eq!(object.metadata.timestamp.as_deref(), Some("ts"));
    assert_eq!(object.metadata.created_at.as_deref(), Some("1714876260"));
    assert_eq!(object.metadata.updated_at.as_deref(), Some("0"));
    assert_eq!(object.metadata.nonce.as_deref(), Some("AAAAAAAAAAAAAAAA"));
    assert_eq!(open(&object.body, &[0u8; 12]).unwrap(), "milk");

    let mut later = note("Groceries", "milk");
    later.updated_at = Some(-5);
    let object = seal_upload(&later, "u-9".to_string(), &[0u8; 12], "ts".to_string()).unwrap();
    assert_eq!(object.metadata.updated_at.as_deref(), Some("-5"));
    assert_eq!(
        upload_note_to_bucket(&note(&"a".repeat(101), "c"), "u".to_string()).unwrap_err(),
        NoteError::TitleTooLong
    );
}

#[test]
fn bucket_update_rewrites_the_found_object() {
    let (head_a, _) = uploaded("one", "1", "a");
    let (head_b, _) = uploaded("two", "2", "b");
    let heads = vec![head_a, head_b];
    let mut edit = note("renamed", "fresh text");
    edit.uuid = Some("b".to_string());
    let object = update_bucket_note(&heads, &edit).unwrap();
    assert_eq!(object.key, "two.txt");
    assert_eq!(object.metadata.uuid.as_deref(), Some("b"));
    assert_eq!(object.metadata.created_at.as_deref(), Some("1714876260"));
    assert_eq!(object.metadata.updated_at.as_deref(), Some("0"));
    assert_ne!(object.metadata.nonce, heads[1].metadata.as_ref().unwrap().nonce);
    let fetched = fetch_bucket_note(object.key.clone(), &Some(object.metadata.clone()), &object.body, &"b".to_string(), 0).unwrap();
    assert_eq!(fetched.content, "fresh text");

    edit.uuid = Some("c".to_string());
    assert_eq!(update_bucket_note(&heads, &edit).unwrap_err(), NoteError::NotFound);
    edit.uuid = None;
    assert_eq!(update_bucket_note(&heads, &edit).unwrap_err(), NoteError::NotFound);
}

#[test]
fn bucket_object_with_bad_nonce_fails() {
    let (sealed, nonce) = seal("body").unwrap();
    let no_nonce = Some(metadata("a", None));
    assert_eq!(fetch_bucket_note("k".to_string(), &no_nonce, &sealed, &"a".to_string(), 0).unwrap_err(), NoteError::InvalidNonce);
    assert_eq!(fetch_bucket_note("k".to_string(), &None, &sealed, &"a".to_string(), 0).unwrap_err(), NoteError::InvalidNonce);
    let short = Some(metadata("a", Some("AAAAAAAAAAAAAA==".to_string())));
    assert_eq!(fetch_bucket_note("k".to_string(), &short, &sealed, &"a".to_string(), 0).unwrap_err(), NoteError::InvalidNonce);
    let garbled = Some(metadata("a", Some("!!".to_string())));
    assert_eq!(fetch_bucket_note("k".to_string(), &garbled, &sealed, &"a".to_string(), 0).unwrap_err(), NoteError::CorruptEnvelope);
    let wrong = Some(metadata("a", Some("AQEBAQEBAQEBAQEB".to_string())));
    if nonce != [1u8; 12] {
        assert_eq!(fetch_bucket_note("k".to_string(), &wrong, &sealed, &"a".to_string(), 0).unwrap_err(), NoteError::DecryptionFailed);
    }
}

#[test]
fn listing_opens_every_object_or_fails_whole() {
    let a = upload_note_to_bucket(&note("a", "alpha"), "ua".to_string()).unwrap();
    let b = upload_note_to_bucket(&note("b", "beta"), "ub".to_string()).unwrap();
    let fetched = |o: &custom_notes::cloud::BucketObject| FetchedObject {
        key: o.key.clone(),
        last_modified: Some("2024-05-05T02:51:01Z".to_string()),
        metadata: Some(o.metadata.clone()),
        body: o.body.clone(),
    };
    let listing = fetch_bucket_notes(vec![fetched(&a), fetched(&b)]).unwrap();
    assert_eq!(listing.len(), 2);
    assert_eq!(listing[0].key, "a.txt");
    assert_eq!(listing[0].content, "alpha");
    assert_eq!(listing[1].content, "beta");
    assert_eq!(listing[1].metadata.as_ref().unwrap().uuid.as_deref(), Some("ub"));
    assert_eq!(listing[1].last_modified.as_deref(), Some("2024-05-05T02:51:01Z"));

    let mut broken = fetched(&b);
    broken.metadata = None;
    assert_eq!(fetch_bucket_notes(vec![fetched(&a), broken]).unwrap_err(), NoteError::InvalidNonce);
}

#[test]
fn clearing_a_bucket_deletes_only_objects_with_a_uuid() {
    let with = |uuid: Option<&str>| BucketNote {
        key: "k.txt".to_string(),
        last_modified: None,
        metadata: Some(ObjectMetadata {
            uuid: uuid.map(|u| u.to_string()),
            timestamp: None,
            created_at: None,
            updated_at: None,
            nonce: None,
        }),
        content: String::new(),
    };
    let bare = BucketNote { key: "bare".to_string(), last_modified: None, metadata: None, content: String::new() };
    let uuids = delete_bucket_notes(&vec![with(Some("a")), bare, with(None), with(Some("b"))]);
    assert_eq!(uuids, vec!["a".to_string(), "b".to_string()]);
    assert!(delete_bucket_notes(&vec![]).is_empty());
}
