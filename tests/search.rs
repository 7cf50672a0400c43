use std::collections::HashMap;

use custom_notes::cloud::{BucketNote, ObjectMetadata};
use custom_notes::note::{Note, NoteError};
use custom_notes::search::{
    note_from_hit, records_from_bucket, records_from_local, notes_from_hits, search_source, SearchSource,
    StoredHit,
};

fn hit(content: &str) -> StoredHit {
    StoredHit {
        id: Some(0),
        uuid: Some("u".to_string()),
        title: Some("t".to_string()),
        content: Some(content.to_string()),
        created_at: Some(0),
        updated_at: None,
        timestamp: Some(String::new()),
    }
}

#[test]
fn cloud_search_needs_a_bucket() {
    assert!(matches!(search_source(true, None), Ok(SearchSource::Local)));
    assert!(matches!(search_source(false, Some("b".to_string())), Ok(SearchSource::Bucket(b)) if b == "b"));
    assert!(matches!(search_source(false, None), Err(NoteError::MissingParameter)));
}

#[test]
fn bucket_listing_becomes_records() {
    let listing = vec![
        BucketNote {
            key: "title1.txt".to_string(),
            last_modified: Some("2024-05-05T02:51:01Z".to_string()),
            metadata: Some(ObjectMetadata {
                uuid: Some("8d5572eb-b4a0-4697-b551-fff4de57f17e".to_string()),
                timestamp: Some("2024-05-05T02:51:00.732617662+00:00".to_string()),
                created_at: None,
                updated_at: None,
                nonce: None,
            }),
            content: "content1".to_string(),
        },
        BucketNote {
            key: "title2.txt".to_string(),
            last_modified: Some("1714875557".to_string()),
            metadata: None,
            content: "content2".to_string(),
        },
    ];
    let records = records_from_bucket(&listing);
    assert_eq!(records.len(), 2);
    assert_eq!(records[0].id, 0);
    assert_eq!(records[0].uuid, "8d5572eb-b4a0-4697-b551-fff4de57f17e");
    assert_eq!(records[0].title, "title1.txt");
    assert_eq!(records[0].content, "content1");
    assert_eq!(records[0].created_at, 0);
    assert_eq!(records[0].updated_at, Some(0));
    assert_eq!(records[0].timestamp.as_deref(), Some("2024-05-05T02:51:00.732617662+00:00"));
    assert_eq!(records[1].uuid, "");
    assert_eq!(records[1].updated_at, Some(1714875557));
    assert_eq!(records[1].timestamp.as_deref(), Some(""));
}

#[test]
fn local_notes_become_records() {
    let notes = vec![Note {
        id: Some(4),
        uuid: None,
        title: "t".to_string(),
        content: "apple pie recipe".to_string(),
        nonce: Some("n".to_string()),
        created_at: 12,
        updated_at: Some(13),
        timestamp: None,
    }];
    let records = records_from_local(&notes);
    assert_eq!(records.len(), 1);
    assert_eq!(records[0].id, 4);
    assert_eq!(records[0].uuid, "");
    assert_eq!(records[0].content, "apple pie recipe");
    assert_eq!(records[0].created_at, 12);
    assert_eq!(records[0].updated_at, Some(13));
    assert_eq!(records[0].timestamp, None);
}

#[test]
fn hits_become_notes_with_defaults() {
    let n = note_from_hit(StoredHit {
        id: None,
        uuid: None,
        title: None,
        content: None,
        created_at: None,
        updated_at: None,
        timestamp: None,
    });
    assert_eq!(n.id, None);
    assert_eq!(n.title, "");
    assert_eq!(n.content, "");
    assert_eq!(n.created_at, 0);
    assert_eq!(n.nonce, None);
    let n = note_from_hit(hit("apple pie recipe"));
    assert_eq!(n.content, "apple pie recipe");
    assert_eq!(n.uuid.as_deref(), Some("u"));
}

#[test]
fn search_keeps_engine_order_and_at_most_ten() {
    let notes = notes_from_hits(vec![hit("banana bread recipe"), hit("apple pie recipe")]);
    assert_eq!(notes.len(), 2);
    assert_eq!(notes[0].content, "banana bread recipe");
    assert_eq!(notes[1].content, "apple pie recipe");
    let many: Vec<StoredHit> = (0..15).map(|i| hit(&i.to_string())).collect();
    let notes = notes_from_hits(many);
    assert_eq!(notes.len(), 10);
    assert_eq!(notes[9].content, "9");
    assert!(notes_from_hits(vec![]).is_empty());
}

#[test]
fn test_transform_bucket_notes() {
    let mut map1 = HashMap::new();
    map1.insert("timestamp".to_string(), "2024-05-05T02:51:00.732617662+00:00".to_string());
    map1.insert("uuid".to_string(), "8d5572eb-b4a0-4697-b551-fff4de57f17e".to_string());

    let mut map2 = HashMap::new();
    map2.insert("timestamp".to_string(), "2024-05-05T02:19:16.798625250+00:00".to_string());
    map2.insert("uuid".to_string(), "da1417b4-17b9-47a6-84fe-ea049d223cc3".to_string());

    let bucket_notes = vec![
        ("title1.txt".to_string(), Some("2024-05-05T02:51:01Z".to_string()), Some(map1), "content1".to_string()),
        ("title2.txt".to_string(), Some("2024-05-05T02:19:17Z".to_string()), Some(map2), "content2".to_string()),
    ];
    let expected_output = vec![
        (0, "title1.txt".to_string(), "content1".to_string(), String::new(), 0, None::<String>, None::<String>),
        (0, "title2.txt".to_string(), "content2".to_string(), String::new(), 0, None::<String>, None::<String>),
    ];

    let listing: Vec<BucketNote> = bucket_notes
        .iter()
        .map(|(key, last_modified, metadata, content)| BucketNote {
            key: key.clone(),
            last_modified: last_modified.clone(),
            metadata: metadata.as_ref().map(|m| ObjectMetadata {
                uuid: m.get("uuid").cloned(),
                timestamp: m.get("timestamp").cloned(),
                created_at: m.get("created_at").cloned(),
                updated_at: m.get("updated_at").cloned(),
                nonce: m.get("nonce").cloned(),
            }),
            content: content.clone(),
        })
        .collect();
    let records = records_from_bucket(&listing);
    assert_eq!(records.len(), 2);
    assert_eq!(records[1].uuid, "da1417b4-17b9-47a6-84fe-ea049d223cc3");

    let output: Vec<_> = bucket_notes
        .into_iter()
        .map(|(title, _, _, content)| (0, title, content, String::new(), 0, None, None))
        .collect();

    assert_eq!(output, expected_output);
}
