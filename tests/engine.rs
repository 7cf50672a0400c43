use custom_notes::engine::search_in_notes;
use custom_notes::note::NoteError;
use custom_notes::search::SearchRecord;

fn record(id: i64, title: &str, content: &str) -> SearchRecord {
    SearchRecord {
        id,
        uuid: format!("uuid-{}", id),
        title: title.to_string(),
        content: content.to_string(),
        created_at: 100 + id,
        updated_at: None,
        timestamp: Some("2024-05-05T02:51:00+00:00".to_string()),
    }
}

fn records() -> Vec<SearchRecord> {
    vec![record(1, "Dessert", "apple pie recipe"), record(2, "Baking", "banana bread recipe")]
}

#[test]
fn query_matches_one_note() {
    let hits = search_in_notes("apple", &records()).unwrap();
    assert_eq!(hits.len(), 1);
    assert_eq!(hits[0].content, "apple pie recipe");
    assert_eq!(hits[0].title, "Dessert");
    assert_eq!(hits[0].id, Some(1));
    assert_eq!(hits[0].uuid.as_deref(), Some("uuid-1"));
    assert_eq!(hits[0].created_at, 101);
    assert_eq!(hits[0].updated_at, None);
    assert_eq!(hits[0].timestamp.as_deref(), Some("2024-05-05T02:51:00+00:00"));
    assert_eq!(hits[0].nonce, None);
}

#[test]
fn query_matches_both_notes() {
    let hits = search_in_notes("recipe", &records()).unwrap();
    assert_eq!(hits.len(), 2);
    let mut contents: Vec<&str> = hits.iter().map(|n| n.content.as_str()).collect();
    contents.sort();
    assert_eq!(contents, vec!["apple pie recipe", "banana bread recipe"]);
}

#[test]
fn query_matches_nothing() {
    assert!(search_in_notes("mango", &records()).unwrap().is_empty());
    assert!(search_in_notes("apple", &vec![]).unwrap().is_empty());
}

#[test]
fn title_is_not_searched_by_default() {
    assert!(search_in_notes("dessert", &records()).unwrap().is_empty());
}

#[test]
fn search_returns_at_most_ten() {
    let many: Vec<SearchRecord> = (0..25).map(|i| record(i, "t", "common words here")).collect();
    assert_eq!(search_in_notes("common", &many).unwrap().len(), 10);
}

#[test]
fn bucket_records_read_back_with_empty_uuid() {
    let mut r = record(0, "title1.txt", "apple pie recipe");
    r.uuid = String::new();
    r.created_at = 0;
    r.updated_at = Some(0);
    r.timestamp = Some(String::new());
    let hits = search_in_notes("pie", &vec![r]).unwrap();
    assert_eq!(hits.len(), 1);
    assert_eq!(hits[0].id, Some(0));
    assert_eq!(hits[0].uuid.as_deref(), Some(""));
    assert_eq!(hits[0].updated_at, Some(0));
    assert_eq!(hits[0].timestamp.as_deref(), Some(""));
    assert_eq!(hits[0].title, "title1.txt");
}

#[test]
fn malformed_query_is_rejected() {
    let r = search_in_notes("nosuchfield:apple", &records());
    assert!(matches!(r, Err(NoteError::InvalidQuery(_))));
}
