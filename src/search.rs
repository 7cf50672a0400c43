use vstd::prelude::*;

use crate::cloud::{i64_parsed, parse_decimal, BucketNote};
use crate::local::copy_text;
use crate::note::{opt_text, Note, NoteError, NoteView};

verus! {

/// The most hits a search returns.
pub const SEARCH_LIMIT: usize = 10;

/// A note as the search index stores it: content is plaintext and every
/// field that the index holds as a number or a text is present.
#[derive(Debug, Clone)]
pub struct SearchRecord {
    pub id: i64,
    pub uuid: String,
    pub title: String,
    pub content: String,
    pub created_at: i64,
    pub updated_at: Option<i64>,
    pub timestamp: Option<String>,
}

/// The stored fields that the index hands back for a hit; a field the
/// document lacks, or holds with another type, is `None`.
#[derive(Debug, Clone)]
pub struct StoredHit {
    pub id: Option<i64>,
    pub uuid: Option<String>,
    pub title: Option<String>,
    pub content: Option<String>,
    pub created_at: Option<i64>,
    pub updated_at: Option<i64>,
    pub timestamp: Option<String>,
}

/// Which store a search reads.
#[derive(Debug, Clone)]
pub enum SearchSource {
    Local,
    Bucket(String),
}

/// The characters of an optional text, or nothing.
pub open spec fn text_or_empty(o: Option<String>) -> Seq<char> {
    match o {
        Some(s) => s@,
        None => Seq::empty(),
    }
}

/// `r` is the record that indexes local note `n`.
pub open spec fn local_record(r: SearchRecord, n: NoteView) -> bool {
    &&& r.id == (match n.id { Some(i) => i, None => 0 })
    &&& r.uuid@ == (match n.uuid { Some(u) => u, None => Seq::empty() })
    &&& r.title@ == n.title
    &&& r.content@ == n.content
    &&& r.created_at == n.created_at
    &&& r.updated_at == n.updated_at
    &&& opt_text(r.timestamp) == n.timestamp
}

/// The number a bucket listing's last-modified text gives: its decimal
/// value, or 0 when it is not a decimal integer.
pub open spec fn modified_number(t: Seq<char>) -> i64 {
    match i64_parsed(t) {
        Some(v) => v,
        None => 0,
    }
}

/// `r` is the record that indexes bucket object `b`: no id or creation time,
/// uuid and timestamp from its metadata (empty when absent), the key as title,
/// and the last-modified text read as a number.
pub open spec fn bucket_record(r: SearchRecord, b: BucketNote) -> bool {
    &&& r.id == 0
    &&& r.uuid@ == (match b.metadata { Some(m) => text_or_empty(m.uuid), None => Seq::empty() })
    &&& r.title@ == b.key@
    &&& r.content@ == b.content@
    &&& r.created_at == 0
    &&& r.updated_at == (match b.last_modified { Some(t) => Some(modified_number(t@)), None => None })
    &&& opt_text(r.timestamp) == Some(
        match b.metadata { Some(m) => text_or_empty(m.timestamp), None => Seq::empty() },
    )
}

/// The note that an indexed record reads back as from the index's stored
/// fields.
pub open spec fn indexed_note(r: SearchRecord) -> NoteView {
    NoteView {
        id: Some(r.id),
        uuid: Some(r.uuid@),
        title: r.title@,
        content: r.content@,
        nonce: None,
        created_at: r.created_at,
        updated_at: r.updated_at,
        timestamp: opt_text(r.timestamp),
    }
}

/// The note that a hit is reassembled into: absent title, content and
/// creation time default to empty and zero; the rest stay optional.
pub open spec fn hit_note(h: StoredHit) -> NoteView {
    NoteView {
        id: h.id,
        uuid: opt_text(h.uuid),
        title: text_or_empty(h.title),
        content: text_or_empty(h.content),
        nonce: None,
        created_at: match h.created_at { Some(c) => c, None => 0 },
        updated_at: h.updated_at,
        timestamp: opt_text(h.timestamp),
    }
}

fn text_or_new(o: &Option<String>) -> (r: String)
    ensures
        r@ == text_or_empty(*o),
{
    match o {
        Some(s) => s.clone(),
        None => String::new(),
    }
}

/// Picks the store a search reads. A cloud search needs a bucket.
pub fn search_source(local: bool, bucket: Option<String>) -> (r: Result<SearchSource, NoteError>)
    ensures
        local ==> r matches Ok(SearchSource::Local),
        !local && bucket is None ==> r == Err::<SearchSource, NoteError>(NoteError::MissingParameter),
        !local && bucket is Some ==> (r matches Ok(SearchSource::Bucket(b)) && b@ == bucket->0@),
{
    if local {
        Ok(SearchSource::Local)
    } else {
        match bucket {
            Some(b) => Ok(SearchSource::Bucket(b)),
            None => Err(NoteError::MissingParameter),
        }
    }
}

/// The records that index the local store's notes, one per note, in order.
pub fn records_from_local(notes: &Vec<Note>) -> (r: Vec<SearchRecord>)
    ensures
        r@.len() == notes@.len(),
        forall|i: int| 0 <= i < r@.len() ==> local_record(#[trigger] r@[i], notes@[i]@),
{
    let mut out: Vec<SearchRecord> = Vec::new();
    let mut i: usize = 0;
    while i < notes.len()
        invariant
            i <= notes@.len(),
            out@.len() == i,
            forall|k: int| 0 <= k < i ==> local_record(#[trigger] out@[k], notes@[k]@),
        decreases notes@.len() - i,
    {
        let n = &notes[i];
        let id = match n.id {
            Some(v) => v,
            None => 0,
        };
        out.push(SearchRecord {
            id,
            uuid: text_or_new(&n.uuid),
            title: n.title.clone(),
            content: n.content.clone(),
            created_at: n.created_at,
            updated_at: n.updated_at,
            timestamp: copy_text(&n.timestamp),
        });
        i = i + 1;
    }
    out
}

/// The records that index a bucket listing, one per object, in order.
pub fn records_from_bucket(notes: &Vec<BucketNote>) -> (r: Vec<SearchRecord>)
    ensures
        r@.len() == notes@.len(),
        forall|i: int| 0 <= i < r@.len() ==> bucket_record(#[trigger] r@[i], notes@[i]),
{
    let mut out: Vec<SearchRecord> = Vec::new();
    let mut i: usize = 0;
    while i < notes.len()
        invariant
            i <= notes@.len(),
            out@.len() == i,
            forall|k: int| 0 <= k < i ==> bucket_record(#[trigger] out@[k], notes@[k]),
        decreases notes@.len() - i,
    {
        let b = &notes[i];
        let (uuid, timestamp) = match &b.metadata {
            Some(m) => (text_or_new(&m.uuid), text_or_new(&m.timestamp)),
            None => (String::new(), String::new()),
        };
        let updated_at = match &b.last_modified {
            Some(t) => match parse_decimal(t.as_str()) {
                Some(v) => Some(v),
                None => Some(0),
            },
            None => None,
        };
        out.push(SearchRecord {
            id: 0,
            uuid,
            title: b.key.clone(),
            content: b.content.clone(),
            created_at: 0,
            updated_at,
            timestamp: Some(timestamp),
        });
        i = i + 1;
    }
    out
}

/// Reassembles a hit into a note from the fields the index stored.
pub fn note_from_hit(hit: StoredHit) -> (r: Note)
    ensures
        r@ == hit_note(hit),
{
    Note {
        id: hit.id,
        uuid: hit.uuid,
        title: match hit.title {
            Some(t) => t,
            None => String::new(),
        },
        content: match hit.content {
            Some(c) => c,
            None => String::new(),
        },
        nonce: None,
        created_at: match hit.created_at {
            Some(c) => c,
            None => 0,
        },
        updated_at: hit.updated_at,
        timestamp: hit.timestamp,
    }
}

/// The notes a search returns: the engine's hits, best first, each
/// reassembled from its stored fields, at most `SEARCH_LIMIT` of them.
pub fn notes_from_hits(hits: Vec<StoredHit>) -> (r: Vec<Note>)
    ensures
        r@.len() == if hits@.len() <= SEARCH_LIMIT { hits@.len() } else { SEARCH_LIMIT as nat },
        forall|i: int| 0 <= i < r@.len() ==> (#[trigger] r@[i])@ == hit_note(hits@[i]),
{
    let mut hits = hits;
    let mut out: Vec<Note> = Vec::new();
    let n: usize = if hits.len() <= SEARCH_LIMIT { hits.len() } else { SEARCH_LIMIT };
    let ghost all = hits@;
    let mut i: usize = 0;
    while i < n
        invariant
            i <= n,
            n <= all.len(),
            hits@ == all.skip(i as int),
            out@.len() == i,
            forall|k: int| 0 <= k < i ==> (#[trigger] out@[k])@ == hit_note(all[k]),
        decreases n - i,
    {
        let h = hits.remove(0);
        assert(hits@ =~= all.skip(i + 1));
        out.push(note_from_hit(h));
        i = i + 1;
    }
    out
}

} // verus!
