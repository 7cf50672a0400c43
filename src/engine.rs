use vstd::prelude::*;

use tantivy::collector::TopDocs;
use tantivy::query::QueryParser;
use tantivy::schema::{Field, OwnedValue, Schema, STORED, TEXT};
use tantivy::{Index, IndexWriter, TantivyDocument};

use crate::note::{Note, NoteError, NoteView};
use crate::search::{hit_note, indexed_note, notes_from_hits, SearchRecord, StoredHit, SEARCH_LIMIT};

verus! {

/// Bytes of memory the index writer may use, split among its threads.
pub const WRITER_BUDGET: usize = 100_000_000;

#[verifier::external_type_specification]
#[verifier::external_body]
pub struct ExField(Field);

#[verifier::external_type_specification]
#[verifier::external_body]
pub struct ExTantivyDocument(TantivyDocument);

/// The fields of the note schema.
struct NoteFields {
    title: Field,
    content: Field,
    id: Field,
    uuid: Field,
    created_at: Field,
    updated_at: Field,
    timestamp: Field,
}

/// A transient in-memory tantivy index of notes, with its one writer and
/// the fields of its schema. Its contents are known through `indexed` and
/// `pending`; the struct is opaque because tantivy's `IndexWriter<D: Document>`
/// cannot be declared to the verifier.
#[verifier::external_body]
pub struct NoteIndex {
    index: Index,
    writer: IndexWriter,
    fields: NoteFields,
}

/// The notes that a searcher opened on the index now sees: what has been
/// committed.
pub uninterp spec fn indexed(ix: NoteIndex) -> Set<NoteView>;

/// The notes added to the index since the last commit.
pub uninterp spec fn pending(ix: NoteIndex) -> Set<NoteView>;

/// Relies on tantivy's `TantivyDocument::get_first`: the first value of a
/// field when it is a text.
#[verifier::external_body]
fn first_text(doc: &TantivyDocument, field: Field) -> Option<String> {
    match doc.get_first(field) {
        Some(OwnedValue::Str(t)) => Some(t.clone()),
        _ => None,
    }
}

/// Relies on tantivy's `TantivyDocument::get_first`: the first value of a
/// field when it is a signed integer.
#[verifier::external_body]
fn first_i64(doc: &TantivyDocument, field: Field) -> Option<i64> {
    match doc.get_first(field) {
        Some(OwnedValue::I64(v)) => Some(*v),
        _ => None,
    }
}

/// The stored values of a document, read field by field.
#[verifier::external_body]
fn stored_hit(f: &NoteFields, d: &TantivyDocument) -> StoredHit {
    StoredHit {
        id: first_i64(d, f.id),
        uuid: first_text(d, f.uuid),
        title: first_text(d, f.title),
        content: first_text(d, f.content),
        created_at: first_i64(d, f.created_at),
        updated_at: first_i64(d, f.updated_at),
        timestamp: first_text(d, f.timestamp),
    }
}

impl NoteIndex {
    /// Relies on tantivy's `SchemaBuilder`, `Index::create_in_ram` and
    /// `Index::writer`: an empty in-memory index over the fixed note schema
    /// (title, content, uuid and timestamp tokenized and stored; id and the
    /// two times stored only) and its writer, or the writer's error text
    /// (a budget too small or too large per thread).
    #[verifier::external_body]
    pub fn new(budget: usize) -> (r: Result<NoteIndex, String>)
        ensures
            r matches Ok(ix) ==> indexed(ix) == Set::<NoteView>::empty() && pending(ix) == Set::<NoteView>::empty(),
    {
        let mut b = Schema::builder();
        let fields = NoteFields {
            title: b.add_text_field("title", TEXT | STORED),
            content: b.add_text_field("content", TEXT | STORED),
            id: b.add_i64_field("id", STORED),
            uuid: b.add_text_field("uuid", TEXT | STORED),
            created_at: b.add_i64_field("created_at", STORED),
            updated_at: b.add_i64_field("updated_at", STORED),
            timestamp: b.add_text_field("timestamp", TEXT | STORED),
        };
        let index = Index::create_in_ram(b.build());
        let writer = index.writer(budget).map_err(|e| e.to_string())?;
        Ok(NoteIndex { index, writer, fields })
    }

    /// Relies on tantivy's `TantivyDocument::add_text` and `add_i64` and
    /// `IndexWriter::add_document`: a document holding the record's values
    /// under the schema's fields (an absent update time or timestamp adds no
    /// value) joins what the next commit publishes.
    #[verifier::external_body]
    fn add_record(&mut self, r: &SearchRecord) -> (res: Result<(), String>)
        ensures
            indexed(*final(self)) == indexed(*old(self)),
            res is Ok ==> pending(*final(self)) == pending(*old(self)).insert(indexed_note(*r)),
    {
        let f = &self.fields;
        let mut d = TantivyDocument::new();
        d.add_text(f.title, &r.title);
        d.add_text(f.content, &r.content);
        d.add_i64(f.id, r.id);
        d.add_text(f.uuid, &r.uuid);
        d.add_i64(f.created_at, r.created_at);
        if let Some(u) = r.updated_at {
            d.add_i64(f.updated_at, u);
        }
        if let Some(t) = &r.timestamp {
            d.add_text(f.timestamp, t);
        }
        self.writer.add_document(d).map(|_| ()).map_err(|e| e.to_string())
    }

    /// Relies on tantivy's `IndexWriter::commit`: every document added so far
    /// becomes visible to searchers opened afterwards.
    #[verifier::external_body]
    fn commit(&mut self) -> (r: Result<(), String>)
        ensures
            r is Ok ==> indexed(*final(self)) == indexed(*old(self)).union(pending(*old(self))),
            r is Ok ==> pending(*final(self)) == Set::<NoteView>::empty(),
    {
        self.writer.commit().map(|_| ()).map_err(|e| e.to_string())
    }

    /// Relies on tantivy's `IndexReader::searcher`, `QueryParser::parse_query`
    /// over the content field, `Searcher::search` with `TopDocs::with_limit`
    /// (at most `limit` addresses, best first; a limit of 0 panics) and
    /// `Searcher::doc` on the addresses that same searcher returned: the
    /// stored values of each hit, which are those of a committed note.
    #[verifier::external_body]
    pub fn query(&self, query: &str, limit: usize) -> (r: Result<Vec<StoredHit>, NoteError>)
        requires
            limit >= 1,
        ensures
            r matches Ok(v) ==> v@.len() <= limit,
            r matches Ok(v) ==> forall|i: int| 0 <= i < v@.len() ==> indexed(*self).contains(hit_note(#[trigger] v@[i])),
            r matches Err(e) ==> e is Backend || e is InvalidQuery,
    {
        let s = self.index.reader().map_err(|e| NoteError::Backend(e.to_string()))?.searcher();
        let parser = QueryParser::for_index(&self.index, vec![self.fields.content]);
        let q = parser.parse_query(query).map_err(|e| NoteError::InvalidQuery(e.to_string()))?;
        let top = s.search(&q, &TopDocs::with_limit(limit)).map_err(|e| NoteError::Backend(e.to_string()))?;
        let mut hits = Vec::new();
        for (_, a) in top {
            let d: TantivyDocument = s.doc(a).map_err(|e| NoteError::Backend(e.to_string()))?;
            hits.push(stored_hit(&self.fields, &d));
        }
        Ok(hits)
    }

    /// Indexes every record and commits them.
    pub fn add_records(&mut self, records: &Vec<SearchRecord>) -> (r: Result<(), NoteError>)
        ensures
            r is Ok ==> indexed(*final(self)) == indexed(*old(self)).union(pending(*old(self))).union(
                records_notes(records@),
            ),
            r is Ok ==> pending(*final(self)) == Set::<NoteView>::empty(),
            r matches Err(e) ==> e is Backend,
    {
        let mut i: usize = 0;
        while i < records.len()
            invariant
                i <= records@.len(),
                indexed(*self) == indexed(*old(self)),
                pending(*self) == pending(*old(self)).union(records_notes(records@.take(i as int))),
            decreases records@.len() - i,
        {
            match self.add_record(&records[i]) {
                Ok(()) => {},
                Err(e) => return Err(NoteError::Backend(e)),
            }
            assert(records_notes(records@.take(i + 1)) =~= records_notes(records@.take(i as int)).insert(
                indexed_note(records@[i as int]),
            )) by {
                assert forall|v: NoteView| #[trigger] records_notes(records@.take(i + 1)).contains(v)
                    implies records_notes(records@.take(i as int)).insert(indexed_note(records@[i as int])).contains(v) by {
                    let j = choose|j: int| 0 <= j < i + 1 && v == indexed_note(#[trigger] records@.take(i + 1)[j]);
                    if j < i {
                        assert(records@.take(i as int)[j] == records@.take(i + 1)[j]);
                    }
                }
                assert forall|v: NoteView| #[trigger] records_notes(records@.take(i as int)).contains(v)
                    implies records_notes(records@.take(i + 1)).contains(v) by {
                    let j = choose|j: int| 0 <= j < i && v == indexed_note(#[trigger] records@.take(i as int)[j]);
                    assert(records@.take(i + 1)[j] == records@.take(i as int)[j]);
                }
                assert(records@.take(i + 1)[i as int] == records@[i as int]);
            }
            i = i + 1;
        }
        assert(records@.take(records@.len() as int) =~= records@);
        match self.commit() {
            Ok(()) => {
                assert(indexed(*self) =~= indexed(*old(self)).union(pending(*old(self))).union(records_notes(records@)));
                Ok(())
            },
            Err(e) => Err(NoteError::Backend(e)),
        }
    }
}

/// The notes that a sequence of records puts in the index.
pub open spec fn records_notes(records: Seq<SearchRecord>) -> Set<NoteView> {
    Set::new(|v: NoteView| exists|j: int| 0 <= j < records.len() && v == indexed_note(#[trigger] records[j]))
}

/// Searches a snapshot of notes: builds a fresh index over the records,
/// queries their content, and reassembles the best `SEARCH_LIMIT` hits into
/// notes from the stored fields. Every note returned is one of the records
/// read back with its id, uuid, title, content and times, and no nonce. The
/// index does not outlive the call.
pub fn search_in_notes(query: &str, records: &Vec<SearchRecord>) -> (r: Result<Vec<Note>, NoteError>)
    ensures
        r matches Ok(v) ==> v@.len() <= SEARCH_LIMIT,
        r matches Ok(v) ==> forall|i: int| 0 <= i < v@.len() ==> exists|j: int|
            0 <= j < records@.len() && #[trigger] v@[i]@ == indexed_note(records@[j]),
        r matches Err(e) ==> e is Backend || e is InvalidQuery,
{
    let mut index = match NoteIndex::new(WRITER_BUDGET) {
        Ok(ix) => ix,
        Err(e) => return Err(NoteError::Backend(e)),
    };
    index.add_records(records)?;
    assert(indexed(index) =~= records_notes(records@));
    let hits = index.query(query, SEARCH_LIMIT)?;
    let ghost h = hits@;
    let notes = notes_from_hits(hits);
    assert forall|i: int| 0 <= i < notes@.len() implies exists|j: int|
        0 <= j < records@.len() && #[trigger] notes@[i]@ == indexed_note(records@[j]) by {
        assert(indexed(index).contains(hit_note(h[i])));
    }
    Ok(notes)
}

} // verus!
