use vstd::prelude::*;

use crate::envelope::{base64_bytes, sealed_bytes, TAG_LEN, draw_nonce, envelope_text, open_text, open_text_result, seal_text_with_nonce, NONCE_LEN};
use crate::note::{byte_len, opt_text, valid_note, validate_params, validation_result, Note, NoteError, NoteView};
use crate::stamp::{new_uuid, rfc3339_now, unix_now};

verus! {

/// `n` is the row that creating a note with `title` and plaintext `plain`
/// writes, sealed under `nonce`, with identity `uuid`, at time `now`
/// (mirrored as `ts`): no id yet, sealed content, no update time.
pub open spec fn created_row(
    n: NoteView,
    title: Seq<char>,
    plain: Seq<char>,
    nonce: Seq<u8>,
    uuid: Seq<char>,
    now: i64,
    ts: Seq<char>,
) -> bool {
    &&& n.id is None
    &&& n.uuid == Some(uuid)
    &&& n.title == title
    &&& n.nonce is Some
    &&& (n.content, n.nonce->0) == envelope_text(nonce, plain)
    &&& n.created_at == now
    &&& n.updated_at is None
    &&& n.timestamp == Some(ts)
}

/// `n` is the row that updating `prev` writes: same id, identity, title and
/// creation time, the content sealed anew under `nonce`, the update time `now`
/// (mirrored as `ts`).
pub open spec fn updated_row(n: NoteView, prev: NoteView, nonce: Seq<u8>, now: i64, ts: Seq<char>) -> bool {
    &&& n.id == prev.id
    &&& n.uuid == prev.uuid
    &&& n.title == prev.title
    &&& n.nonce is Some
    &&& (n.content, n.nonce->0) == envelope_text(nonce, prev.content)
    &&& n.created_at == prev.created_at
    &&& n.updated_at == Some(now)
    &&& n.timestamp == Some(ts)
}

/// What reading a stored row owes: the row with its content opened.
pub open spec fn opened_row(row: NoteView) -> Result<NoteView, NoteError> {
    match row.nonce {
        None => Err(NoteError::CorruptEnvelope),
        Some(n) => match open_text_result(row.content, n) {
            Ok(p) => Ok(NoteView { content: p, ..row }),
            Err(e) => Err(e),
        },
    }
}

/// What reading every stored row owes: all of them opened, in order, or the
/// error of the first row that does not open.
pub open spec fn opened_rows(rows: Seq<NoteView>) -> Result<Seq<NoteView>, NoteError>
    decreases rows.len(),
{
    if rows.len() == 0 {
        Ok(Seq::empty())
    } else {
        match opened_rows(rows.drop_last()) {
            Err(e) => Err(e),
            Ok(done) => match opened_row(rows.last()) {
                Ok(n) => Ok(done.push(n)),
                Err(e) => Err(e),
            },
        }
    }
}

/// Once a prefix of the rows fails to open, reading all of them fails with
/// the same error.
proof fn lemma_first_error_stands(rows: Seq<NoteView>, k: int)
    requires
        0 <= k <= rows.len(),
        opened_rows(rows.take(k)) is Err,
    ensures
        opened_rows(rows) == opened_rows(rows.take(k)),
    decreases rows.len() - k,
{
    if k < rows.len() {
        assert(rows.drop_last().take(k) =~= rows.take(k));
        lemma_first_error_stands(rows.drop_last(), k);
    } else {
        assert(rows.take(k) =~= rows);
    }
}

/// The values of a sequence of notes.
pub open spec fn note_views(notes: Seq<Note>) -> Seq<NoteView> {
    notes.map_values(|n: Note| n@)
}

pub(crate) fn copy_text(o: &Option<String>) -> (r: Option<String>)
    ensures
        opt_text(r) == opt_text(*o),
{
    match o {
        Some(s) => Some(s.clone()),
        None => None,
    }
}

/// Seals a new note for the local store under a given nonce, identity and time.
pub fn seal_new_note(note: Note, nonce: &[u8; 12], uuid: String, now: i64, timestamp: String) -> (r: Result<Note, NoteError>)
    ensures
        r is Ok <==> valid_note(note@.title, note@.content),
        r matches Err(e) ==> validation_result(note@.title, note@.content) == Err::<(), NoteError>(e),
        r matches Ok(n) ==> created_row(n@, note@.title, note@.content, nonce@, uuid@, now, timestamp@),
        r matches Ok(n) ==> base64_bytes(n@.content) == Some(sealed_bytes(nonce@, note@.content)),
        r matches Ok(n) ==> sealed_bytes(nonce@, note@.content).len() == byte_len(note@.content) + TAG_LEN,
        r matches Ok(n) ==> opened_row(n@) == Ok::<NoteView, NoteError>(NoteView { content: note@.content, ..n@ }),
{
    match validate_params(&note) {
        Err(e) => return Err(e),
        Ok(()) => {},
    }
    let env = seal_text_with_nonce(note.content.as_str(), nonce);
    Ok(Note {
        id: None,
        uuid: Some(uuid),
        title: note.title,
        content: env.ciphertext,
        nonce: Some(env.nonce),
        created_at: now,
        updated_at: None,
        timestamp: Some(timestamp),
    })
}

/// Prepares a note for insertion into the local store: checks its lengths,
/// seals its content under a fresh nonce, and gives it a fresh uuid and the
/// current time. The result is the row to insert, content sealed; reading it
/// back opens to the note's plaintext.
pub fn create_local_note(note: Note) -> (r: Result<Note, NoteError>)
    ensures
        !valid_note(note@.title, note@.content)
            ==> (r matches Err(e) && validation_result(note@.title, note@.content) == Err::<(), NoteError>(e)),
        valid_note(note@.title, note@.content) && r is Err
            ==> r == Err::<Note, NoteError>(NoteError::EncryptionFailed),
        r matches Ok(n) ==> exists|nonce: Seq<u8>, uuid: Seq<char>, now: i64, ts: Seq<char>|
            nonce.len() == NONCE_LEN && created_row(n@, note@.title, note@.content, nonce, uuid, now, ts)
                && base64_bytes(n@.content) == Some(sealed_bytes(nonce, note@.content))
                && sealed_bytes(nonce, note@.content).len() == byte_len(note@.content) + TAG_LEN,
        r matches Ok(n) ==> opened_row(n@) == Ok::<NoteView, NoteError>(NoteView { content: note@.content, ..n@ }),
{
    match validate_params(&note) {
        Err(e) => return Err(e),
        Ok(()) => {},
    }
    let nonce = draw_nonce()?;
    let uuid = new_uuid();
    let now = unix_now();
    let timestamp = rfc3339_now();
    seal_new_note(note, &nonce, uuid, now, timestamp)
}

/// Seals an edited note for the local store under a given nonce and time.
pub fn seal_note_update(note: Note, nonce: &[u8; 12], now: i64, timestamp: String) -> (r: Result<Note, NoteError>)
    ensures
        r is Ok <==> valid_note(note@.title, note@.content),
        r matches Err(e) ==> validation_result(note@.title, note@.content) == Err::<(), NoteError>(e),
        r matches Ok(n) ==> updated_row(n@, note@, nonce@, now, timestamp@),
        r matches Ok(n) ==> base64_bytes(n@.content) == Some(sealed_bytes(nonce@, note@.content)),
        r matches Ok(n) ==> sealed_bytes(nonce@, note@.content).len() == byte_len(note@.content) + TAG_LEN,
        r matches Ok(n) ==> opened_row(n@) == Ok::<NoteView, NoteError>(NoteView { content: note@.content, ..n@ }),
{
    match validate_params(&note) {
        Err(e) => return Err(e),
        Ok(()) => {},
    }
    let env = seal_text_with_nonce(note.content.as_str(), nonce);
    Ok(Note {
        id: note.id,
        uuid: note.uuid,
        title: note.title,
        content: env.ciphertext,
        nonce: Some(env.nonce),
        created_at: note.created_at,
        updated_at: Some(now),
        timestamp: Some(timestamp),
    })
}

/// Prepares an edited note for the local store: checks its lengths, seals its
/// content under a fresh nonce and stamps the update time. The result holds
/// the values to write to the row with the note's id; its uuid and creation
/// time are those of the input.
pub fn update_local_note(note: Note) -> (r: Result<Note, NoteError>)
    ensures
        !valid_note(note@.title, note@.content)
            ==> (r matches Err(e) && validation_result(note@.title, note@.content) == Err::<(), NoteError>(e)),
        valid_note(note@.title, note@.content) && r is Err
            ==> r == Err::<Note, NoteError>(NoteError::EncryptionFailed),
        r matches Ok(n) ==> exists|nonce: Seq<u8>, now: i64, ts: Seq<char>|
            nonce.len() == NONCE_LEN && updated_row(n@, note@, nonce, now, ts)
                && base64_bytes(n@.content) == Some(sealed_bytes(nonce, note@.content))
                && sealed_bytes(nonce, note@.content).len() == byte_len(note@.content) + TAG_LEN,
        r matches Ok(n) ==> n.updated_at is Some && n@.uuid == note@.uuid && n.created_at == note.created_at,
        r matches Ok(n) ==> opened_row(n@) == Ok::<NoteView, NoteError>(NoteView { content: note@.content, ..n@ }),
{
    match validate_params(&note) {
        Err(e) => return Err(e),
        Ok(()) => {},
    }
    let nonce = draw_nonce()?;
    let now = unix_now();
    let timestamp = rfc3339_now();
    seal_note_update(note, &nonce, now, timestamp)
}

/// Opens a stored row: its content is decoded and decrypted with the nonce
/// stored beside it.
pub fn open_local_row(row: &Note) -> (r: Result<Note, NoteError>)
    ensures
        r matches Ok(n) ==> opened_row(row@) == Ok::<NoteView, NoteError>(n@),
        r matches Err(e) ==> opened_row(row@) == Err::<NoteView, NoteError>(e),
{
    let nonce = match &row.nonce {
        Some(n) => n,
        None => return Err(NoteError::CorruptEnvelope),
    };
    let plain = open_text(row.content.as_str(), nonce.as_str());
    match plain {
        Ok(p) => Ok(Note {
            id: row.id,
            uuid: copy_text(&row.uuid),
            title: row.title.clone(),
            content: p,
            nonce: Some(nonce.clone()),
            created_at: row.created_at,
            updated_at: row.updated_at,
            timestamp: copy_text(&row.timestamp),
        }),
        Err(e) => Err(e),
    }
}

/// Reads a note from the row that the local store found for an id, if any.
pub fn get_local_note(row: Option<Note>) -> (r: Result<Note, NoteError>)
    ensures
        row is None ==> r == Err::<Note, NoteError>(NoteError::NotFound),
        row matches Some(x) ==> (r matches Ok(n) ==> opened_row(x@) == Ok::<NoteView, NoteError>(n@)),
        row matches Some(x) ==> (r matches Err(e) ==> opened_row(x@) == Err::<NoteView, NoteError>(e)),
{
    match row {
        None => Err(NoteError::NotFound),
        Some(x) => open_local_row(&x),
    }
}

/// Reads every row of the local store: all of them opened, in order, or the
/// error of the first row that does not open.
pub fn get_local_notes(rows: &Vec<Note>) -> (r: Result<Vec<Note>, NoteError>)
    ensures
        r matches Ok(v) ==> opened_rows(note_views(rows@)) == Ok::<Seq<NoteView>, NoteError>(note_views(v@)),
        r matches Err(e) ==> opened_rows(note_views(rows@)) == Err::<Seq<NoteView>, NoteError>(e),
{
    let mut out: Vec<Note> = Vec::new();
    let mut i: usize = 0;
    assert(note_views(rows@.take(0)) =~= Seq::empty());
    assert(note_views(out@) =~= Seq::empty());
    while i < rows.len()
        invariant
            i <= rows@.len(),
            opened_rows(note_views(rows@.take(i as int))) == Ok::<Seq<NoteView>, NoteError>(note_views(out@)),
        decreases rows@.len() - i,
    {
        let n = open_local_row(&rows[i]);
        assert(note_views(rows@.take(i + 1)).drop_last() =~= note_views(rows@.take(i as int)));
        assert(note_views(rows@.take(i + 1)).last() == rows@[i as int]@);
        match n {
            Ok(n) => {
                let ghost before = out@;
                out.push(n);
                assert(note_views(out@) =~= note_views(before).push(n@));
            },
            Err(e) => {
                proof {
                    lemma_first_error_stands(note_views(rows@), i + 1);
                    assert(note_views(rows@).take(i + 1) =~= note_views(rows@.take(i + 1)));
                }
                return Err(e);
            },
        }
        i = i + 1;
    }
    assert(rows@.take(rows@.len() as int) =~= rows@);
    Ok(out)
}

} // verus!
