use vstd::prelude::*;

use crate::envelope::{
    base64_bytes, base64_text, draw_nonce, open, open_result, seal_with_nonce, sealed_bytes, NONCE_LEN,
};
use crate::local::copy_text;
use crate::note::{concat, opt_text, valid_note, validate_params, validation_result, Note, NoteError};
use crate::stamp::rfc3339_now;

verus! {

/// The character of a decimal digit.
pub open spec fn digit_char(d: int) -> char {
    if d == 0 { '0' } else if d == 1 { '1' } else if d == 2 { '2' } else if d == 3 { '3' }
    else if d == 4 { '4' } else if d == 5 { '5' } else if d == 6 { '6' } else if d == 7 { '7' }
    else if d == 8 { '8' } else { '9' }
}

/// The value of a decimal digit character, if it is one.
pub open spec fn digit_value(c: char) -> Option<int> {
    if c == '0' { Some(0) } else if c == '1' { Some(1) } else if c == '2' { Some(2) }
    else if c == '3' { Some(3) } else if c == '4' { Some(4) } else if c == '5' { Some(5) }
    else if c == '6' { Some(6) } else if c == '7' { Some(7) } else if c == '8' { Some(8) }
    else if c == '9' { Some(9) } else { None }
}

/// The decimal digits of a natural number, most significant first, with no
/// leading zero.
pub open spec fn nat_digits(n: nat) -> Seq<char>
    decreases n,
{
    if n < 10 {
        seq![digit_char(n as int)]
    } else {
        nat_digits(n / 10).push(digit_char((n % 10) as int))
    }
}

/// The decimal text of an integer, as `i64::to_string` writes it: a minus
/// sign before the digits of a negative number.
pub open spec fn i64_text(n: i64) -> Seq<char> {
    if n < 0 {
        seq!['-'] + nat_digits((-(n as int)) as nat)
    } else {
        nat_digits(n as nat)
    }
}

/// The value of a string of decimal digits, if every character is one.
pub open spec fn digits_value(s: Seq<char>) -> Option<int>
    decreases s.len(),
{
    if s.len() == 0 {
        Some(0)
    } else {
        match (digits_value(s.drop_last()), digit_value(s.last())) {
            (Some(a), Some(d)) => Some(a * 10 + d),
            _ => None,
        }
    }
}

/// The integer that text stands for, as `str::parse::<i64>` reads it: an
/// optional `+` or `-` followed by one or more decimal digits, whose value
/// fits in an `i64`.
pub open spec fn i64_parsed(s: Seq<char>) -> Option<i64> {
    let neg = s.len() > 0 && s[0] == '-';
    let body = if s.len() > 0 && (s[0] == '-' || s[0] == '+') { s.drop_first() } else { s };
    if body.len() == 0 {
        None
    } else {
        match digits_value(body) {
            Some(v) => {
                let x = if neg { -v } else { v };
                if i64::MIN <= x <= i64::MAX { Some(x as i64) } else { None }
            },
            None => None,
        }
    }
}

/// Relies on `i64::to_string`.
#[verifier::external_body]
fn decimal_text(n: i64) -> (r: String)
    ensures
        r@ == i64_text(n),
{
    n.to_string()
}

/// Relies on `str::parse::<i64>`.
#[verifier::external_body]
pub(crate) fn parse_decimal(s: &str) -> (r: Option<i64>)
    ensures
        r == i64_parsed(s@),
{
    s.parse::<i64>().ok()
}

/// The user metadata that the notes scheme attaches to a bucket object.
#[derive(Debug, Clone)]
pub struct ObjectMetadata {
    pub uuid: Option<String>,
    pub timestamp: Option<String>,
    pub created_at: Option<String>,
    pub updated_at: Option<String>,
    pub nonce: Option<String>,
}

/// A bucket object as a listing names it, with the metadata that a head
/// request returned for it (`None` when it carries none).
#[derive(Debug, Clone)]
pub struct ObjectHead {
    pub key: String,
    pub metadata: Option<ObjectMetadata>,
}

/// An object to write to a bucket: its key, its raw body and its metadata.
#[derive(Debug, Clone)]
pub struct BucketObject {
    pub key: String,
    pub body: Vec<u8>,
    pub metadata: ObjectMetadata,
}

/// A bucket object as a full listing hands it back: key, last-modified
/// time, metadata, and the body opened to plaintext.
#[derive(Debug, Clone)]
pub struct BucketNote {
    pub key: String,
    pub last_modified: Option<String>,
    pub metadata: Option<ObjectMetadata>,
    pub content: String,
}

/// A bucket object as a full listing downloads it, body still sealed.
#[derive(Debug, Clone)]
pub struct FetchedObject {
    pub key: String,
    pub last_modified: Option<String>,
    pub metadata: Option<ObjectMetadata>,
    pub body: Vec<u8>,
}

/// The uuid in an object's metadata, if it has one.
pub open spec fn meta_uuid(m: Option<ObjectMetadata>) -> Option<Seq<char>> {
    match m {
        Some(md) => opt_text(md.uuid),
        None => None,
    }
}

/// The nonce text in an object's metadata, if it has one.
pub open spec fn meta_nonce(m: Option<ObjectMetadata>) -> Option<Seq<char>> {
    match m {
        Some(md) => opt_text(md.nonce),
        None => None,
    }
}

/// Two metadata records say the same.
pub open spec fn same_metadata(a: ObjectMetadata, b: ObjectMetadata) -> bool {
    &&& opt_text(a.uuid) == opt_text(b.uuid)
    &&& opt_text(a.timestamp) == opt_text(b.timestamp)
    &&& opt_text(a.created_at) == opt_text(b.created_at)
    &&& opt_text(a.updated_at) == opt_text(b.updated_at)
    &&& opt_text(a.nonce) == opt_text(b.nonce)
}

/// The object that the identity scan stops at: the first whose metadata
/// carries `uuid`.
pub open spec fn first_with_uuid(heads: Seq<ObjectHead>, uuid: Seq<char>, i: int) -> bool {
    &&& 0 <= i < heads.len()
    &&& meta_uuid(heads[i].metadata) == Some(uuid)
    &&& forall|j: int| 0 <= j < i ==> meta_uuid(#[trigger] heads[j].metadata) != Some(uuid)
}

/// The creation time that an object's metadata records: its decimal
/// `created_at`, or 0 when that is absent or unreadable.
pub open spec fn meta_created_at(m: Option<ObjectMetadata>) -> i64 {
    match m {
        Some(md) => match md.created_at {
            Some(c) => match i64_parsed(c@) {
                Some(v) => v,
                None => 0,
            },
            None => 0,
        },
        None => 0,
    }
}

/// The timestamp text in an object's metadata, if it has one.
pub open spec fn meta_timestamp(m: Option<ObjectMetadata>) -> Option<Seq<char>> {
    match m {
        Some(md) => opt_text(md.timestamp),
        None => None,
    }
}

/// The identity scan has one answer: no two positions are both the first
/// object that carries a uuid.
pub proof fn lemma_first_with_uuid_unique(heads: Seq<ObjectHead>, uuid: Seq<char>, i: int, j: int)
    requires
        first_with_uuid(heads, uuid, i),
        first_with_uuid(heads, uuid, j),
    ensures
        i == j,
{
    if i < j {
        assert(meta_uuid(heads[i].metadata) != Some(uuid));
    } else if j < i {
        assert(meta_uuid(heads[j].metadata) != Some(uuid));
    }
}

/// What opening a downloaded body owes, given the nonce text its metadata holds.
pub open spec fn object_open_result(body: Seq<u8>, nonce: Option<Seq<char>>) -> Result<Seq<char>, NoteError> {
    match nonce {
        None => Err(NoteError::InvalidNonce),
        Some(t) => match base64_bytes(t) {
            None => Err(NoteError::CorruptEnvelope),
            Some(n) => open_result(body, n),
        },
    }
}

/// What opening every downloaded object owes: each body opened, in order, or
/// the error of the first that does not open.
pub open spec fn opened_objects(objs: Seq<FetchedObject>) -> Result<Seq<Seq<char>>, NoteError>
    decreases objs.len(),
{
    if objs.len() == 0 {
        Ok(Seq::empty())
    } else {
        match opened_objects(objs.drop_last()) {
            Err(e) => Err(e),
            Ok(done) => match object_open_result(objs.last().body@, meta_nonce(objs.last().metadata)) {
                Ok(p) => Ok(done.push(p)),
                Err(e) => Err(e),
            },
        }
    }
}

/// The uuids that clearing a bucket deletes, in listing order: those of the
/// objects whose metadata carries one.
pub open spec fn uuids_to_clear(notes: Seq<BucketNote>) -> Seq<Seq<char>>
    decreases notes.len(),
{
    if notes.len() == 0 {
        Seq::empty()
    } else {
        let rest = uuids_to_clear(notes.drop_last());
        match meta_uuid(notes.last().metadata) {
            Some(u) => rest.push(u),
            None => rest,
        }
    }
}

pub(crate) fn copy_metadata(m: &ObjectMetadata) -> (r: ObjectMetadata)
    ensures
        same_metadata(r, *m),
{
    ObjectMetadata {
        uuid: copy_text(&m.uuid),
        timestamp: copy_text(&m.timestamp),
        created_at: copy_text(&m.created_at),
        updated_at: copy_text(&m.updated_at),
        nonce: copy_text(&m.nonce),
    }
}

/// Whether an object's metadata carries a given uuid.
pub fn carries_uuid(head: &ObjectHead, uuid: &String) -> (r: bool)
    ensures
        r == (meta_uuid(head.metadata) == Some(uuid@)),
{
    match &head.metadata {
        Some(m) => match &m.uuid {
            Some(u) => *u == *uuid,
            None => false,
        },
        None => false,
    }
}

/// The identity scan: walks every listed object in order and stops at the
/// first whose metadata carries `uuid`. Titles may collide; uuids do not.
pub fn find_note_by_uuid(heads: &Vec<ObjectHead>, uuid: &String) -> (r: Option<usize>)
    ensures
        r matches Some(i) ==> first_with_uuid(heads@, uuid@, i as int),
        r is None ==> forall|j: int| 0 <= j < heads@.len() ==> meta_uuid(#[trigger] heads@[j].metadata) != Some(uuid@),
{
    let mut i: usize = 0;
    while i < heads.len()
        invariant
            i <= heads@.len(),
            forall|j: int| 0 <= j < i ==> meta_uuid(#[trigger] heads@[j].metadata) != Some(uuid@),
        decreases heads@.len() - i,
    {
        if carries_uuid(&heads[i], uuid) {
            return Some(i);
        }
        i = i + 1;
    }
    None
}

/// The identity scan, failing with `NotFound` when no object carries `uuid`.
pub fn locate_bucket_note(heads: &Vec<ObjectHead>, uuid: &String) -> (r: Result<usize, NoteError>)
    ensures
        r matches Ok(i) ==> first_with_uuid(heads@, uuid@, i as int),
        r is Err <==> forall|j: int| 0 <= j < heads@.len() ==> meta_uuid(#[trigger] heads@[j].metadata) != Some(uuid@),
        r is Err ==> r == Err::<usize, NoteError>(NoteError::NotFound),
{
    match find_note_by_uuid(heads, uuid) {
        Some(i) => Ok(i),
        None => Err(NoteError::NotFound),
    }
}

/// Opens a downloaded object body with the nonce its metadata carries. A
/// missing nonce, or one of any length but twelve bytes, is `InvalidNonce`;
/// malformed base64 is `CorruptEnvelope`.
pub fn open_object_body(body: &[u8], metadata: &Option<ObjectMetadata>) -> (r: Result<String, NoteError>)
    ensures
        r matches Ok(s) ==> object_open_result(body@, meta_nonce(*metadata)) == Ok::<Seq<char>, NoteError>(s@),
        r matches Err(e) ==> object_open_result(body@, meta_nonce(*metadata)) == Err::<Seq<char>, NoteError>(e),
{
    let text = match metadata {
        Some(m) => match &m.nonce {
            Some(t) => t,
            None => return Err(NoteError::InvalidNonce),
        },
        None => return Err(NoteError::InvalidNonce),
    };
    let nonce = match crate::envelope::decode_base64(text.as_str()) {
        Some(n) => n,
        None => return Err(NoteError::CorruptEnvelope),
    };
    open(body, nonce.as_slice())
}

/// Builds the note that fetching a bucket object by uuid returns: no local
/// id, the object key as title, the plaintext body, the metadata's nonce,
/// creation time (0 when absent or unreadable) and timestamp, and `now` as
/// update time.
pub fn fetch_bucket_note(key: String, metadata: &Option<ObjectMetadata>, body: &[u8], uuid: &String, now: i64) -> (r: Result<Note, NoteError>)
    ensures
        r matches Err(e) ==> object_open_result(body@, meta_nonce(*metadata)) == Err::<Seq<char>, NoteError>(e),
        r matches Ok(n) ==> {
            &&& object_open_result(body@, meta_nonce(*metadata)) == Ok::<Seq<char>, NoteError>(n.content@)
            &&& n.id is None
            &&& n@.uuid == Some(uuid@)
            &&& n.title@ == key@
            &&& n@.nonce == meta_nonce(*metadata)
            &&& n.created_at == meta_created_at(*metadata)
            &&& n.updated_at == Some(now)
            &&& n@.timestamp == meta_timestamp(*metadata)
        },
{
    let content = open_object_body(body, metadata)?;
    let (nonce, created_at, timestamp) = match metadata {
        Some(m) => {
            let created_at = match &m.created_at {
                Some(c) => match parse_decimal(c.as_str()) {
                    Some(v) => v,
                    None => 0,
                },
                None => 0,
            };
            (copy_text(&m.nonce), created_at, copy_text(&m.timestamp))
        },
        None => (None, 0, None),
    };
    Ok(Note {
        id: None,
        uuid: Some(uuid.clone()),
        title: key,
        content,
        nonce,
        created_at,
        updated_at: Some(now),
        timestamp,
    })
}

/// The object key of a note: its title followed by `.txt`.
pub open spec fn object_key(title: Seq<char>) -> Seq<char> {
    title + ".txt"@
}

/// `o` is the object that uploading a note with plaintext `plain` writes,
/// sealed under `nonce`, with identity `uuid` at time `ts`.
pub open spec fn uploaded_object(o: BucketObject, note: Note, uuid: Seq<char>, nonce: Seq<u8>, ts: Seq<char>) -> bool {
    &&& o.key@ == object_key(note.title@)
    &&& o.body@ == sealed_bytes(nonce, note.content@)
    &&& opt_text(o.metadata.uuid) == Some(uuid)
    &&& opt_text(o.metadata.timestamp) == Some(ts)
    &&& opt_text(o.metadata.created_at) == Some(i64_text(note.created_at))
    &&& opt_text(o.metadata.updated_at) == Some(i64_text(
        match note.updated_at { Some(u) => u, None => 0 },
    ))
    &&& opt_text(o.metadata.nonce) == Some(base64_text(nonce))
}

/// A metadata field of an object that may carry none.
pub open spec fn meta_field(m: Option<ObjectMetadata>, f: spec_fn(ObjectMetadata) -> Option<String>) -> Option<Seq<char>> {
    match m {
        Some(md) => opt_text(f(md)),
        None => None,
    }
}

/// `o` is the object that updating the bucket note found as `found` writes:
/// same key, content sealed anew, new timestamp and nonce, and the found
/// object's creation and update times kept.
pub open spec fn rewritten_object(o: BucketObject, note: Note, found: ObjectHead, uuid: Seq<char>, nonce: Seq<u8>, ts: Seq<char>) -> bool {
    &&& o.key@ == found.key@
    &&& o.body@ == sealed_bytes(nonce, note.content@)
    &&& opt_text(o.metadata.uuid) == Some(uuid)
    &&& opt_text(o.metadata.timestamp) == Some(ts)
    &&& opt_text(o.metadata.created_at) == meta_field(found.metadata, |m: ObjectMetadata| m.created_at)
    &&& opt_text(o.metadata.updated_at) == meta_field(found.metadata, |m: ObjectMetadata| m.updated_at)
    &&& opt_text(o.metadata.nonce) == Some(base64_text(nonce))
}

/// Builds the object that uploads a note under a given identity, nonce and time.
pub fn seal_upload(note: &Note, uuid: String, nonce: &[u8; 12], timestamp: String) -> (r: Result<BucketObject, NoteError>)
    ensures
        r is Ok <==> valid_note(note.title@, note.content@),
        r matches Err(e) ==> validation_result(note.title@, note.content@) == Err::<(), NoteError>(e),
        r matches Ok(o) ==> uploaded_object(o, *note, uuid@, nonce@, timestamp@),
        r matches Ok(o) ==> object_open_result(o.body@, opt_text(o.metadata.nonce)) == Ok::<Seq<char>, NoteError>(note.content@),
{
    validate_params(note)?;
    let body = seal_with_nonce(note.content.as_str(), nonce);
    let updated_at = match note.updated_at {
        Some(u) => u,
        None => 0,
    };
    proof {
        reveal_strlit(".txt");
    }
    Ok(BucketObject {
        key: concat(note.title.as_str(), ".txt"),
        body,
        metadata: ObjectMetadata {
            uuid: Some(uuid),
            timestamp: Some(timestamp),
            created_at: Some(decimal_text(note.created_at)),
            updated_at: Some(decimal_text(updated_at)),
            nonce: Some(crate::envelope::encode_base64(nonce)),
        },
    })
}

/// Prepares the upload of a note to a bucket: checks its lengths and seals
/// its content under a fresh nonce. `uuid` is the identity the local store
/// holds for the note.
pub fn upload_note_to_bucket(note: &Note, uuid: String) -> (r: Result<BucketObject, NoteError>)
    ensures
        !valid_note(note.title@, note.content@)
            ==> (r matches Err(e) && validation_result(note.title@, note.content@) == Err::<(), NoteError>(e)),
        valid_note(note.title@, note.content@) && r is Err
            ==> r == Err::<BucketObject, NoteError>(NoteError::EncryptionFailed),
        r matches Ok(o) ==> exists|nonce: Seq<u8>, ts: Seq<char>|
            nonce.len() == NONCE_LEN && uploaded_object(o, *note, uuid@, nonce, ts),
        r matches Ok(o) ==> object_open_result(o.body@, opt_text(o.metadata.nonce)) == Ok::<Seq<char>, NoteError>(note.content@),
{
    validate_params(note)?;
    let nonce = draw_nonce()?;
    let timestamp = rfc3339_now();
    seal_upload(note, uuid, &nonce, timestamp)
}

/// Builds the object that rewrites the bucket note found as `found`, with a
/// given nonce and time.
pub fn seal_bucket_update(note: &Note, found: &ObjectHead, uuid: String, nonce: &[u8; 12], timestamp: String) -> (r: Result<BucketObject, NoteError>)
    ensures
        r is Ok <==> valid_note(note.title@, note.content@),
        r matches Err(e) ==> validation_result(note.title@, note.content@) == Err::<(), NoteError>(e),
        r matches Ok(o) ==> rewritten_object(o, *note, *found, uuid@, nonce@, timestamp@),
        r matches Ok(o) ==> object_open_result(o.body@, opt_text(o.metadata.nonce)) == Ok::<Seq<char>, NoteError>(note.content@),
{
    validate_params(note)?;
    let body = seal_with_nonce(note.content.as_str(), nonce);
    let (created_at, updated_at) = match &found.metadata {
        Some(m) => (copy_text(&m.created_at), copy_text(&m.updated_at)),
        None => (None, None),
    };
    Ok(BucketObject {
        key: found.key.clone(),
        body,
        metadata: ObjectMetadata {
            uuid: Some(uuid),
            timestamp: Some(timestamp),
            created_at,
            updated_at,
            nonce: Some(crate::envelope::encode_base64(nonce)),
        },
    })
}

/// Prepares the rewrite of the bucket object that carries the note's uuid:
/// runs the identity scan over `heads`, then seals the content under a fresh
/// nonce for the object found. Once the note is valid and an object carries
/// its uuid, the only failure left is drawing the nonce.
pub fn update_bucket_note(heads: &Vec<ObjectHead>, note: &Note) -> (r: Result<BucketObject, NoteError>)
    ensures
        valid_note(note.title@, note.content@) && note.uuid is None
            ==> r == Err::<BucketObject, NoteError>(NoteError::NotFound),
        !valid_note(note.title@, note.content@)
            ==> (r matches Err(e) && validation_result(note.title@, note.content@) == Err::<(), NoteError>(e)),
        valid_note(note.title@, note.content@) && note.uuid is Some
            && (forall|j: int| 0 <= j < heads@.len() ==> meta_uuid(#[trigger] heads@[j].metadata) != opt_text(note.uuid))
            ==> r == Err::<BucketObject, NoteError>(NoteError::NotFound),
        valid_note(note.title@, note.content@) && note.uuid is Some
            && (exists|j: int| 0 <= j < heads@.len() && meta_uuid(#[trigger] heads@[j].metadata) == opt_text(note.uuid))
            && r is Err ==> r == Err::<BucketObject, NoteError>(NoteError::EncryptionFailed),
        r matches Ok(o) ==> exists|i: int, nonce: Seq<u8>, ts: Seq<char>|
            first_with_uuid(heads@, note@.uuid->0, i) && nonce.len() == NONCE_LEN
                && rewritten_object(o, *note, heads@[i], note@.uuid->0, nonce, ts),
        r matches Ok(o) ==> object_open_result(o.body@, opt_text(o.metadata.nonce)) == Ok::<Seq<char>, NoteError>(note.content@),
{
    validate_params(note)?;
    let uuid = match &note.uuid {
        Some(u) => u,
        None => return Err(NoteError::NotFound),
    };
    let i = locate_bucket_note(heads, uuid)?;
    let nonce = draw_nonce()?;
    let timestamp = rfc3339_now();
    let r = seal_bucket_update(note, &heads[i], uuid.clone(), &nonce, timestamp);
    assert(r matches Ok(o) ==> rewritten_object(o, *note, heads@[i as int], note@.uuid->0, nonce@, timestamp@));
    r
}

/// Opens every object of a full bucket listing, in order. Any object whose
/// nonce is missing, malformed or does not open the body fails the whole
/// listing with that object's error.
pub fn fetch_bucket_notes(objects: Vec<FetchedObject>) -> (r: Result<Vec<BucketNote>, NoteError>)
    ensures
        r matches Err(e) ==> opened_objects(objects@) == Err::<Seq<Seq<char>>, NoteError>(e),
        r matches Ok(v) ==> {
            &&& opened_objects(objects@) is Ok
            &&& v@.len() == objects@.len()
            &&& forall|i: int| 0 <= i < v@.len() ==> {
                &&& (#[trigger] v@[i]).content@ == opened_objects(objects@)->Ok_0[i]
                &&& v@[i].key@ == objects@[i].key@
                &&& opt_text(v@[i].last_modified) == opt_text(objects@[i].last_modified)
                &&& meta_uuid(v@[i].metadata) == meta_uuid(objects@[i].metadata)
                &&& v@[i].metadata is Some == objects@[i].metadata is Some
                &&& (v@[i].metadata is Some ==> same_metadata(v@[i].metadata->0, objects@[i].metadata->0))
            }
        },
{
    let mut out: Vec<BucketNote> = Vec::new();
    let mut i: usize = 0;
    while i < objects.len()
        invariant
            i <= objects@.len(),
            out@.len() == i,
            opened_objects(objects@.take(i as int)) is Ok,
            opened_objects(objects@.take(i as int))->Ok_0.len() == i,
            forall|k: int| 0 <= k < i ==> {
                &&& (#[trigger] out@[k]).content@ == opened_objects(objects@.take(i as int))->Ok_0[k]
                &&& out@[k].key@ == objects@[k].key@
                &&& opt_text(out@[k].last_modified) == opt_text(objects@[k].last_modified)
                &&& meta_uuid(out@[k].metadata) == meta_uuid(objects@[k].metadata)
                &&& out@[k].metadata is Some == objects@[k].metadata is Some
                &&& (out@[k].metadata is Some ==> same_metadata(out@[k].metadata->0, objects@[k].metadata->0))
            },
        decreases objects@.len() - i,
    {
        let o = &objects[i];
        let opened = open_object_body(o.body.as_slice(), &o.metadata);
        assert(objects@.take(i + 1).drop_last() =~= objects@.take(i as int));
        assert(objects@.take(i + 1).last() == objects@[i as int]);
        match opened {
            Ok(content) => {
                let metadata = match &o.metadata {
                    Some(m) => Some(copy_metadata(m)),
                    None => None,
                };
                let ghost done = opened_objects(objects@.take(i as int))->Ok_0;
                let ghost text = content@;
                out.push(BucketNote {
                    key: o.key.clone(),
                    last_modified: copy_text(&o.last_modified),
                    metadata,
                    content,
                });
                assert(opened_objects(objects@.take(i + 1)) == Ok::<Seq<Seq<char>>, NoteError>(done.push(text)));
            },
            Err(e) => {
                proof {
                    lemma_first_failure_stands(objects@, i + 1);
                }
                return Err(e);
            },
        }
        i = i + 1;
    }
    assert(objects@.take(objects@.len() as int) =~= objects@);
    Ok(out)
}

/// Once a prefix of the objects fails to open, opening all of them fails
/// with the same error.
proof fn lemma_first_failure_stands(objs: Seq<FetchedObject>, k: int)
    requires
        0 <= k <= objs.len(),
        opened_objects(objs.take(k)) is Err,
    ensures
        opened_objects(objs) == opened_objects(objs.take(k)),
    decreases objs.len() - k,
{
    if k < objs.len() {
        assert(objs.drop_last().take(k) =~= objs.take(k));
        lemma_first_failure_stands(objs.drop_last(), k);
    } else {
        assert(objs.take(k) =~= objs);
    }
}

/// The uuids to delete when clearing a bucket: those of the listed objects
/// whose metadata carries one, in listing order; the others are skipped.
pub fn delete_bucket_notes(notes: &Vec<BucketNote>) -> (r: Vec<String>)
    ensures
        r@.map_values(|u: String| u@) == uuids_to_clear(notes@),
{
    let mut out: Vec<String> = Vec::new();
    let mut i: usize = 0;
    while i < notes.len()
        invariant
            i <= notes@.len(),
            out@.map_values(|u: String| u@) == uuids_to_clear(notes@.take(i as int)),
        decreases notes@.len() - i,
    {
        assert(notes@.take(i + 1).drop_last() =~= notes@.take(i as int));
        assert(notes@.take(i + 1).last() == notes@[i as int]);
        match &notes[i].metadata {
            Some(m) => match &m.uuid {
                Some(u) => {
                    let ghost before = out@;
                    out.push(u.clone());
                    assert(out@.map_values(|u: String| u@) =~= before.map_values(|u: String| u@).push(u@));
                },
                None => {},
            },
            None => {},
        }
        i = i + 1;
    }
    assert(notes@.take(notes@.len() as int) =~= notes@);
    out
}

} // verus!
