use vstd::prelude::*;
use vstd::utf8::encode_utf8;

verus! {

/// Largest title, in UTF-8 bytes, that may be written to either store.
pub const MAX_TITLE_BYTES: usize = 100;

/// Largest content, in UTF-8 bytes, that may be written to either store.
pub const MAX_CONTENT_BYTES: usize = 1_000_000;

/// A note as both stores and the search engine hand it around.
///
/// `content` is plaintext when a note has been read back and the base64
/// ciphertext when a note has just been sealed for the local store.
#[derive(Debug, Clone)]
pub struct Note {
    pub id: Option<i64>,
    pub uuid: Option<String>,
    pub title: String,
    pub content: String,
    pub nonce: Option<String>,
    pub created_at: i64,
    pub updated_at: Option<i64>,
    pub timestamp: Option<String>,
}

/// The mathematical value of a note: every text as its characters.
pub struct NoteView {
    pub id: Option<i64>,
    pub uuid: Option<Seq<char>>,
    pub title: Seq<char>,
    pub content: Seq<char>,
    pub nonce: Option<Seq<char>>,
    pub created_at: i64,
    pub updated_at: Option<i64>,
    pub timestamp: Option<Seq<char>>,
}

/// The characters of an optional text.
pub open spec fn opt_text(o: Option<String>) -> Option<Seq<char>> {
    match o {
        Some(s) => Some(s@),
        None => None,
    }
}

impl View for Note {
    type V = NoteView;

    open spec fn view(&self) -> NoteView {
        NoteView {
            id: self.id,
            uuid: opt_text(self.uuid),
            title: self.title@,
            content: self.content@,
            nonce: opt_text(self.nonce),
            created_at: self.created_at,
            updated_at: self.updated_at,
            timestamp: opt_text(self.timestamp),
        }
    }
}

/// Every failure the core reports to its caller.
#[derive(Debug, PartialEq, Eq)]
pub enum NoteError {
    /// The title is longer than `MAX_TITLE_BYTES`.
    TitleTooLong,
    /// The content is longer than `MAX_CONTENT_BYTES`.
    ContentTooLong,
    /// No row or object carries the requested id or uuid.
    NotFound,
    /// Stored ciphertext or nonce is not valid base64, or the plaintext is not UTF-8.
    CorruptEnvelope,
    /// A nonce is not exactly twelve bytes long.
    InvalidNonce,
    /// The ciphertext does not authenticate under the key and nonce.
    DecryptionFailed,
    /// No nonce could be drawn, or the cipher refused to seal.
    EncryptionFailed,
    /// A request lacks a parameter it needs (a bucket for a cloud search).
    MissingParameter,
    /// A search query does not parse; the text is the parser's own.
    InvalidQuery(String),
    /// The database or the network failed; the text is the transport's own.
    Backend(String),
}

/// The length of a string in UTF-8 bytes, which is what `str::len` counts.
pub open spec fn byte_len(s: Seq<char>) -> nat {
    encode_utf8(s).len()
}

/// A note whose title and content may be written.
pub open spec fn valid_note(title: Seq<char>, content: Seq<char>) -> bool {
    byte_len(title) <= MAX_TITLE_BYTES && byte_len(content) <= MAX_CONTENT_BYTES
}

/// The outcome that length validation owes for a title and a content.
pub open spec fn validation_result(title: Seq<char>, content: Seq<char>) -> Result<(), NoteError> {
    if byte_len(title) > MAX_TITLE_BYTES {
        Err(NoteError::TitleTooLong)
    } else if byte_len(content) > MAX_CONTENT_BYTES {
        Err(NoteError::ContentTooLong)
    } else {
        Ok(())
    }
}

impl NoteError {
    /// A description of the error for the user; an error that carries the
    /// transport's or the parser's text gives that text.
    pub fn message(&self) -> (r: String)
        ensures
            self is TitleTooLong ==> r@ == "Title too long"@,
            self is ContentTooLong ==> r@ == "Content too long"@,
            self is NotFound ==> r@ == "Note not found"@,
            self is CorruptEnvelope ==> r@ == "Stored content could not be decoded"@,
            self is InvalidNonce ==> r@ == "Nonce has wrong length"@,
            self is DecryptionFailed ==> r@ == "Failed to decrypt content"@,
            self is EncryptionFailed ==> r@ == "Encryption failed"@,
            self is MissingParameter ==> r@ == "Bucket name is required when local is false"@,
            self matches NoteError::Backend(e) ==> r@ == e@,
            self matches NoteError::InvalidQuery(e) ==> r@ == e@,
    {
        broadcast use vstd::string::to_string_from_display_ensures_for_str;

        match self {
            NoteError::TitleTooLong => "Title too long".to_string(),
            NoteError::ContentTooLong => "Content too long".to_string(),
            NoteError::NotFound => "Note not found".to_string(),
            NoteError::CorruptEnvelope => "Stored content could not be decoded".to_string(),
            NoteError::InvalidNonce => "Nonce has wrong length".to_string(),
            NoteError::DecryptionFailed => "Failed to decrypt content".to_string(),
            NoteError::EncryptionFailed => "Encryption failed".to_string(),
            NoteError::MissingParameter => "Bucket name is required when local is false".to_string(),
            NoteError::InvalidQuery(e) => e.clone(),
            NoteError::Backend(e) => e.clone(),
        }
    }
}

/// Checks the length limits on a note before it is written anywhere.
pub fn validate_params(note: &Note) -> (r: Result<(), NoteError>)
    ensures
        r == validation_result(note.title@, note.content@),
        r is Ok <==> valid_note(note.title@, note.content@),
{
    if note.title.as_str().as_bytes().len() > MAX_TITLE_BYTES {
        return Err(NoteError::TitleTooLong);
    }
    if note.content.as_str().as_bytes().len() > MAX_CONTENT_BYTES {
        return Err(NoteError::ContentTooLong);
    }
    Ok(())
}

/// Relies on `format!`: the text of `a` followed by that of `b`.
#[verifier::external_body]
pub(crate) fn concat(a: &str, b: &str) -> (r: String)
    ensures
        r@ == a@ + b@,
{
    format!("{a}{b}")
}

/// Failures of bucket administration.
#[derive(Debug)]
pub enum BucketError {
    BucketAlreadyExists,
    S3Error(String),
    TaggingError,
}

impl BucketError {
    /// A description of the error for the user.
    pub fn message(&self) -> (r: String)
        ensures
            self is BucketAlreadyExists ==> r@ == "Bucket already exists"@,
            self matches BucketError::S3Error(e) ==> r@ == "S3 error: "@ + e@,
            self is TaggingError ==> r@ == "Error creating tag"@,
    {
        broadcast use vstd::string::to_string_from_display_ensures_for_str;

        match self {
            BucketError::BucketAlreadyExists => "Bucket already exists".to_string(),
            BucketError::S3Error(e) => concat("S3 error: ", e.as_str()),
            BucketError::TaggingError => "Error creating tag".to_string(),
        }
    }
}

} // verus!
