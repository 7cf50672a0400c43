use std::collections::HashSet;

use custom_notes::envelope::{open, open_text, seal, seal_text_with_nonce, seal_with_nonce};
use custom_notes::note::{validate_params, Note, NoteError};

fn note(title: &str, content: &str) -> Note {
    Note {
        id: None,
        uuid: None,
        title: title.to_string(),
        content: content.to_string(),
        nonce: None,
        created_at: 0,
        updated_at: None,
        timestamp: None,
    }
}

#[test]
fn seal_then_open_gives_plaintext_back() {
    for text in ["", "hello", "apple pie recipe", "grüße, 世界 ✓"] {
        let (sealed, nonce) = seal(text).unwrap();
        assert_eq!(sealed.len(), text.len() + 16);
        if !text.is_empty() {
            assert_ne!(&sealed[..text.len()], text.as_bytes());
        }
        assert_eq!(open(&sealed, &nonce).unwrap(), text);
    }
}

#[test]
fn stored_envelope_round_trips() {
    let nonce = [7u8; 12];
    let env = seal_text_with_nonce("banana bread recipe", &nonce);
    assert_eq!(env.nonce, "BwcHBwcHBwcHBwcH");
    assert_ne!(env.ciphertext, "banana bread recipe");
    assert_eq!(open_text(&env.ciphertext, &env.nonce).unwrap(), "banana bread recipe");
}

#[test]
fn sealing_is_fixed_for_a_nonce() {
    let a = seal_with_nonce("same", &[1u8; 12]);
    let b = seal_with_nonce("same", &[1u8; 12]);
    let c = seal_with_nonce("same", &[2u8; 12]);
    assert_eq!(a, b);
    assert_ne!(a, c);
}

#[test]
fn consecutive_seals_draw_distinct_nonces() {
    let mut seen = HashSet::new();
    for _ in 0..1000 {
        let (_, nonce) = seal("identical content").unwrap();
        assert!(seen.insert(nonce));
    }
    assert_eq!(seen.len(), 1000);
}

#[test]
fn ten_byte_nonce_is_invalid() {
    let (sealed, _) = seal("secret").unwrap();
    assert_eq!(open(&sealed, &[0u8; 10]), Err(NoteError::InvalidNonce));
    assert_eq!(open(&sealed, &[0u8; 13]), Err(NoteError::InvalidNonce));
    assert_eq!(open(&[], &[]), Err(NoteError::InvalidNonce));
}

#[test]
fn tampered_ciphertext_fails_to_decrypt() {
    let (mut sealed, nonce) = seal("secret").unwrap();
    sealed[0] ^= 1;
    assert_eq!(open(&sealed, &nonce), Err(NoteError::DecryptionFailed));
    let (sealed, _) = seal("secret").unwrap();
    assert_eq!(open(&sealed, &[9u8; 12]), Err(NoteError::DecryptionFailed));
    assert_eq!(open(&[1, 2, 3], &[0u8; 12]), Err(NoteError::DecryptionFailed));
}

#[test]
fn malformed_base64_is_a_corrupt_envelope() {
    let env = seal_text_with_nonce("x", &[3u8; 12]);
    assert_eq!(open_text("not base64!", &env.nonce), Err(NoteError::CorruptEnvelope));
    assert_eq!(open_text(&env.ciphertext, "%%%"), Err(NoteError::CorruptEnvelope));
    assert_eq!(open_text(&env.ciphertext, "AAAAAAAAAAAAAA=="), Err(NoteError::InvalidNonce));
    assert_eq!(open_text("not base64!", "AAAAAAAAAAAAAA=="), Err(NoteError::InvalidNonce));
}

#[test]
fn validation_boundary() {
    assert_eq!(validate_params(&note(&"a".repeat(100), "x")), Ok(()));
    assert_eq!(validate_params(&note(&"a".repeat(101), "x")), Err(NoteError::TitleTooLong));
    assert_eq!(validate_params(&note("t", &"c".repeat(1_000_000))), Ok(()));
    assert_eq!(validate_params(&note("t", &"c".repeat(1_000_001))), Err(NoteError::ContentTooLong));
    assert_eq!(validate_params(&note(&"é".repeat(51), "x")), Err(NoteError::TitleTooLong));
    assert_eq!(validate_params(&note(&"a".repeat(101), &"c".repeat(1_000_001))), Err(NoteError::TitleTooLong));
}

#[test]
fn error_messages() {
    assert_eq!(NoteError::TitleTooLong.message(), "Title too long");
    assert_eq!(NoteError::ContentTooLong.message(), "Content too long");
    assert_eq!(NoteError::NotFound.message(), "Note not found");
    assert_eq!(NoteError::Backend("disk".to_string()).message(), "disk");
    assert_eq!(NoteError::InvalidNonce.message(), "Nonce has wrong length");
    assert_eq!(custom_notes::note::BucketError::BucketAlreadyExists.message(), "Bucket already exists");
    assert_eq!(custom_notes::note::BucketError::TaggingError.message(), "Error creating tag");
    assert_eq!(
        custom_notes::note::BucketError::S3Error("boom".to_string()).message(),
        "S3 error: boom"
    );
}
