use stickyflow::error::StoreError;
use stickyflow::cipher::encrypt_bytes;
use stickyflow::notes::{
    check_note_affected, new_note, new_note_id, note_after_update, open_note_row, pinned_flag,
    note_id_from_bytes, seal_note_text, timestamp_from_millis, validate_note_fields,
    CreateNoteInput, EncryptedNote, UpdateNoteInput,
};

fn key(byte: u8) -> Vec<u8> {
    vec![byte; 32]
}

fn input(title: &str, content: &str) -> CreateNoteInput {
    CreateNoteInput {
        title: title.to_string(),
        content: content.to_string(),
        color: "yellow".to_string(),
        note_type: "note".to_string(),
    }
}

#[test]
fn valid_fields_pass() {
    for kind in ["note", "snippet", "todo"] {
        assert_eq!(validate_note_fields("t", "c", "blue", kind), Ok(()));
    }
}

#[test]
fn title_limit_counts_characters() {
    let title_200 = "é".repeat(200);
    let title_201 = "é".repeat(201);
    assert_eq!(validate_note_fields(&title_200, "", "c", "note"), Ok(()));
    assert_eq!(validate_note_fields(&title_201, "", "c", "note"), Err(StoreError::TitleTooLong));
}

#[test]
fn content_limit_counts_bytes() {
    let exactly = "a".repeat(1_048_576);
    let over = format!("{}é", "a".repeat(1_048_575));
    assert_eq!(validate_note_fields("t", &exactly, "c", "note"), Ok(()));
    assert_eq!(validate_note_fields("t", &over, "c", "note"), Err(StoreError::ContentTooLarge));
}

#[test]
fn colour_must_be_present_and_short() {
    assert_eq!(validate_note_fields("t", "c", "", "note"), Err(StoreError::ColorInvalid));
    assert_eq!(validate_note_fields("t", "c", &"x".repeat(32), "note"), Ok(()));
    assert_eq!(validate_note_fields("t", "c", &"x".repeat(33), "note"), Err(StoreError::ColorInvalid));
}

#[test]
fn unknown_note_types_are_refused() {
    assert_eq!(validate_note_fields("t", "c", "red", "Note"), Err(StoreError::NoteTypeInvalid));
    assert_eq!(validate_note_fields("t", "c", "red", ""), Err(StoreError::NoteTypeInvalid));
    assert_eq!(validate_note_fields("t", "c", "red", "todos"), Err(StoreError::NoteTypeInvalid));
}

#[test]
fn validation_reports_the_first_failing_field() {
    let long_title = "x".repeat(201);
    assert_eq!(validate_note_fields(&long_title, "", "", "bad"), Err(StoreError::TitleTooLong));
    let big = "x".repeat(1_048_577);
    assert_eq!(validate_note_fields("t", &big, "", "bad"), Err(StoreError::ContentTooLarge));
    assert_eq!(validate_note_fields("t", "", "", "bad"), Err(StoreError::ColorInvalid));
}

#[test]
fn a_created_note_reads_back() {
    let (row, note) = new_note(&key(3), input("Groceries", "milk\neggs"), "id-1".to_string(), 1_700_000_000_000).unwrap();
    assert_eq!(note.id, "id-1");
    assert!(!note.pinned);
    assert_eq!(note.created_at, 1_700_000_000_000);
    assert_eq!(note.updated_at, 1_700_000_000_000);
    assert_eq!(row.pinned, 0);
    assert_ne!(row.title_cipher, b"Groceries".to_vec());
    let read = open_note_row(&key(3), row).unwrap();
    assert_eq!(read, note);
}

#[test]
fn a_row_does_not_open_under_another_key() {
    let (row, _) = new_note(&key(3), input("a", "b"), "id".to_string(), 1).unwrap();
    assert_eq!(open_note_row(&key(4), row), Err(StoreError::DecryptionFailed));
}

#[test]
fn a_damaged_body_is_reported_after_a_good_title() {
    let (mut row, _) = new_note(&key(3), input("a", "b"), "id".to_string(), 1).unwrap();
    row.content_cipher.truncate(5);
    assert_eq!(open_note_row(&key(3), row), Err(StoreError::EncryptedPayloadInvalid));
}

#[test]
fn creating_needs_a_full_key() {
    assert_eq!(new_note(&[1u8; 8], input("a", "b"), "id".to_string(), 1), Err(StoreError::CipherKeyLength));
}

#[test]
fn stored_pinned_values_read_as_flags() {
    let sealed = seal_note_text(&key(2), "t", "c").unwrap();
    for (pinned, expected) in [(0i64, false), (1, true), (7, true), (-1, true)] {
        let row = EncryptedNote {
            id: "n".to_string(),
            title_cipher: sealed.title_cipher.clone(),
            content_cipher: sealed.content_cipher.clone(),
            color: "c".to_string(),
            note_type: "todo".to_string(),
            pinned,
            created_at: 5,
            updated_at: 6,
        };
        let note = open_note_row(&key(2), row).unwrap();
        assert_eq!(note.pinned, expected);
        assert_eq!((note.title.as_str(), note.content.as_str()), ("t", "c"));
        assert_eq!((note.created_at, note.updated_at), (5, 6));
    }
}

#[test]
fn an_updated_note_reads_back() {
    let update = UpdateNoteInput {
        id: "n1".to_string(),
        title: "New title".to_string(),
        content: "New body".to_string(),
        color: "green".to_string(),
        note_type: "snippet".to_string(),
        pinned: true,
    };
    let sealed = seal_note_text(&key(6), &update.title, &update.content).unwrap();
    let row = EncryptedNote {
        id: update.id.clone(),
        title_cipher: sealed.title_cipher,
        content_cipher: sealed.content_cipher,
        color: update.color.clone(),
        note_type: update.note_type.clone(),
        pinned: pinned_flag(update.pinned),
        created_at: 10,
        updated_at: 20,
    };
    let note = note_after_update(update, 10, 20);
    assert_eq!(open_note_row(&key(6), row).unwrap(), note);
    assert_eq!(pinned_flag(true), 1);
    assert_eq!(pinned_flag(false), 0);
}

#[test]
fn untouched_rows_mean_a_missing_note() {
    assert_eq!(check_note_affected(0), Err(StoreError::NoteNotFound));
    assert_eq!(check_note_affected(1), Ok(()));
}

#[test]
fn timestamps_must_fit_a_signed_64_bit_integer() {
    assert_eq!(timestamp_from_millis(1_700_000_000_123), Ok(1_700_000_000_123));
    assert_eq!(timestamp_from_millis(i64::MAX as u128), Ok(i64::MAX));
    assert_eq!(timestamp_from_millis(i64::MAX as u128 + 1), Err(StoreError::TimestampOutOfRange));
}

#[test]
fn note_ids_are_random_uuids() {
    let id = new_note_id().unwrap();
    let chars: Vec<char> = id.chars().collect();
    assert_eq!(chars.len(), 36);
    for (i, c) in chars.iter().enumerate() {
        if [8, 13, 18, 23].contains(&i) {
            assert_eq!(*c, '-');
        } else {
            assert!(c.is_ascii_digit() || ('a'..='f').contains(c));
        }
    }
    assert_eq!(chars[14], '4');
    assert!(['8', '9', 'a', 'b'].contains(&chars[19]));
    assert_ne!(new_note_id().unwrap(), id);
}

#[test]
fn note_ids_are_built_from_their_random_bytes() {
    let bytes = [70, 235, 208, 238, 14, 109, 67, 201, 185, 13, 204, 195, 90, 145, 63, 62];
    assert_eq!(note_id_from_bytes(&bytes), "46ebd0ee-0e6d-43c9-b90d-ccc35a913f3e");
    assert_eq!(note_id_from_bytes(&[0u8; 16]), "00000000-0000-4000-8000-000000000000");
    assert_eq!(note_id_from_bytes(&[0xffu8; 16]), "ffffffff-ffff-4fff-bfff-ffffffffffff");
}

#[test]
fn a_title_that_is_not_utf8_reports_the_decoder_error() {
    let k = key(5);
    let title_cipher = encrypt_bytes(&k, &[b'o', b'k', 0xc3]).unwrap();
    let content_cipher = encrypt_bytes(&k, b"fine").unwrap();
    let row = EncryptedNote {
        id: "n".to_string(),
        title_cipher,
        content_cipher,
        color: "#fff".to_string(),
        note_type: "note".to_string(),
        pinned: 0,
        created_at: 1,
        updated_at: 1,
    };
    let expected = String::from_utf8(vec![b'o', b'k', 0xc3]).unwrap_err().to_string();
    assert_eq!(open_note_row(&k, row), Err(StoreError::Outside(expected)));
}

#[test]
fn a_created_note_is_sealed_as_nonce_ciphertext_and_tag() {
    let title = "Groceries";
    let content = "milk\neggs and ünïcode";
    let (row, _) = new_note(&key(4), input(title, content), "id-2".to_string(), 1).unwrap();
    assert_eq!(row.title_cipher.len(), 12 + title.len() + 16);
    assert_eq!(row.content_cipher.len(), 12 + content.len() + 16);
}
