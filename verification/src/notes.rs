use uuid::Builder;
use vstd::prelude::*;

use crate::cipher::{
    decrypt_text, encrypt_text, generate_random_bytes, is_sealed_payload, is_text_decrypt_error,
    opened_text, random_source_failed, text_opens, AES_GCM_MAX_PLAINTEXT, MASTER_KEY_LEN,
};
use crate::error::StoreError;
use crate::keywrap::utf8;
use crate::text::same_text;

verus! {

/// Most characters a note title may have.
pub const MAX_TITLE_CHARS: usize = 200;

/// Most bytes (UTF-8) a note body may have: 1 MiB.
pub const MAX_CONTENT_BYTES: usize = 1048576;

/// Most characters a note colour may have.
pub const MAX_COLOR_CHARS: usize = 32;

/// The kinds of note the store keeps.
pub open spec fn is_note_type(note_type: Seq<char>) -> bool {
    note_type == "note"@ || note_type == "snippet"@ || note_type == "todo"@
}

/// Checks the user-editable fields of a note, in this order: title length,
/// body size, colour, type.
pub fn validate_note_fields(title: &str, content: &str, color: &str, note_type: &str) -> (r: Result<
    (),
    StoreError,
>)
    ensures
        title@.len() > MAX_TITLE_CHARS ==> r matches Err(StoreError::TitleTooLong),
        title@.len() <= MAX_TITLE_CHARS && utf8(content@).len() > MAX_CONTENT_BYTES ==> r matches Err(
            StoreError::ContentTooLarge,
        ),
        title@.len() <= MAX_TITLE_CHARS && utf8(content@).len() <= MAX_CONTENT_BYTES && (color@.len()
            == 0 || color@.len() > MAX_COLOR_CHARS) ==> r matches Err(StoreError::ColorInvalid),
        title@.len() <= MAX_TITLE_CHARS && utf8(content@).len() <= MAX_CONTENT_BYTES && 0
            < color@.len() <= MAX_COLOR_CHARS && !is_note_type(note_type@) ==> r matches Err(
            StoreError::NoteTypeInvalid,
        ),
        r is Ok <==> (title@.len() <= MAX_TITLE_CHARS && utf8(content@).len() <= MAX_CONTENT_BYTES
            && 0 < color@.len() <= MAX_COLOR_CHARS && is_note_type(note_type@)),
{
    if title.unicode_len() > MAX_TITLE_CHARS {
        return Err(StoreError::TitleTooLong);
    }
    if content.as_bytes().len() > MAX_CONTENT_BYTES {
        return Err(StoreError::ContentTooLarge);
    }
    let color_chars = color.unicode_len();
    if color_chars == 0 || color_chars > MAX_COLOR_CHARS {
        return Err(StoreError::ColorInvalid);
    }
    if !(same_text(note_type, "note") || same_text(note_type, "snippet") || same_text(
        note_type,
        "todo",
    )) {
        return Err(StoreError::NoteTypeInvalid);
    }
    Ok(())
}

/// A note as the user sees it.
#[derive(Debug, Clone, PartialEq, Eq)]
pub struct Note {
    pub id: String,
    pub title: String,
    pub content: String,
    pub color: String,
    pub note_type: String,
    pub pinned: bool,
    pub created_at: i64,
    pub updated_at: i64,
}

/// A note as it is stored: title and body encrypted, `pinned` as an integer.
#[derive(Debug, Clone, PartialEq, Eq)]
pub struct EncryptedNote {
    pub id: String,
    pub title_cipher: Vec<u8>,
    pub content_cipher: Vec<u8>,
    pub color: String,
    pub note_type: String,
    pub pinned: i64,
    pub created_at: i64,
    pub updated_at: i64,
}

/// The fields of a note to create.
#[derive(Debug, Clone, PartialEq, Eq)]
pub struct CreateNoteInput {
    pub title: String,
    pub content: String,
    pub color: String,
    pub note_type: String,
}

/// The fields of a note to replace.
#[derive(Debug, Clone, PartialEq, Eq)]
pub struct UpdateNoteInput {
    pub id: String,
    pub title: String,
    pub content: String,
    pub color: String,
    pub note_type: String,
    pub pinned: bool,
}

/// A stored row reads, under a key, as a note: its title and body decrypt to
/// the note's, and every other field matches.
pub open spec fn row_reads_as(key: Seq<u8>, row: EncryptedNote, note: Note) -> bool {
    &&& key.len() == MASTER_KEY_LEN
    &&& opened_text(key, row.title_cipher@) == Some(note.title@)
    &&& opened_text(key, row.content_cipher@) == Some(note.content@)
    &&& note.id@ == row.id@
    &&& note.color@ == row.color@
    &&& note.note_type@ == row.note_type@
    &&& note.pinned == (row.pinned != 0)
    &&& note.created_at == row.created_at
    &&& note.updated_at == row.updated_at
}

/// Decrypts a stored row into the note it holds.
pub fn open_note_row(key: &[u8], row: EncryptedNote) -> (r: Result<Note, StoreError>)
    ensures
        r is Ok <==> (text_opens(key@, row.title_cipher@) && text_opens(key@, row.content_cipher@)),
        r matches Ok(note) ==> row_reads_as(key@, row, note),
        !text_opens(key@, row.title_cipher@) ==> (r matches Err(e) && is_text_decrypt_error(
            key@,
            row.title_cipher@,
            e,
        )),
        text_opens(key@, row.title_cipher@) && !text_opens(key@, row.content_cipher@) ==> (r matches Err(
            e,
        ) && is_text_decrypt_error(key@, row.content_cipher@, e)),
{
    let title = decrypt_text(key, row.title_cipher.as_slice())?;
    let content = decrypt_text(key, row.content_cipher.as_slice())?;
    Ok(Note {
        id: row.id,
        title,
        content,
        color: row.color,
        note_type: row.note_type,
        pinned: row.pinned != 0,
        created_at: row.created_at,
        updated_at: row.updated_at,
    })
}

/// The encrypted title and body of a note.
pub struct SealedText {
    pub title_cipher: Vec<u8>,
    pub content_cipher: Vec<u8>,
}

/// Whether a title and a body are small enough for the cipher.
pub open spec fn fits_cipher(title: Seq<char>, content: Seq<char>) -> bool {
    utf8(title).len() <= AES_GCM_MAX_PLAINTEXT && utf8(content).len() <= AES_GCM_MAX_PLAINTEXT
}

/// Encrypts a title and a body under the master key, the title first.
pub fn seal_note_text(key: &[u8], title: &str, content: &str) -> (r: Result<SealedText, StoreError>)
    ensures
        key@.len() != MASTER_KEY_LEN ==> r matches Err(StoreError::CipherKeyLength),
        key@.len() == MASTER_KEY_LEN && !fits_cipher(title@, content@) ==> (r matches Err(
            StoreError::EncryptionFailed,
        ) || random_source_failed(r)),
        key@.len() == MASTER_KEY_LEN && fits_cipher(title@, content@) ==> (r is Ok
            || random_source_failed(r)),
        r matches Ok(sealed) ==> {
            &&& is_sealed_payload(key@, utf8(title@), sealed.title_cipher@)
            &&& is_sealed_payload(key@, utf8(content@), sealed.content_cipher@)
            &&& opened_text(key@, sealed.title_cipher@) == Some(title@)
            &&& opened_text(key@, sealed.content_cipher@) == Some(content@)
        },
{
    let title_cipher = encrypt_text(key, title)?;
    let content_cipher = encrypt_text(key, content)?;
    Ok(SealedText { title_cipher, content_cipher })
}

/// The stored row and the note that creating a note writes: both
/// timestamps are `now`, and a new note is not pinned.
pub fn new_note(key: &[u8], input: CreateNoteInput, id: String, now: i64) -> (r: Result<
    (EncryptedNote, Note),
    StoreError,
>)
    ensures
        key@.len() != MASTER_KEY_LEN ==> r matches Err(StoreError::CipherKeyLength),
        key@.len() == MASTER_KEY_LEN && !fits_cipher(input.title@, input.content@) ==> (r matches Err(
            StoreError::EncryptionFailed,
        ) || random_source_failed(r)),
        key@.len() == MASTER_KEY_LEN && fits_cipher(input.title@, input.content@) ==> (r is Ok
            || random_source_failed(r)),
        r matches Ok((row, note)) ==> {
            &&& row_reads_as(key@, row, note)
            &&& is_sealed_payload(key@, utf8(input.title@), row.title_cipher@)
            &&& is_sealed_payload(key@, utf8(input.content@), row.content_cipher@)
            &&& note.id@ == id@
            &&& note.title@ == input.title@
            &&& note.content@ == input.content@
            &&& note.color@ == input.color@
            &&& note.note_type@ == input.note_type@
            &&& !note.pinned
            &&& row.pinned == 0
            &&& note.created_at == now
            &&& note.updated_at == now
        },
{
    let sealed = seal_note_text(key, input.title.as_str(), input.content.as_str())?;
    let row = EncryptedNote {
        id: id.clone(),
        title_cipher: sealed.title_cipher,
        content_cipher: sealed.content_cipher,
        color: input.color.clone(),
        note_type: input.note_type.clone(),
        pinned: 0,
        created_at: now,
        updated_at: now,
    };
    let note = Note {
        id,
        title: input.title,
        content: input.content,
        color: input.color,
        note_type: input.note_type,
        pinned: false,
        created_at: now,
        updated_at: now,
    };
    Ok((row, note))
}

/// How the `pinned` flag is stored: 1 for pinned, 0 otherwise.
pub fn pinned_flag(pinned: bool) -> (flag: i64)
    ensures
        flag == (if pinned { 1i64 } else { 0i64 }),
        (flag != 0) == pinned,
{
    if pinned {
        1
    } else {
        0
    }
}

/// The note that an update leaves: the new fields, the creation time already
/// stored, and `now` as the time of the update.
pub fn note_after_update(input: UpdateNoteInput, created_at: i64, now: i64) -> (note: Note)
    ensures
        note.id@ == input.id@,
        note.title@ == input.title@,
        note.content@ == input.content@,
        note.color@ == input.color@,
        note.note_type@ == input.note_type@,
        note.pinned == input.pinned,
        note.created_at == created_at,
        note.updated_at == now,
{
    Note {
        id: input.id,
        title: input.title,
        content: input.content,
        color: input.color,
        note_type: input.note_type,
        pinned: input.pinned,
        created_at,
        updated_at: now,
    }
}

/// An updated row, written with the sealed title and body of the update and
/// the stored flag of its `pinned` field, reads back as the note the update
/// returns.
pub proof fn lemma_update_reads_back(
    key: Seq<u8>,
    sealed: SealedText,
    input: UpdateNoteInput,
    row: EncryptedNote,
    note: Note,
)
    requires
        key.len() == MASTER_KEY_LEN,
        opened_text(key, sealed.title_cipher@) == Some(input.title@),
        opened_text(key, sealed.content_cipher@) == Some(input.content@),
        row.title_cipher@ == sealed.title_cipher@,
        row.content_cipher@ == sealed.content_cipher@,
        row.id@ == input.id@,
        row.color@ == input.color@,
        row.note_type@ == input.note_type@,
        (row.pinned != 0) == input.pinned,
        row.created_at == note.created_at,
        row.updated_at == note.updated_at,
        note.id@ == input.id@,
        note.title@ == input.title@,
        note.content@ == input.content@,
        note.color@ == input.color@,
        note.note_type@ == input.note_type@,
        note.pinned == input.pinned,
    ensures
        row_reads_as(key, row, note),
{
}

/// A note written to a row reads back, field for field, as the same note.
pub proof fn lemma_note_round_trip(key: Seq<u8>, row: EncryptedNote, written: Note, read: Note)
    requires
        row_reads_as(key, row, written),
        row_reads_as(key, row, read),
    ensures
        read.id@ == written.id@,
        read.title@ == written.title@,
        read.content@ == written.content@,
        read.color@ == written.color@,
        read.note_type@ == written.note_type@,
        read.pinned == written.pinned,
        read.created_at == written.created_at,
        read.updated_at == written.updated_at,
{
}

/// An update or a delete that touched no row means the note does not exist.
pub fn check_note_affected(affected: usize) -> (r: Result<(), StoreError>)
    ensures
        affected == 0 ==> r matches Err(StoreError::NoteNotFound),
        affected > 0 ==> r is Ok,
{
    if affected == 0 {
        Err(StoreError::NoteNotFound)
    } else {
        Ok(())
    }
}

/// Converts a count of milliseconds since the Unix epoch into the stored
/// timestamp.
pub fn timestamp_from_millis(millis: u128) -> (r: Result<i64, StoreError>)
    ensures
        millis <= i64::MAX ==> (r matches Ok(t) && t == millis),
        millis > i64::MAX ==> r matches Err(StoreError::TimestampOutOfRange),
{
    if millis > 9223372036854775807u128 {
        Err(StoreError::TimestampOutOfRange)
    } else {
        Ok(millis as i64)
    }
}

/// Whether a text is a random (version 4) UUID in hyphenated lower-case form.
pub open spec fn is_random_uuid_text(s: Seq<char>) -> bool {
    &&& s.len() == 36
    &&& forall|i: int|
        0 <= i < 36 ==> if i == 8 || i == 13 || i == 18 || i == 23 {
            #[trigger] s[i] == '-'
        } else {
            ('0' as u32 <= s[i] as u32 <= '9' as u32) || ('a' as u32 <= s[i] as u32 <= 'f' as u32)
        }
    &&& s[14] == '4'
    &&& (s[19] == '8' || s[19] == '9' || s[19] == 'a' || s[19] == 'b')
}

/// The hyphenated text of the version-4 UUID built from 16 random bytes.
pub uninterp spec fn uuid_v4_text(bytes: Seq<u8>) -> Seq<char>;

/// Builds a version-4 UUID from 16 random bytes
/// (`uuid::Builder::from_random_bytes`, then `into_uuid` and its `Display`).
///
/// Trusted: the result is a function of the bytes alone; the crate sets the
/// version nibble to 4 and the variant bits to `10`, and displays the UUID
/// as 32 lower-case hexadecimal digits in groups of 8, 4, 4, 4 and 12
/// separated by hyphens.
#[verifier::external_body]
fn uuid_v4_from_bytes(bytes: [u8; 16]) -> (id: String)
    ensures
        id@ == uuid_v4_text(bytes@),
        is_random_uuid_text(id@),
{
    Builder::from_random_bytes(bytes).into_uuid().to_string()
}

/// The number of random bytes in a note id.
pub const NOTE_ID_RANDOM_BYTES: usize = 16;

/// The note id built from 16 random bytes: the version-4 UUID they make, in
/// hyphenated form.
pub fn note_id_from_bytes(bytes: &[u8]) -> (id: String)
    requires
        bytes@.len() == NOTE_ID_RANDOM_BYTES,
    ensures
        id@ == uuid_v4_text(bytes@),
        is_random_uuid_text(id@),
{
    let mut array: [u8; 16] = [0u8; 16];
    let mut i: usize = 0;
    while i < 16
        invariant
            bytes@.len() == 16,
            0 <= i <= 16,
            forall|j: int| 0 <= j < i ==> array@[j] == bytes@[j],
        decreases 16 - i,
    {
        array[i] = bytes[i];
        i = i + 1;
    }
    proof {
        assert(array@ =~= bytes@);
    }
    uuid_v4_from_bytes(array)
}

/// A fresh note id: a random version-4 UUID in hyphenated form, unless the
/// operating system's random source fails.
pub fn new_note_id() -> (r: Result<String, StoreError>)
    ensures
        r matches Ok(id) ==> is_random_uuid_text(id@),
        r is Ok || random_source_failed(r),
{
    let bytes = generate_random_bytes(NOTE_ID_RANDOM_BYTES)?;
    Ok(note_id_from_bytes(bytes.as_slice()))
}

} // verus!
