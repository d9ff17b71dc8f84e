# stickyflow

The verified core of StickyFlow, a local-first desktop notes application with
encrypted storage, an optional application password and sticky note windows.

The library (`src/`) is written in Verus. Each public function carries a
contract that Verus proves; calls into outside crates (AES-256-GCM, Argon2,
base64, UUID generation, zeroization) go through small trusted wrappers whose
contracts state what those crates document.

## Layout

- `src/cipher.rs` — nonce-prefixed AES-256-GCM payloads for bytes and text.
- `src/keywrap.rs` — wrapping the master key under an Argon2-derived key.
- `src/password.rs` — security configuration, password set-up and unlocking.
- `src/session.rs` — the in-memory master-key slot and local key file checks.
- `src/notes.rs` — note validation, encrypted rows, timestamps and note ids.
- `src/schema.rs` — database schema versions and their upgrade scripts.
- `src/chip.rs` — compact chip settings, their storage, titles, sizes and style.
- `src/labels.rs` — window labels of sticky notes.
- `src/sticky.rs` — switching a sticky between its expanded and compact form.
- `src/encoding.rs`, `src/text.rs` — base64, UTF-8, decimal and white-space
  specifications.
- `app/` — the Tauri shell: commands, files, SQLite, GTK windows.
- `tests/` — tests of the library on concrete values.
