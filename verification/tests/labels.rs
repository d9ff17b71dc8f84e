use stickyflow::error::StoreError;
use stickyflow::labels::{
    is_sticky_window_label, sticky_base_label, sticky_chip_label, sticky_expanded_label,
    sticky_label_for_mode,
};
use stickyflow::notes::new_note_id;

#[test]
fn labels_drop_the_hyphens_of_the_id() {
    let id = "0f8fad5b-d9cb-469f-a165-70867728950e";
    assert_eq!(sticky_base_label(id), "sticky-0f8fad5bd9cb469fa16570867728950e");
    assert_eq!(sticky_expanded_label(id), "sticky-0f8fad5bd9cb469fa16570867728950e-expanded");
    assert_eq!(sticky_chip_label(id), "sticky-0f8fad5bd9cb469fa16570867728950e-chip");
    assert_eq!(sticky_base_label(""), "sticky-");
    assert_eq!(sticky_base_label("--"), "sticky-");
}

#[test]
fn sticky_windows_are_recognized_by_label() {
    assert!(is_sticky_window_label(&sticky_expanded_label("a-b")));
    assert!(is_sticky_window_label(&sticky_chip_label("a-b")));
    assert!(is_sticky_window_label("sticky-"));
    assert!(!is_sticky_window_label("main"));
    assert!(!is_sticky_window_label("sticky"));
    assert!(!is_sticky_window_label("Sticky-x"));
}

#[test]
fn labels_by_mode() {
    assert_eq!(sticky_label_for_mode("a-b", "chip"), Ok("sticky-ab-chip".to_string()));
    assert_eq!(sticky_label_for_mode("a-b", "expanded"), Ok("sticky-ab-expanded".to_string()));
    assert_eq!(sticky_label_for_mode("a-b", "compact"), Err(StoreError::InvalidStickyMode));
}

#[test]
fn generated_ids_give_distinct_labels() {
    let a = new_note_id().unwrap();
    let b = new_note_id().unwrap();
    assert_ne!(sticky_base_label(&a), sticky_base_label(&b));
    assert_ne!(sticky_expanded_label(&a), sticky_chip_label(&a));
}
