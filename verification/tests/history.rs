use messages::{Message, Messages};

fn seeded(ids: &[u64]) -> Messages<String> {
    let mut h = Messages::new(Message::new(format!("payload-{}", ids[0]), Some(ids[0])));
    for &id in &ids[1..] {
        h.push_silent(Message::new(format!("payload-{}", id), Some(id)));
    }
    h
}

#[test]
fn new_starts_with_seed_selected() {
    let h = Messages::new(Message::new(String::from("seed"), Some(1)));
    assert_eq!(h.len(), 1);
    assert_eq!(h.cursor_index(), 0);
    assert_eq!(h.selected(), "seed");
    assert!(!h.forward);
    assert!(!h.backward);
}

#[test]
fn push_selects_the_new_entry() {
    let mut h = seeded(&[1, 2, 3]);
    assert_eq!(h.cursor_index(), 0);

    h.push(Message::new(String::from("new"), Some(4)));

    assert_eq!(h.len(), 4);
    assert_eq!(h.cursor_index(), 3);
    assert!(!h.forward);
    assert!(h.backward);
    assert_eq!(h.selected(), "new");
}

#[test]
fn push_silent_leaves_the_cursor() {
    let mut h = seeded(&[1, 2, 3]);
    assert_eq!(h.cursor_index(), 0);

    let i = h.push_silent(Message::new(String::from("new"), Some(4)));

    assert_eq!(i, 3);
    assert_eq!(h.len(), 4);
    assert_eq!(h.cursor_index(), 0);
    assert!(h.forward);
    assert!(!h.backward);
    assert_eq!(h.selected(), "payload-1");
}

#[test]
fn skip_to_moves_cursor_and_returns_payload() {
    let mut h = seeded(&[1, 2, 3]);

    let p = h.skip_to(1).cloned();

    assert_eq!(p.as_deref(), Some("payload-2"));
    assert_eq!(h.cursor_index(), 1);
    assert!(h.forward);
    assert!(h.backward);
}

#[test]
fn skip_to_out_of_range_changes_nothing() {
    let mut h = seeded(&[1, 2, 3]);

    assert!(h.skip_to(10).is_none());

    assert_eq!(h.cursor_index(), 0);
    assert_eq!(h.len(), 3);
    assert!(h.forward);
    assert!(!h.backward);
}

#[test]
fn forward_and_backward_walk_the_history() {
    let mut h = seeded(&[1, 2, 3]);
    h.skip_to(2);
    assert!(!h.forward);

    assert_eq!(h.backward(), "payload-2");
    assert_eq!(h.cursor_index(), 1);
    assert!(h.forward);
    assert!(h.backward);

    assert_eq!(h.backward(), "payload-1");
    assert_eq!(h.cursor_index(), 0);
    assert!(!h.backward);

    assert_eq!(h.forward(), "payload-2");
    assert_eq!(h.cursor_index(), 1);
}

#[test]
fn select_reads_twice_without_moving() {
    let h = seeded(&[1, 2, 3]);

    let first = h.select(2).cloned();
    let second = h.select(2).cloned();

    assert_eq!(first.as_deref(), Some("payload-3"));
    assert_eq!(first, second);
    assert_eq!(h.cursor_index(), 0);
    assert!(h.select(3).is_none());
}

#[test]
fn mut_selected_changes_only_the_selected_payload() {
    let mut h = seeded(&[1, 2, 3]);

    *h.mut_selected() = String::from("edited");

    assert_eq!(h.selected(), "edited");
    assert_eq!(h.select(1).map(String::as_str), Some("payload-2"));
    assert_eq!(h.cursor_index(), 0);
}

#[test]
fn mut_select_changes_payload_at_index() {
    let mut h = seeded(&[1, 2, 3]);

    if let Some(p) = h.mut_select(2) {
        *p = String::from("edited");
    }

    assert_eq!(h.select(2).map(String::as_str), Some("edited"));
    assert_eq!(h.selected(), "payload-1");
    assert!(h.mut_select(10).is_none());
}

#[test]
fn find_returns_payload_for_identifier() {
    let mut h = seeded(&[7, 8, 9]);
    h.push(Message::new(String::from("later"), Some(1)));
    assert_eq!(h.cursor_index(), 3);

    assert_eq!(h.find(8).map(String::as_str), Some("payload-8"));
    assert_eq!(h.find(7).map(String::as_str), Some("payload-7"));
    assert!(h.find(42).is_none());
}

#[test]
fn mut_find_changes_payload_for_identifier() {
    let mut h = seeded(&[7, 8, 9]);

    if let Some(p) = h.mut_find(8) {
        *p = String::from("edited");
    }

    assert_eq!(h.find(8).map(String::as_str), Some("edited"));
    assert_eq!(h.find(9).map(String::as_str), Some("payload-9"));
    assert!(h.mut_find(42).is_none());
    assert_eq!(h.cursor_index(), 0);
}

#[test]
fn into_find_hands_out_payload_for_identifier() {
    let h = seeded(&[7, 8, 9]);
    assert_eq!(h.into_find(9).as_deref(), Some("payload-9"));

    let h = seeded(&[7, 8, 9]);
    assert!(h.into_find(42).is_none());
}

#[test]
fn into_selected_transfers_the_payload() {
    let mut h = seeded(&[1, 2, 3]);
    h.skip_to(1);

    let p: String = h.into_selected();

    assert_eq!(p, "payload-2");
}

#[test]
fn into_select_transfers_payload_at_index() {
    let h = seeded(&[1, 2, 3]);
    assert_eq!(h.into_select(2).as_deref(), Some("payload-3"));

    let h = seeded(&[1, 2, 3]);
    assert!(h.into_select(3).is_none());
}

#[test]
fn entries_expose_identifiers_in_insertion_order() {
    let h = seeded(&[7, 8, 9]);
    let ids: Vec<u64> = h.entries().iter().map(|m| m.id).collect();
    assert_eq!(ids, vec![7, 8, 9]);
}

#[test]
fn rebuild_from_parts_restores_the_history() {
    let mut h = seeded(&[7, 8, 9]);
    h.skip_to(1);

    let entries = h.entries().clone();
    let cursor = h.cursor_index();
    let r = Messages::from_parts(entries, cursor).expect("parts of a history are valid");

    assert_eq!(r.len(), h.len());
    assert_eq!(r.cursor_index(), h.cursor_index());
    assert_eq!(r.forward, h.forward);
    assert_eq!(r.backward, h.backward);
    assert_eq!(r.selected(), h.selected());
    assert_eq!(r.find(9).map(String::as_str), Some("payload-9"));
}

#[test]
fn rebuild_rejects_invalid_parts() {
    assert!(Messages::<String>::from_parts(vec![], 0).is_none());

    let h = seeded(&[1, 2]);
    let entries = h.entries().clone();
    assert!(Messages::from_parts(entries, 2).is_none());
}

#[test]
fn message_keeps_explicit_identifier() {
    let m = Message::new(5u32, Some(7));
    assert_eq!(m.id, 7);
    assert_eq!(m.message, 5);
}

#[test]
fn message_equality_ignores_metadata() {
    let a = Message::new(5u32, Some(1));
    let b = Message::new(5u32, Some(2));
    let c = Message::new(6u32, Some(1));
    assert_eq!(a, b);
    assert_ne!(a, c);
}
