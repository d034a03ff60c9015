use backbone_events::booth::{booth_patch_fence, line_ids_gate};
use backbone_events::desk::{desk_barcode_gate, desk_lookup_key};
use backbone_events::error::EventError;
use backbone_events::events::{required_id, required_text};

fn keys(k: &[&str]) -> Vec<String> {
    k.iter().map(|s| s.to_string()).collect()
}

#[test]
fn booth_patch_fence_lists_refused_fields_in_fence_order() {
    assert!(booth_patch_fence(&keys(&["name", "contact_email"])).is_ok());
    match booth_patch_fence(&keys(&["id", "name", "is_paid", "state"])).unwrap_err() {
        EventError::Validation(m) => assert_eq!(m, "booth patch refuses non-writable fields: state, is_paid, id"),
        other => panic!("unexpected refusal {other:?}"),
    }
    match booth_patch_fence(&keys(&["sale_order_line_id"])).unwrap_err() {
        EventError::Validation(m) => assert_eq!(m, "booth patch refuses non-writable fields: sale_order_line_id"),
        other => panic!("unexpected refusal {other:?}"),
    }
}

#[test]
fn line_ids_gate_needs_a_non_empty_list() {
    assert_eq!(line_ids_gate(Some(vec![3, 1, 2])).unwrap(), vec![3, 1, 2]);
    for bad in [None, Some(Vec::new())] {
        match line_ids_gate(bad).unwrap_err() {
            EventError::Validation(m) => assert_eq!(m, "line_ids must be a non-empty array of uuids"),
            other => panic!("unexpected refusal {other:?}"),
        }
    }
}

#[test]
fn required_fields_name_the_missing_key() {
    assert_eq!(required_text(Some("Ada".to_string()), "name").unwrap(), "Ada");
    match required_text(Some(String::new()), "email").unwrap_err() {
        EventError::Validation(m) => assert_eq!(m, "email is required"),
        other => panic!("unexpected refusal {other:?}"),
    }
    match required_text(None, "name").unwrap_err() {
        EventError::Validation(m) => assert_eq!(m, "name is required"),
        other => panic!("unexpected refusal {other:?}"),
    }
    assert_eq!(required_id(Some(42), "event_id").unwrap(), 42);
    match required_id(None, "partner_id").unwrap_err() {
        EventError::Validation(m) => assert_eq!(m, "partner_id is required"),
        other => panic!("unexpected refusal {other:?}"),
    }
}

#[test]
fn desk_barcode_must_not_be_blank() {
    assert!(desk_barcode_gate("  12345 ").is_ok());
    for blank in ["", "   ", "\t\n"] {
        match desk_barcode_gate(blank).unwrap_err() {
            EventError::Validation(m) => assert_eq!(m, "barcode is required"),
            other => panic!("unexpected refusal {other:?}"),
        }
    }
    assert_eq!(desk_lookup_key("  12345 \n"), "12345");
}
