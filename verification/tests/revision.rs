use philharmonic_store::{AttrMap, EntityRefValue, RevisionInput, RevisionRef};

use philharmonic_types::ScalarValue;

#[test]
fn revision_input_new_is_empty() {
    let input = RevisionInput::new();
    assert_eq!(input.content_attrs.len(), 0);
    assert_eq!(input.entity_attrs.len(), 0);
    assert_eq!(input.scalar_attrs.len(), 0);
    let input = RevisionInput::default();
    assert_eq!(input.content_attrs.len(), 0);
}

#[test]
fn builders_set_each_attribute_kind() {
    let target = EntityRefValue::pinned(7, 3);
    let input = RevisionInput::new()
        .with_content("body".to_string(), [1u8; 32])
        .with_entity("config".to_string(), target)
        .with_scalar("is_deleted".to_string(), ScalarValue::Bool(false));

    assert_eq!(input.content_attrs.entries().to_vec(), vec![("body".to_string(), [1u8; 32])]);
    assert_eq!(input.entity_attrs.entries().to_vec(), vec![("config".to_string(), target)]);
    assert_eq!(
        input.scalar_attrs.into_entries(),
        vec![("is_deleted".to_string(), ScalarValue::Bool(false))]
    );
}

#[test]
fn setting_a_name_twice_keeps_the_last_value() {
    let input = RevisionInput::new()
        .with_scalar("count".to_string(), ScalarValue::I64(1))
        .with_scalar("flag".to_string(), ScalarValue::Bool(true))
        .with_scalar("count".to_string(), ScalarValue::I64(2));

    assert_eq!(
        input.scalar_attrs.into_entries(),
        vec![
            ("count".to_string(), ScalarValue::I64(2)),
            ("flag".to_string(), ScalarValue::Bool(true)),
        ]
    );
}

#[test]
fn attr_map_insert_adds_new_names_in_order() {
    let mut m: AttrMap<u8> = AttrMap::new();
    m.insert("a".to_string(), 1);
    m.insert("b".to_string(), 2);
    m.insert("a".to_string(), 3);
    m.insert("c".to_string(), 4);
    assert_eq!(m.len(), 3);
    assert_eq!(
        m.into_entries(),
        vec![("a".to_string(), 3), ("b".to_string(), 2), ("c".to_string(), 4)]
    );
}

#[test]
fn entity_ref_latest_is_not_pinned() {
    let r = EntityRefValue::latest(11);
    assert_eq!(r.target_entity_id, 11);
    assert_eq!(r.target_revision_seq, None);
    assert!(!r.is_pinned());
}

#[test]
fn entity_ref_pinned_is_pinned() {
    let r = EntityRefValue::pinned(11, 4);
    assert_eq!(r.target_entity_id, 11);
    assert_eq!(r.target_revision_seq, Some(4));
    assert!(r.is_pinned());
}

#[test]
fn revision_ref_new_keeps_fields() {
    let r = RevisionRef::new(9, 2);
    assert_eq!(r.entity_id, 9);
    assert_eq!(r.revision_seq, 2);
    assert_eq!(r, RevisionRef { entity_id: 9, revision_seq: 2 });
}

#[test]
fn attr_map_clone_keeps_names_order_and_values() {
    let mut m: AttrMap<u8> = AttrMap::new();
    m.insert("x".to_string(), 1);
    m.insert("y".to_string(), 2);
    let c = m.clone();
    assert_eq!(c.len(), 2);
    assert_eq!(c.into_entries(), m.into_entries());
}

#[test]
fn revision_input_clone_is_independent() {
    let a = RevisionInput::new().with_scalar("n".to_string(), ScalarValue::I64(1));
    let b = a.clone().with_scalar("n".to_string(), ScalarValue::I64(2));
    assert_eq!(a.scalar_attrs.into_entries(), vec![("n".to_string(), ScalarValue::I64(1))]);
    assert_eq!(b.scalar_attrs.into_entries(), vec![("n".to_string(), ScalarValue::I64(2))]);
}

#[test]
fn attr_map_get_finds_set_names_only() {
    let mut m: AttrMap<u8> = AttrMap::new();
    m.insert("a".to_string(), 1);
    m.insert("b".to_string(), 2);
    m.insert("a".to_string(), 3);
    assert_eq!(m.get("a"), Some(&3));
    assert_eq!(m.get("b"), Some(&2));
    assert_eq!(m.get("c"), None);
    assert_eq!(m.get(""), None);
}
