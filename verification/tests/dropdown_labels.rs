use mditor_ui::dropdown::{localized_variant_label, variant_display_label, EnumVariantDropdown};

#[test]
fn known_labels_are_localized() {
    assert_eq!(localized_variant_label("On"), "开启");
    assert_eq!(localized_variant_label("After_Delay"), "延迟后");
    assert_eq!(localized_variant_label("On-Focus Change"), "失去焦点时");
    assert_eq!(localized_variant_label("true"), "是");
}

#[test]
fn unknown_labels_are_kept() {
    assert_eq!(localized_variant_label("Rust"), "Rust");
    assert_eq!(localized_variant_label("after_delay"), "after_delay");
    assert_eq!(localized_variant_label(""), "");
}

#[test]
fn localizing_twice_changes_nothing() {
    let once = localized_variant_label("PrimaryScreen");
    assert_eq!(localized_variant_label(once), once);
}

#[test]
fn untranslated_labels_get_title_case() {
    assert_eq!(variant_display_label("some_value", true), "Some Value");
    assert_eq!(variant_display_label("some_value", false), "some_value");
    assert_eq!(variant_display_label("Left", true), "左侧");
}

#[test]
fn dropdown_marks_current_value() {
    let dropdown = EnumVariantDropdown::new("id".to_string(), 2, vec![0, 1, 2], vec!["Left", "Right", "Center"])
        .tab_index(3);
    let view = dropdown.render();
    assert_eq!(view.current_index, 2);
    assert_eq!(view.trigger_label, "居中");
    assert_eq!(view.tab_index, Some(3));
    assert_eq!(view.entries.len(), 3);
    assert!(view.entries[2].checked);
    assert!(!view.entries[0].checked);
    assert_eq!(view.entries[1].label, "右侧");
}
