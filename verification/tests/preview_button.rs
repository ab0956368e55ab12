use mditor_ui::markdown_preview_button::{ActiveItem, PreviewClickAction, QuickActionBar};

#[test]
fn button_only_for_markdown() {
    let bar = QuickActionBar { workspace_alive: true };
    assert!(bar.render_preview_button(false, false, "Alt-click").is_none());
    let dead = QuickActionBar { workspace_alive: false };
    assert!(dead.render_preview_button(false, true, "Alt-click").is_none());
}

#[test]
fn tooltip_offers_the_other_mode() {
    let bar = QuickActionBar { workspace_alive: true };
    let source = bar.render_preview_button(false, true, "⌥-click").unwrap();
    assert!(!source.toggled);
    assert_eq!(source.tooltip_title, "预览 Markdown");
    assert_eq!(source.tooltip_meta, Some("⌥-click 可在分栏中打开".to_string()));
    let preview = bar.render_preview_button(true, true, "⌥-click").unwrap();
    assert!(preview.toggled);
    assert_eq!(preview.tooltip_title, "切换到源码模式");
    assert_eq!(preview.tooltip_meta, None);
}

#[test]
fn clicking_over_a_preview_returns_to_the_source() {
    let bar = QuickActionBar { workspace_alive: true };
    let actions = bar.preview_button_clicked(&ActiveItem::Preview { preview_id: 9, linked_editor: Some(4) }, true);
    assert!(matches!(
        actions.as_slice(),
        [
            PreviewClickAction::SetSourceMode { editor_id: 4, source_mode: true },
            PreviewClickAction::AddEditorToPane(4),
            PreviewClickAction::RemoveItem(9),
        ]
    ));
    assert!(bar.preview_button_clicked(&ActiveItem::Preview { preview_id: 9, linked_editor: None }, false).is_empty());
}

#[test]
fn clicking_over_an_editor_opens_its_preview() {
    let bar = QuickActionBar { workspace_alive: true };
    let editor = ActiveItem::Editor { editor_id: 4, item_id: 5 };
    assert!(matches!(bar.preview_button_clicked(&editor, true).as_slice(), [PreviewClickAction::OpenPreviewToTheSide]));
    assert!(matches!(
        bar.preview_button_clicked(&editor, false).as_slice(),
        [
            PreviewClickAction::SetSourceMode { editor_id: 4, source_mode: false },
            PreviewClickAction::OpenPreviewForEditor(4),
            PreviewClickAction::RemoveItem(5),
        ]
    ));
    assert!(bar.preview_button_clicked(&ActiveItem::Other, false).is_empty());
    assert!(QuickActionBar { workspace_alive: false }.preview_button_clicked(&editor, false).is_empty());
}
