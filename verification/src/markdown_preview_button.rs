//! The button of the quick action bar that switches a Markdown file between its source
//! and its preview.

use vstd::prelude::*;
use vstd::string::*;

verus! {

/// What the preview button shows.
pub struct PreviewButtonView {
    /// Whether the button is toggled on (the preview is the active item).
    pub toggled: bool,
    pub tooltip_title: &'static str,
    /// The hint below the tooltip's title, when there is one.
    pub tooltip_meta: Option<String>,
}

/// The preview button, shown only when the active item is a Markdown editor or its
/// preview: toggled on over a preview, whose tooltip offers the source mode; otherwise
/// its tooltip offers the preview and tells that `alt_click_text` opens it in a split.
fn preview_button(is_preview_active: bool, has_markdown_editor: bool, alt_click_text: &str) -> (view: Option<PreviewButtonView>)
    ensures
        !has_markdown_editor ==> view is None,
        has_markdown_editor ==> (view matches Some(v) && {
            &&& v.toggled == is_preview_active
            &&& is_preview_active ==> v.tooltip_title == "切换到源码模式" && v.tooltip_meta is None
            &&& !is_preview_active ==> v.tooltip_title == "预览 Markdown" && (v.tooltip_meta matches Some(m)
                && m@ == alt_click_text@ + " 可在分栏中打开"@)
        }),
{
    if !has_markdown_editor {
        return None;
    }
    if is_preview_active {
        Some(PreviewButtonView { toggled: true, tooltip_title: "切换到源码模式", tooltip_meta: None })
    } else {
        let meta = String::from_str(alt_click_text).concat(" 可在分栏中打开");
        Some(PreviewButtonView { toggled: false, tooltip_title: "预览 Markdown", tooltip_meta: Some(meta) })
    }
}

/// The bar of quick actions above the active editor.
pub struct QuickActionBar {
    /// Whether the workspace it belongs to is still alive.
    pub workspace_alive: bool,
}

impl QuickActionBar {
    /// The preview button, shown only while the workspace is alive and its active item is
    /// a Markdown editor or its preview: toggled on over a preview, whose tooltip offers the source mode; otherwise
    /// its tooltip offers the preview and tells that `alt_click_text` opens it in a split.
    pub fn render_preview_button(&self, is_preview_active: bool, has_markdown_editor: bool, alt_click_text: &str) -> (view: Option<PreviewButtonView>)
        ensures
            !(self.workspace_alive && has_markdown_editor) ==> view is None,
            self.workspace_alive && has_markdown_editor ==> (view matches Some(v) && {
                &&& v.toggled == is_preview_active
                &&& is_preview_active ==> v.tooltip_title == "切换到源码模式" && v.tooltip_meta is None
                &&& !is_preview_active ==> v.tooltip_title == "预览 Markdown" && (v.tooltip_meta matches Some(m)
                    && m@ == alt_click_text@ + " 可在分栏中打开"@)
            }),
    {
        preview_button(is_preview_active, self.workspace_alive && has_markdown_editor, alt_click_text)
    }

    /// What a click on the preview button does: over a preview, it returns to the source
    /// (putting the linked editor back in its place); with Alt held, it opens the preview in
    /// a split; over an editor, it replaces the editor by its preview. Nothing happens
    /// once the workspace is gone, or without an item of these kinds.
    pub fn preview_button_clicked(&self, active: &ActiveItem, alt_held: bool) -> (actions: Vec<PreviewClickAction>)
        ensures
            actions@ == click_actions(self.workspace_alive, *active, alt_held),
    {
        preview_click_actions(self.workspace_alive, active, alt_held)
    }
}

/// The active item of the workspace, as the preview button needs to know it.
pub enum ActiveItem {
    /// A Markdown preview, with the editor it shows (when it still has one).
    Preview { preview_id: u64, linked_editor: Option<u64> },
    /// An editor, with its entity and its item in the pane.
    Editor { editor_id: u64, item_id: u64 },
    Other,
    Nothing,
}

/// What a click on the preview button does.
pub enum PreviewClickAction {
    /// Marks the editor as shown in source mode, or not.
    SetSourceMode { editor_id: u64, source_mode: bool },
    /// Adds the editor to the active pane and focuses it.
    AddEditorToPane(u64),
    /// Removes the item from the active pane.
    RemoveItem(u64),
    /// Opens the preview in a split, as the "open preview to the side" command does.
    OpenPreviewToTheSide,
    /// Opens the preview of the editor.
    OpenPreviewForEditor(u64),
}

/// What the preview button does when clicked: over a preview, it returns to the source
/// (putting the linked editor back in its place); with Alt held, it opens the preview in
/// a split; over an editor, it replaces the editor by its preview. Nothing happens
/// without a workspace, or without an item of these kinds.
pub open spec fn click_actions(workspace_alive: bool, active: ActiveItem, alt_held: bool) -> Seq<PreviewClickAction> {
    if !workspace_alive {
        Seq::empty()
    } else {
        match active {
            ActiveItem::Preview { preview_id, linked_editor } => match linked_editor {
                Some(editor_id) => seq![
                    PreviewClickAction::SetSourceMode { editor_id, source_mode: true },
                    PreviewClickAction::AddEditorToPane(editor_id),
                    PreviewClickAction::RemoveItem(preview_id),
                ],
                None => Seq::empty(),
            },
            _ => if alt_held {
                seq![PreviewClickAction::OpenPreviewToTheSide]
            } else {
                match active {
                    ActiveItem::Editor { editor_id, item_id } => seq![
                        PreviewClickAction::SetSourceMode { editor_id, source_mode: false },
                        PreviewClickAction::OpenPreviewForEditor(editor_id),
                        PreviewClickAction::RemoveItem(item_id),
                    ],
                    _ => Seq::empty(),
                }
            },
        }
    }
}

fn preview_click_actions(workspace_alive: bool, active: &ActiveItem, alt_held: bool) -> (actions: Vec<PreviewClickAction>)
    ensures
        actions@ == click_actions(workspace_alive, *active, alt_held),
{
    if !workspace_alive {
        return Vec::new();
    }
    match active {
        ActiveItem::Preview { preview_id, linked_editor } => match linked_editor {
            Some(editor_id) => vec![
                PreviewClickAction::SetSourceMode { editor_id: *editor_id, source_mode: true },
                PreviewClickAction::AddEditorToPane(*editor_id),
                PreviewClickAction::RemoveItem(*preview_id),
            ],
            None => Vec::new(),
        },
        _ => {
            if alt_held {
                return vec![PreviewClickAction::OpenPreviewToTheSide];
            }
            match active {
                ActiveItem::Editor { editor_id, item_id } => vec![
                    PreviewClickAction::SetSourceMode { editor_id: *editor_id, source_mode: false },
                    PreviewClickAction::OpenPreviewForEditor(*editor_id),
                    PreviewClickAction::RemoveItem(*item_id),
                ],
                _ => Vec::new(),
            }
        },
    }
}

/// While the workspace lives, a click over a Markdown preview that still has its editor
/// goes back to the source, whether Alt is held or not: the editor is marked as shown in
/// source mode, put back in the pane, and the preview removed. Over an editor, Alt opens
/// the preview beside it and a plain click replaces the editor by its preview. Once
/// the workspace is gone, a click does nothing.
pub proof fn law_preview_click(preview_id: u64, editor_id: u64, item_id: u64, alt_held: bool, active: ActiveItem)
    ensures
        click_actions(true, ActiveItem::Preview { preview_id, linked_editor: Some(editor_id) }, alt_held) == seq![
            PreviewClickAction::SetSourceMode { editor_id, source_mode: true },
            PreviewClickAction::AddEditorToPane(editor_id),
            PreviewClickAction::RemoveItem(preview_id),
        ],
        click_actions(true, ActiveItem::Preview { preview_id, linked_editor: None }, alt_held).len() == 0,
        click_actions(true, ActiveItem::Editor { editor_id, item_id }, true) == seq![PreviewClickAction::OpenPreviewToTheSide],
        click_actions(true, ActiveItem::Editor { editor_id, item_id }, false) == seq![
            PreviewClickAction::SetSourceMode { editor_id, source_mode: false },
            PreviewClickAction::OpenPreviewForEditor(editor_id),
            PreviewClickAction::RemoveItem(item_id),
        ],
        click_actions(false, active, alt_held).len() == 0,
{
}

} // verus!
