//! The building blocks of the settings pages: headers, settings and the pages
//! that list them.

use vstd::prelude::*;
use crate::settings_content::FieldAccess;

verus! {

/// A setting can be stored in the user's settings file.
pub const USER: u8 = 1;

/// A setting can be stored in a project's settings file.
pub const PROJECT: u8 = 2;

/// Extra hints on how a setting's editor is shown.
pub struct SettingsFieldMetadata {
    /// The text shown in an empty text field.
    pub placeholder: Option<&'static str>,
    /// Whether the variant names of the setting are shown in title case.
    pub should_do_titlecase: Option<bool>,
}

/// A part of a setting that takes one of several shapes (see `structured_settings`),
/// as the fields of a dynamic settings entry edit it.
pub enum StructuredField {
    ThemeVariant,
    ThemeName,
    ThemeMode,
    ThemeLight,
    ThemeDark,
    IconThemeVariant,
    IconThemeName,
    IconThemeMode,
    IconThemeLight,
    IconThemeDark,
    /// The shape of the buffer line height (comfortable, standard or custom).
    BufferLineHeightVariant,
    /// A custom buffer line height, a floating-point value.
    BufferLineHeightCustom,
    AutosaveVariant,
    AutosaveDelay,
    ShellVariant,
    ShellProgram,
    ShellArgumentsProgram,
    ShellArguments,
    ShellTitleOverride,
    WorkingDirectoryVariant,
    WorkingDirectoryPath,
}

/// How a setting reaches its field: a text field of the settings content, or a part of
/// a setting that takes one of several shapes.
pub enum FieldRef {
    Text(FieldAccess),
    Structured(StructuredField),
}

/// The field a setting edits.
pub struct SettingField {
    /// The path of the setting in the settings file, as a link to it shows it.
    pub json_path: Option<&'static str>,
    /// How the setting reads and writes its field.
    pub access: FieldRef,
    /// Whether the settings page offers an editor for the field (when it does
    /// not, the setting is only listed).
    pub implemented: bool,
}

/// One setting of a settings page.
pub struct SettingItem {
    /// The settings files that can hold it (`USER`, `PROJECT` or both).
    pub files: u8,
    pub title: &'static str,
    pub description: &'static str,
    pub field: SettingField,
    pub metadata: Option<SettingsFieldMetadata>,
}

/// A setting that takes one of several shapes: the dropdown that picks the shape, and
/// the settings shown for each shape, in the order of the shapes.
pub struct DynamicItem {
    pub discriminant: SettingItem,
    pub variant_fields: Vec<Vec<SettingItem>>,
}

/// A page reached from a settings page.
pub enum SubPage {
    /// The rules that allow, deny or confirm the agent's tool calls.
    ToolPermissions,
}

/// A link to a page of its own.
pub struct SubPageLink {
    pub title: &'static str,
    pub json_path: Option<&'static str>,
    pub description: Option<&'static str>,
    /// Whether the settings file holds what the page edits.
    pub in_json: bool,
    pub files: u8,
    pub page: SubPage,
}

/// An entry of a settings page.
pub enum SettingsPageItem {
    /// The title of the section that the following settings belong to.
    SectionHeader(&'static str),
    SettingItem(SettingItem),
    DynamicItem(DynamicItem),
    SubPageLink(SubPageLink),
}

/// A page of the settings window.
pub struct SettingsPage {
    pub title: &'static str,
    pub items: Vec<SettingsPageItem>,
}

/// The settings of each shape of a dynamic setting.
pub open spec fn variant_outlines(variant_fields: Seq<Vec<SettingItem>>) -> Seq<Seq<SettingItem>> {
    variant_fields.map_values(|fields: Vec<SettingItem>| fields@)
}

/// An entry of a settings page as a value: a header by its text, a setting, a dynamic
/// setting by its dropdown and the settings of each shape, and a link.
pub enum OutlineEntry {
    Header(&'static str),
    Setting(SettingItem),
    Dynamic(SettingItem, Seq<Seq<SettingItem>>),
    SubPage(SubPageLink),
}

/// `item` as a value.
pub open spec fn outline_entry(item: SettingsPageItem) -> OutlineEntry {
    match item {
        SettingsPageItem::SectionHeader(text) => OutlineEntry::Header(text),
        SettingsPageItem::SettingItem(setting) => OutlineEntry::Setting(setting),
        SettingsPageItem::DynamicItem(dynamic) => OutlineEntry::Dynamic(
            dynamic.discriminant,
            variant_outlines(dynamic.variant_fields@),
        ),
        SettingsPageItem::SubPageLink(link) => OutlineEntry::SubPage(link),
    }
}

/// A setting with these parts.
pub open spec fn setting_of(
    files: u8,
    title: &'static str,
    description: &'static str,
    json_path: Option<&'static str>,
    access: FieldRef,
    implemented: bool,
    metadata: Option<SettingsFieldMetadata>,
) -> SettingItem {
    SettingItem { files, title, description, field: SettingField { json_path, access, implemented }, metadata }
}

/// Hints that only give the placeholder of a text field.
pub open spec fn placeholder_of(text: &'static str) -> Option<SettingsFieldMetadata> {
    Some(SettingsFieldMetadata { placeholder: Some(text), should_do_titlecase: None })
}

/// The entries of `items` as values, in order.
pub open spec fn outline(items: Seq<SettingsPageItem>) -> Seq<OutlineEntry> {
    items.map_values(|item: SettingsPageItem| outline_entry(item))
}

/// Every setting of `items` names its path in the settings file.
pub open spec fn settings_have_paths(items: Seq<SettingsPageItem>) -> bool {
    forall|i: int|
        0 <= i < items.len() ==> match #[trigger] items[i] {
            SettingsPageItem::SettingItem(setting) => setting.field.json_path is Some,
            SettingsPageItem::DynamicItem(dynamic) => dynamic.discriminant.field.json_path is Some,
            SettingsPageItem::SubPageLink(link) => link.json_path is Some,
            SettingsPageItem::SectionHeader(_) => true,
        }
}

/// A list of settings entries that opens with a section header and in which every
/// setting names its path in the settings file.
pub open spec fn items_well_formed(items: Seq<SettingsPageItem>) -> bool {
    &&& items.len() > 0
    &&& items[0] is SectionHeader
    &&& settings_have_paths(items)
}

/// Sections that each open with a header and name the paths of their settings, put
/// end to end, still do.
pub proof fn lemma_well_formed_concat(a: Seq<SettingsPageItem>, b: Seq<SettingsPageItem>)
    requires
        items_well_formed(a),
        settings_have_paths(b),
    ensures
        items_well_formed(a + b),
        outline(a + b) == outline(a) + outline(b),
{
    assert forall|i: int| 0 <= i < (a + b).len() implies match #[trigger] (a + b)[i] {
        SettingsPageItem::SettingItem(setting) => setting.field.json_path is Some,
        SettingsPageItem::DynamicItem(dynamic) => dynamic.discriminant.field.json_path is Some,
        SettingsPageItem::SubPageLink(link) => link.json_path is Some,
        SettingsPageItem::SectionHeader(_) => true,
    } by {
        if i < a.len() {
            assert((a + b)[i] == a[i]);
        } else {
            assert((a + b)[i] == b[i - a.len()]);
        }
    }
    lemma_outline_concat(a, b);
}

/// The outline of two lists put end to end is the outline of the first followed by
/// that of the second.
pub proof fn lemma_outline_concat(a: Seq<SettingsPageItem>, b: Seq<SettingsPageItem>)
    ensures
        outline(a + b) == outline(a) + outline(b),
{
    assert(outline(a + b) =~= outline(a) + outline(b));
}

/// A setting of a settings page.
pub fn setting_item(
    files: u8,
    title: &'static str,
    description: &'static str,
    json_path: Option<&'static str>,
    access: FieldRef,
    implemented: bool,
    metadata: Option<SettingsFieldMetadata>,
) -> (item: SettingItem)
    ensures
        item == setting_of(files, title, description, json_path, access, implemented, metadata),
{
    SettingItem { files, title, description, field: SettingField { json_path, access, implemented }, metadata }
}

/// Hints that only give the placeholder of a text field.
pub fn placeholder(text: &'static str) -> (metadata: Option<SettingsFieldMetadata>)
    ensures
        metadata == placeholder_of(text),
{
    Some(SettingsFieldMetadata { placeholder: Some(text), should_do_titlecase: None })
}

/// The views of a list of lists.
pub open spec fn views_of<T>(sections: Seq<Vec<T>>) -> Seq<Seq<T>> {
    sections.map_values(|section: Vec<T>| section@)
}

/// Puts the sections of a page end to end, keeping their order and the order of the
/// entries within each.
pub fn concat_sections<T>(sections: Vec<Vec<T>>) -> (out: Vec<T>)
    ensures
        out@ == views_of(sections@).flatten(),
{
    let ghost all = views_of(sections@);
    let mut sections = sections;
    let mut out: Vec<T> = Vec::new();
    let mut i: usize = 0;
    while i < sections.len()
        invariant
            sections@.len() == all.len(),
            i <= all.len(),
            forall|j: int| i <= j < all.len() ==> #[trigger] sections@[j]@ == all[j],
            out@ == all.take(i as int).flatten(),
        decreases all.len() - i,
    {
        let ghost before = out@;
        out.append(&mut sections[i]);
        proof {
            assert(all.take(i + 1) =~= all.take(i as int).push(all[i as int]));
            all.take(i as int).lemma_flatten_push(all[i as int]);
            assert forall|j: int| i + 1 <= j < all.len() implies #[trigger] sections@[j]@ == all[j] by {}
        }
        i = i + 1;
    }
    proof {
        assert(all.take(all.len() as int) =~= all);
    }
    out
}

} // verus!
