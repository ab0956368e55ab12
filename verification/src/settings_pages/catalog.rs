//! The list of pages the settings window offers.

use vstd::prelude::*;
use crate::settings_page::{SettingsPage, items_well_formed, outline};
use crate::settings_pages::ai::{ai_page, ai_page_outline};
use crate::settings_pages::appearance::{appearance_page, appearance_page_outline};
use crate::settings_pages::editor::{editor_page, editor_page_outline};
use crate::settings_pages::general::{general_page, general_page_outline};
use crate::settings_pages::keymap::{keymap_page, keymap_page_outline};
use crate::settings_pages::network::{network_page, network_page_outline};
use crate::settings_pages::panels::{panels_page, panels_page_outline};
use crate::settings_pages::search_and_files::{search_and_files_page, search_and_files_page_outline};
use crate::settings_pages::window_and_layout::{window_and_layout_page, window_and_layout_page_outline};

verus! {

/// The pages of the settings window, in the order of its sidebar: general, appearance,
/// keymap, editor, search and files, window and layout, panels, AI and network (the
/// AI page shows the new-thread location only when the second agent version is enabled).
pub fn settings_data(agent_v2_enabled: bool) -> (pages: Vec<SettingsPage>)
    ensures
        pages@.len() == 9,
        forall|i: int| 0 <= i < 9 ==> items_well_formed(#[trigger] pages@[i].items@),
        pages@[0].title@ == "常规"@ && outline(pages@[0].items@) == general_page_outline(),
        pages@[1].title@ == "外观"@ && outline(pages@[1].items@) == appearance_page_outline(),
        pages@[2].title@ == "键位映射"@ && outline(pages@[2].items@) == keymap_page_outline(),
        pages@[3].title@ == "编辑器"@ && outline(pages@[3].items@) == editor_page_outline(),
        pages@[4].title@ == "搜索与文件"@ && outline(pages@[4].items@) == search_and_files_page_outline(),
        pages@[5].title@ == "窗口与布局"@ && outline(pages@[5].items@) == window_and_layout_page_outline(),
        pages@[6].title@ == "面板"@ && outline(pages@[6].items@) == panels_page_outline(),
        pages@[7].title@ == "AI"@ && outline(pages@[7].items@) == ai_page_outline(agent_v2_enabled),
        pages@[8].title@ == "网络"@ && outline(pages@[8].items@) == network_page_outline(),
{
    vec![
        general_page(),
        appearance_page(),
        keymap_page(),
        editor_page(),
        search_and_files_page(),
        window_and_layout_page(),
        panels_page(),
        ai_page(agent_v2_enabled),
        network_page(),
    ]
}

} // verus!
