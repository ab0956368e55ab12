//! Laws about the settings that whole pages list.

use vstd::prelude::*;
use crate::settings_content::{FieldAccess, law_writes_commute, picked, reads_key, records_written, storage_key, written};
use crate::settings_page::{FieldRef, OutlineEntry};
use crate::settings_pages::search_and_files::search_and_files_page_outline;

verus! {

/// The field access of the entry `entry`, when it is a setting of a text field.
pub open spec fn text_access_of(entry: OutlineEntry) -> Option<FieldAccess> {
    match entry {
        OutlineEntry::Setting(item) => match item.field.access {
            FieldRef::Text(access) => Some(access),
            _ => None,
        },
        _ => None,
    }
}

/// The path of the field that the entry `entry` writes, when it is a setting of a text field.
pub open spec fn key_of(entry: OutlineEntry, active_language: Option<Seq<char>>) -> Option<Seq<char>> {
    match text_access_of(entry) {
        Some(access) => Some(storage_key(access, active_language)),
        None => None,
    }
}

/// Two different settings of the "Search & Files" page keep to their own fields: neither
/// reads the field the other writes (so, by `law_writes_commute`, writes to them commute
/// and each keeps its value; the whole-word and regex switches share their record but
/// never each other's field).
pub proof fn law_search_and_files_settings_independent(i: int, j: int, active_language: Option<Seq<char>>)
    requires
        0 <= i < search_and_files_page_outline().len(),
        0 <= j < search_and_files_page_outline().len(),
        i != j,
        text_access_of(search_and_files_page_outline()[i]) is Some,
        text_access_of(search_and_files_page_outline()[j]) is Some,
    ensures
        !reads_key(
            text_access_of(search_and_files_page_outline()[i])->0,
            active_language,
            storage_key(text_access_of(search_and_files_page_outline()[j])->0, active_language),
        ),
{
    let page = search_and_files_page_outline();
    assert(page.len() == 19);
    let keys: Seq<Option<Seq<char>>> = seq![None, Some("editor.search.whole_word"@), Some("editor.search.case_sensitive"@), Some("editor.use_smartcase_search"@), Some("editor.search.include_ignored"@), Some("editor.search.regex"@), Some("editor.search_wrap"@), Some("editor.search.center_on_match"@), Some("editor.seed_search_query_from_cursor"@), None, Some("file_finder.include_ignored"@), Some("file_finder.file_icons"@), Some("file_finder.modal_max_width"@), Some("file_finder.skip_focus_for_active_in_search"@), None, Some("project.worktree.file_scan_exclusions"@), Some("project.worktree.file_scan_inclusions"@), Some("workspace.restore_on_file_reopen"@), Some("workspace.close_on_file_delete"@)];
    assert forall|n: int| 0 <= n < page.len() implies key_of(page[n], active_language) == #[trigger] keys[n] by {
        if n == 0 {} else if n == 1 {} else if n == 2 {} else if n == 3 {} else if n == 4 {} else if n == 5 {} else if n == 6 {} else if n == 7 {} else if n == 8 {} else if n == 9 {} else if n == 10 {} else if n == 11 {} else if n == 12 {} else if n == 13 {} else if n == 14 {} else if n == 15 {} else if n == 16 {} else if n == 17 {}
    }
    reveal_strlit("editor.search.whole_word");
    reveal_strlit("editor.search.case_sensitive");
    reveal_strlit("editor.use_smartcase_search");
    reveal_strlit("editor.search.include_ignored");
    reveal_strlit("editor.search.regex");
    reveal_strlit("editor.search_wrap");
    reveal_strlit("editor.search.center_on_match");
    reveal_strlit("editor.seed_search_query_from_cursor");
    reveal_strlit("file_finder.include_ignored");
    reveal_strlit("file_finder.file_icons");
    reveal_strlit("file_finder.modal_max_width");
    reveal_strlit("file_finder.skip_focus_for_active_in_search");
    reveal_strlit("project.worktree.file_scan_exclusions");
    reveal_strlit("project.worktree.file_scan_inclusions");
    reveal_strlit("workspace.restore_on_file_reopen");
    reveal_strlit("workspace.close_on_file_delete");
    assert forall|a: int, b: int| 0 <= a < keys.len() && 0 <= b < keys.len() && a != b && keys[a] is Some implies #[trigger] keys[a] != #[trigger] keys[b] by {
        if a == 1 {
            if b == 0 {} else if b == 2 { assert(keys[a]->0.len() != keys[b]->0.len()); } else if b == 3 { assert(keys[a]->0.len() != keys[b]->0.len()); } else if b == 4 { assert(keys[a]->0.len() != keys[b]->0.len()); } else if b == 5 { assert(keys[a]->0.len() != keys[b]->0.len()); } else if b == 6 { assert(keys[a]->0.len() != keys[b]->0.len()); } else if b == 7 { assert(keys[a]->0.len() != keys[b]->0.len()); } else if b == 8 { assert(keys[a]->0.len() != keys[b]->0.len()); } else if b == 9 {} else if b == 10 { assert(keys[a]->0.len() != keys[b]->0.len()); } else if b == 11 { assert(keys[a]->0.len() != keys[b]->0.len()); } else if b == 12 { assert(keys[a]->0.len() != keys[b]->0.len()); } else if b == 13 { assert(keys[a]->0.len() != keys[b]->0.len()); } else if b == 14 {} else if b == 15 { assert(keys[a]->0.len() != keys[b]->0.len()); } else if b == 16 { assert(keys[a]->0.len() != keys[b]->0.len()); } else if b == 17 { assert(keys[a]->0.len() != keys[b]->0.len()); } else if b == 18 { assert(keys[a]->0.len() != keys[b]->0.len()); }
        } else if a == 2 {
            if b == 0 {} else if b == 1 { assert(keys[a]->0.len() != keys[b]->0.len()); } else if b == 3 { assert(keys[a]->0.len() != keys[b]->0.len()); } else if b == 4 { assert(keys[a]->0.len() != keys[b]->0.len()); } else if b == 5 { assert(keys[a]->0.len() != keys[b]->0.len()); } else if b == 6 { assert(keys[a]->0.len() != keys[b]->0.len()); } else if b == 7 { assert(keys[a]->0.len() != keys[b]->0.len()); } else if b == 8 { assert(keys[a]->0.len() != keys[b]->0.len()); } else if b == 9 {} else if b == 10 { assert(keys[a]->0.len() != keys[b]->0.len()); } else if b == 11 { assert(keys[a]->0.len() != keys[b]->0.len()); } else if b == 12 { assert(keys[a]->0.len() != keys[b]->0.len()); } else if b == 13 { assert(keys[a]->0.len() != keys[b]->0.len()); } else if b == 14 {} else if b == 15 { assert(keys[a]->0.len() != keys[b]->0.len()); } else if b == 16 { assert(keys[a]->0.len() != keys[b]->0.len()); } else if b == 17 { assert(keys[a]->0.len() != keys[b]->0.len()); } else if b == 18 { assert(keys[a]->0.len() != keys[b]->0.len()); }
        } else if a == 3 {
            if b == 0 {} else if b == 1 { assert(keys[a]->0.len() != keys[b]->0.len()); } else if b == 2 { assert(keys[a]->0.len() != keys[b]->0.len()); } else if b == 4 { assert(keys[a]->0.len() != keys[b]->0.len()); } else if b == 5 { assert(keys[a]->0.len() != keys[b]->0.len()); } else if b == 6 { assert(keys[a]->0.len() != keys[b]->0.len()); } else if b == 7 { assert(keys[a]->0.len() != keys[b]->0.len()); } else if b == 8 { assert(keys[a]->0.len() != keys[b]->0.len()); } else if b == 9 {} else if b == 10 { assert(keys[a]->0[0] != keys[b]->0[0]); } else if b == 11 { assert(keys[a]->0.len() != keys[b]->0.len()); } else if b == 12 { assert(keys[a]->0[0] != keys[b]->0[0]); } else if b == 13 { assert(keys[a]->0.len() != keys[b]->0.len()); } else if b == 14 {} else if b == 15 { assert(keys[a]->0.len() != keys[b]->0.len()); } else if b == 16 { assert(keys[a]->0.len() != keys[b]->0.len()); } else if b == 17 { assert(keys[a]->0.len() != keys[b]->0.len()); } else if b == 18 { assert(keys[a]->0.len() != keys[b]->0.len()); }
        } else if a == 4 {
            if b == 0 {} else if b == 1 { assert(keys[a]->0.len() != keys[b]->0.len()); } else if b == 2 { assert(keys[a]->0.len() != keys[b]->0.len()); } else if b == 3 { assert(keys[a]->0.len() != keys[b]->0.len()); } else if b == 5 { assert(keys[a]->0.len() != keys[b]->0.len()); } else if b == 6 { assert(keys[a]->0.len() != keys[b]->0.len()); } else if b == 7 { assert(keys[a]->0[14] != keys[b]->0[14]); } else if b == 8 { assert(keys[a]->0.len() != keys[b]->0.len()); } else if b == 9 {} else if b == 10 { assert(keys[a]->0.len() != keys[b]->0.len()); } else if b == 11 { assert(keys[a]->0.len() != keys[b]->0.len()); } else if b == 12 { assert(keys[a]->0.len() != keys[b]->0.len()); } else if b == 13 { assert(keys[a]->0.len() != keys[b]->0.len()); } else if b == 14 {} else if b == 15 { assert(keys[a]->0.len() != keys[b]->0.len()); } else if b == 16 { assert(keys[a]->0.len() != keys[b]->0.len()); } else if b == 17 { assert(keys[a]->0.len() != keys[b]->0.len()); } else if b == 18 { assert(keys[a]->0.len() != keys[b]->0.len()); }
        } else if a == 5 {
            if b == 0 {} else if b == 1 { assert(keys[a]->0.len() != keys[b]->0.len()); } else if b == 2 { assert(keys[a]->0.len() != keys[b]->0.len()); } else if b == 3 { assert(keys[a]->0.len() != keys[b]->0.len()); } else if b == 4 { assert(keys[a]->0.len() != keys[b]->0.len()); } else if b == 6 { assert(keys[a]->0.len() != keys[b]->0.len()); } else if b == 7 { assert(keys[a]->0.len() != keys[b]->0.len()); } else if b == 8 { assert(keys[a]->0.len() != keys[b]->0.len()); } else if b == 9 {} else if b == 10 { assert(keys[a]->0.len() != keys[b]->0.len()); } else if b == 11 { assert(keys[a]->0.len() != keys[b]->0.len()); } else if b == 12 { assert(keys[a]->0.len() != keys[b]->0.len()); } else if b == 13 { assert(keys[a]->0.len() != keys[b]->0.len()); } else if b == 14 {} else if b == 15 { assert(keys[a]->0.len() != keys[b]->0.len()); } else if b == 16 { assert(keys[a]->0.len() != keys[b]->0.len()); } else if b == 17 { assert(keys[a]->0.len() != keys[b]->0.len()); } else if b == 18 { assert(keys[a]->0.len() != keys[b]->0.len()); }
        } else if a == 6 {
            if b == 0 {} else if b == 1 { assert(keys[a]->0.len() != keys[b]->0.len()); } else if b == 2 { assert(keys[a]->0.len() != keys[b]->0.len()); } else if b == 3 { assert(keys[a]->0.len() != keys[b]->0.len()); } else if b == 4 { assert(keys[a]->0.len() != keys[b]->0.len()); } else if b == 5 { assert(keys[a]->0.len() != keys[b]->0.len()); } else if b == 7 { assert(keys[a]->0.len() != keys[b]->0.len()); } else if b == 8 { assert(keys[a]->0.len() != keys[b]->0.len()); } else if b == 9 {} else if b == 10 { assert(keys[a]->0.len() != keys[b]->0.len()); } else if b == 11 { assert(keys[a]->0.len() != keys[b]->0.len()); } else if b == 12 { assert(keys[a]->0.len() != keys[b]->0.len()); } else if b == 13 { assert(keys[a]->0.len() != keys[b]->0.len()); } else if b == 14 {} else if b == 15 { assert(keys[a]->0.len() != keys[b]->0.len()); } else if b == 16 { assert(keys[a]->0.len() != keys[b]->0.len()); } else if b == 17 { assert(keys[a]->0.len() != keys[b]->0.len()); } else if b == 18 { assert(keys[a]->0.len() != keys[b]->0.len()); }
        } else if a == 7 {
            if b == 0 {} else if b == 1 { assert(keys[a]->0.len() != keys[b]->0.len()); } else if b == 2 { assert(keys[a]->0.len() != keys[b]->0.len()); } else if b == 3 { assert(keys[a]->0.len() != keys[b]->0.len()); } else if b == 4 { assert(keys[a]->0[14] != keys[b]->0[14]); } else if b == 5 { assert(keys[a]->0.len() != keys[b]->0.len()); } else if b == 6 { assert(keys[a]->0.len() != keys[b]->0.len()); } else if b == 8 { assert(keys[a]->0.len() != keys[b]->0.len()); } else if b == 9 {} else if b == 10 { assert(keys[a]->0.len() != keys[b]->0.len()); } else if b == 11 { assert(keys[a]->0.len() != keys[b]->0.len()); } else if b == 12 { assert(keys[a]->0.len() != keys[b]->0.len()); } else if b == 13 { assert(keys[a]->0.len() != keys[b]->0.len()); } else if b == 14 {} else if b == 15 { assert(keys[a]->0.len() != keys[b]->0.len()); } else if b == 16 { assert(keys[a]->0.len() != keys[b]->0.len()); } else if b == 17 { assert(keys[a]->0.len() != keys[b]->0.len()); } else if b == 18 { assert(keys[a]->0.len() != keys[b]->0.len()); }
        } else if a == 8 {
            if b == 0 {} else if b == 1 { assert(keys[a]->0.len() != keys[b]->0.len()); } else if b == 2 { assert(keys[a]->0.len() != keys[b]->0.len()); } else if b == 3 { assert(keys[a]->0.len() != keys[b]->0.len()); } else if b == 4 { assert(keys[a]->0.len() != keys[b]->0.len()); } else if b == 5 { assert(keys[a]->0.len() != keys[b]->0.len()); } else if b == 6 { assert(keys[a]->0.len() != keys[b]->0.len()); } else if b == 7 { assert(keys[a]->0.len() != keys[b]->0.len()); } else if b == 9 {} else if b == 10 { assert(keys[a]->0.len() != keys[b]->0.len()); } else if b == 11 { assert(keys[a]->0.len() != keys[b]->0.len()); } else if b == 12 { assert(keys[a]->0.len() != keys[b]->0.len()); } else if b == 13 { assert(keys[a]->0.len() != keys[b]->0.len()); } else if b == 14 {} else if b == 15 { assert(keys[a]->0.len() != keys[b]->0.len()); } else if b == 16 { assert(keys[a]->0.len() != keys[b]->0.len()); } else if b == 17 { assert(keys[a]->0.len() != keys[b]->0.len()); } else if b == 18 { assert(keys[a]->0.len() != keys[b]->0.len()); }
        } else if a == 10 {
            if b == 0 {} else if b == 1 { assert(keys[a]->0.len() != keys[b]->0.len()); } else if b == 2 { assert(keys[a]->0.len() != keys[b]->0.len()); } else if b == 3 { assert(keys[a]->0[0] != keys[b]->0[0]); } else if b == 4 { assert(keys[a]->0.len() != keys[b]->0.len()); } else if b == 5 { assert(keys[a]->0.len() != keys[b]->0.len()); } else if b == 6 { assert(keys[a]->0.len() != keys[b]->0.len()); } else if b == 7 { assert(keys[a]->0.len() != keys[b]->0.len()); } else if b == 8 { assert(keys[a]->0.len() != keys[b]->0.len()); } else if b == 9 {} else if b == 11 { assert(keys[a]->0.len() != keys[b]->0.len()); } else if b == 12 { assert(keys[a]->0[12] != keys[b]->0[12]); } else if b == 13 { assert(keys[a]->0.len() != keys[b]->0.len()); } else if b == 14 {} else if b == 15 { assert(keys[a]->0.len() != keys[b]->0.len()); } else if b == 16 { assert(keys[a]->0.len() != keys[b]->0.len()); } else if b == 17 { assert(keys[a]->0.len() != keys[b]->0.len()); } else if b == 18 { assert(keys[a]->0.len() != keys[b]->0.len()); }
        } else if a == 11 {
            if b == 0 {} else if b == 1 { assert(keys[a]->0.len() != keys[b]->0.len()); } else if b == 2 { assert(keys[a]->0.len() != keys[b]->0.len()); } else if b == 3 { assert(keys[a]->0.len() != keys[b]->0.len()); } else if b == 4 { assert(keys[a]->0.len() != keys[b]->0.len()); } else if b == 5 { assert(keys[a]->0.len() != keys[b]->0.len()); } else if b == 6 { assert(keys[a]->0.len() != keys[b]->0.len()); } else if b == 7 { assert(keys[a]->0.len() != keys[b]->0.len()); } else if b == 8 { assert(keys[a]->0.len() != keys[b]->0.len()); } else if b == 9 {} else if b == 10 { assert(keys[a]->0.len() != keys[b]->0.len()); } else if b == 12 { assert(keys[a]->0.len() != keys[b]->0.len()); } else if b == 13 { assert(keys[a]->0.len() != keys[b]->0.len()); } else if b == 14 {} else if b == 15 { assert(keys[a]->0.len() != keys[b]->0.len()); } else if b == 16 { assert(keys[a]->0.len() != keys[b]->0.len()); } else if b == 17 { assert(keys[a]->0.len() != keys[b]->0.len()); } else if b == 18 { assert(keys[a]->0.len() != keys[b]->0.len()); }
        } else if a == 12 {
            if b == 0 {} else if b == 1 { assert(keys[a]->0.len() != keys[b]->0.len()); } else if b == 2 { assert(keys[a]->0.len() != keys[b]->0.len()); } else if b == 3 { assert(keys[a]->0[0] != keys[b]->0[0]); } else if b == 4 { assert(keys[a]->0.len() != keys[b]->0.len()); } else if b == 5 { assert(keys[a]->0.len() != keys[b]->0.len()); } else if b == 6 { assert(keys[a]->0.len() != keys[b]->0.len()); } else if b == 7 { assert(keys[a]->0.len() != keys[b]->0.len()); } else if b == 8 { assert(keys[a]->0.len() != keys[b]->0.len()); } else if b == 9 {} else if b == 10 { assert(keys[a]->0[12] != keys[b]->0[12]); } else if b == 11 { assert(keys[a]->0.len() != keys[b]->0.len()); } else if b == 13 { assert(keys[a]->0.len() != keys[b]->0.len()); } else if b == 14 {} else if b == 15 { assert(keys[a]->0.len() != keys[b]->0.len()); } else if b == 16 { assert(keys[a]->0.len() != keys[b]->0.len()); } else if b == 17 { assert(keys[a]->0.len() != keys[b]->0.len()); } else if b == 18 { assert(keys[a]->0.len() != keys[b]->0.len()); }
        } else if a == 13 {
            if b == 0 {} else if b == 1 { assert(keys[a]->0.len() != keys[b]->0.len()); } else if b == 2 { assert(keys[a]->0.len() != keys[b]->0.len()); } else if b == 3 { assert(keys[a]->0.len() != keys[b]->0.len()); } else if b == 4 { assert(keys[a]->0.len() != keys[b]->0.len()); } else if b == 5 { assert(keys[a]->0.len() != keys[b]->0.len()); } else if b == 6 { assert(keys[a]->0.len() != keys[b]->0.len()); } else if b == 7 { assert(keys[a]->0.len() != keys[b]->0.len()); } else if b == 8 { assert(keys[a]->0.len() != keys[b]->0.len()); } else if b == 9 {} else if b == 10 { assert(keys[a]->0.len() != keys[b]->0.len()); } else if b == 11 { assert(keys[a]->0.len() != keys[b]->0.len()); } else if b == 12 { assert(keys[a]->0.len() != keys[b]->0.len()); } else if b == 14 {} else if b == 15 { assert(keys[a]->0.len() != keys[b]->0.len()); } else if b == 16 { assert(keys[a]->0.len() != keys[b]->0.len()); } else if b == 17 { assert(keys[a]->0.len() != keys[b]->0.len()); } else if b == 18 { assert(keys[a]->0.len() != keys[b]->0.len()); }
        } else if a == 15 {
            if b == 0 {} else if b == 1 { assert(keys[a]->0.len() != keys[b]->0.len()); } else if b == 2 { assert(keys[a]->0.len() != keys[b]->0.len()); } else if b == 3 { assert(keys[a]->0.len() != keys[b]->0.len()); } else if b == 4 { assert(keys[a]->0.len() != keys[b]->0.len()); } else if b == 5 { assert(keys[a]->0.len() != keys[b]->0.len()); } else if b == 6 { assert(keys[a]->0.len() != keys[b]->0.len()); } else if b == 7 { assert(keys[a]->0.len() != keys[b]->0.len()); } else if b == 8 { assert(keys[a]->0.len() != keys[b]->0.len()); } else if b == 9 {} else if b == 10 { assert(keys[a]->0.len() != keys[b]->0.len()); } else if b == 11 { assert(keys[a]->0.len() != keys[b]->0.len()); } else if b == 12 { assert(keys[a]->0.len() != keys[b]->0.len()); } else if b == 13 { assert(keys[a]->0.len() != keys[b]->0.len()); } else if b == 14 {} else if b == 16 { assert(keys[a]->0[27] != keys[b]->0[27]); } else if b == 17 { assert(keys[a]->0.len() != keys[b]->0.len()); } else if b == 18 { assert(keys[a]->0.len() != keys[b]->0.len()); }
        } else if a == 16 {
            if b == 0 {} else if b == 1 { assert(keys[a]->0.len() != keys[b]->0.len()); } else if b == 2 { assert(keys[a]->0.len() != keys[b]->0.len()); } else if b == 3 { assert(keys[a]->0.len() != keys[b]->0.len()); } else if b == 4 { assert(keys[a]->0.len() != keys[b]->0.len()); } else if b == 5 { assert(keys[a]->0.len() != keys[b]->0.len()); } else if b == 6 { assert(keys[a]->0.len() != keys[b]->0.len()); } else if b == 7 { assert(keys[a]->0.len() != keys[b]->0.len()); } else if b == 8 { assert(keys[a]->0.len() != keys[b]->0.len()); } else if b == 9 {} else if b == 10 { assert(keys[a]->0.len() != keys[b]->0.len()); } else if b == 11 { assert(keys[a]->0.len() != keys[b]->0.len()); } else if b == 12 { assert(keys[a]->0.len() != keys[b]->0.len()); } else if b == 13 { assert(keys[a]->0.len() != keys[b]->0.len()); } else if b == 14 {} else if b == 15 { assert(keys[a]->0[27] != keys[b]->0[27]); } else if b == 17 { assert(keys[a]->0.len() != keys[b]->0.len()); } else if b == 18 { assert(keys[a]->0.len() != keys[b]->0.len()); }
        } else if a == 17 {
            if b == 0 {} else if b == 1 { assert(keys[a]->0.len() != keys[b]->0.len()); } else if b == 2 { assert(keys[a]->0.len() != keys[b]->0.len()); } else if b == 3 { assert(keys[a]->0.len() != keys[b]->0.len()); } else if b == 4 { assert(keys[a]->0.len() != keys[b]->0.len()); } else if b == 5 { assert(keys[a]->0.len() != keys[b]->0.len()); } else if b == 6 { assert(keys[a]->0.len() != keys[b]->0.len()); } else if b == 7 { assert(keys[a]->0.len() != keys[b]->0.len()); } else if b == 8 { assert(keys[a]->0.len() != keys[b]->0.len()); } else if b == 9 {} else if b == 10 { assert(keys[a]->0.len() != keys[b]->0.len()); } else if b == 11 { assert(keys[a]->0.len() != keys[b]->0.len()); } else if b == 12 { assert(keys[a]->0.len() != keys[b]->0.len()); } else if b == 13 { assert(keys[a]->0.len() != keys[b]->0.len()); } else if b == 14 {} else if b == 15 { assert(keys[a]->0.len() != keys[b]->0.len()); } else if b == 16 { assert(keys[a]->0.len() != keys[b]->0.len()); } else if b == 18 { assert(keys[a]->0.len() != keys[b]->0.len()); }
        } else if a == 18 {
            if b == 0 {} else if b == 1 { assert(keys[a]->0.len() != keys[b]->0.len()); } else if b == 2 { assert(keys[a]->0.len() != keys[b]->0.len()); } else if b == 3 { assert(keys[a]->0.len() != keys[b]->0.len()); } else if b == 4 { assert(keys[a]->0.len() != keys[b]->0.len()); } else if b == 5 { assert(keys[a]->0.len() != keys[b]->0.len()); } else if b == 6 { assert(keys[a]->0.len() != keys[b]->0.len()); } else if b == 7 { assert(keys[a]->0.len() != keys[b]->0.len()); } else if b == 8 { assert(keys[a]->0.len() != keys[b]->0.len()); } else if b == 9 {} else if b == 10 { assert(keys[a]->0.len() != keys[b]->0.len()); } else if b == 11 { assert(keys[a]->0.len() != keys[b]->0.len()); } else if b == 12 { assert(keys[a]->0.len() != keys[b]->0.len()); } else if b == 13 { assert(keys[a]->0.len() != keys[b]->0.len()); } else if b == 14 {} else if b == 15 { assert(keys[a]->0.len() != keys[b]->0.len()); } else if b == 16 { assert(keys[a]->0.len() != keys[b]->0.len()); } else if b == 17 { assert(keys[a]->0.len() != keys[b]->0.len()); }
        }
    }
    assert(key_of(page[i], active_language) != key_of(page[j], active_language));

}

/// Writes to two different settings of the "Search & Files" page commute and keep each
/// other's values: in either order the same fields and records end up in the settings,
/// and each setting shows what was written to it.
pub proof fn law_search_and_files_writes_commute(
    i: int,
    j: int,
    fields: Map<Seq<char>, Seq<char>>,
    objects: Set<Seq<char>>,
    active_language: Option<Seq<char>>,
    x: Seq<char>,
    y: Seq<char>,
)
    requires
        0 <= i < search_and_files_page_outline().len(),
        0 <= j < search_and_files_page_outline().len(),
        i != j,
        text_access_of(search_and_files_page_outline()[i]) is Some,
        text_access_of(search_and_files_page_outline()[j]) is Some,
    ensures
        ({
            let a = text_access_of(search_and_files_page_outline()[i])->0;
            let b = text_access_of(search_and_files_page_outline()[j])->0;
            &&& written(written(fields, a, active_language, Some(x)), b, active_language, Some(y))
                == written(written(fields, b, active_language, Some(y)), a, active_language, Some(x))
            &&& objects.union(records_written(a, active_language)).union(records_written(b, active_language))
                == objects.union(records_written(b, active_language)).union(records_written(a, active_language))
            &&& picked(written(written(fields, a, active_language, Some(x)), b, active_language, Some(y)), a, active_language) == Some(x)
            &&& picked(written(written(fields, a, active_language, Some(x)), b, active_language, Some(y)), b, active_language) == Some(y)
        }),
{
    let a = text_access_of(search_and_files_page_outline()[i])->0;
    let b = text_access_of(search_and_files_page_outline()[j])->0;
    law_search_and_files_settings_independent(i, j, active_language);
    law_search_and_files_settings_independent(j, i, active_language);
    law_writes_commute(fields, objects, a, b, active_language, x, y);
}

} // verus!
