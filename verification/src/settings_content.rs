//! The content of a settings file, seen as the values of its fields, and the way
//! a setting of the settings pages reads and writes its field.

use vstd::prelude::*;
use vstd::string::*;

verus! {

/// One field that is set in a settings file: its path in the settings tree and its value.
pub struct SettingEntry {
    pub key: String,
    pub value: String,
}

/// The value at `key`, if the field is set.
pub open spec fn lookup(m: Map<Seq<char>, Seq<char>>, key: Seq<char>) -> Option<Seq<char>> {
    if m.dom().contains(key) {
        Some(m[key])
    } else {
        None
    }
}

/// `m` with the field at `key` set to `value`, or cleared when `value` is `None`.
pub open spec fn assign(
    m: Map<Seq<char>, Seq<char>>,
    key: Seq<char>,
    value: Option<Seq<char>>,
) -> Map<Seq<char>, Seq<char>> {
    match value {
        Some(v) => m.insert(key, v),
        None => m.remove(key),
    }
}

/// The text of an optional string.
pub open spec fn opt_view(value: Option<String>) -> Option<Seq<char>> {
    match value {
        Some(v) => Some(v@),
        None => None,
    }
}

/// The content of a settings file: the fields that are set, each once, and the
/// records (the objects of the settings tree that hold fields) that exist, by path.
pub struct SettingsContent {
    entries: Vec<SettingEntry>,
    fields: Ghost<Map<Seq<char>, Seq<char>>>,
    records: Vec<String>,
    objects: Ghost<Set<Seq<char>>>,
}

/// `records` list exactly the paths of `objects`.
pub closed spec fn records_hold(records: Seq<String>, objects: Set<Seq<char>>) -> bool {
    forall|k: Seq<char>| objects.contains(k) <==> exists|i: int| 0 <= i < records.len() && #[trigger] records[i]@ == k
}

/// `entries` hold each field of `fields` once, with its value, and nothing else.
pub closed spec fn entries_hold(entries: Seq<SettingEntry>, fields: Map<Seq<char>, Seq<char>>) -> bool {
    &&& forall|i: int, j: int|
        0 <= i < j < entries.len() ==> #[trigger] entries[i].key@ != #[trigger] entries[j].key@
    &&& forall|i: int|
        0 <= i < entries.len() ==> fields.dom().contains(#[trigger] entries[i].key@)
            && fields[entries[i].key@] == entries[i].value@
    &&& forall|k: Seq<char>|
        #[trigger] fields.dom().contains(k) ==> exists|i: int|
            0 <= i < entries.len() && #[trigger] entries[i].key@ == k
}

impl SettingsContent {
    #[verifier::type_invariant]
    closed spec fn entries_match_fields(self) -> bool {
        entries_hold(self.entries@, self.fields@) && records_hold(self.records@, self.objects@)
    }

    /// The records that exist, by path.
    pub closed spec fn objects(&self) -> Set<Seq<char>> {
        self.objects@
    }

    /// The fields that are set, by path, with their values.
    pub closed spec fn fields(&self) -> Map<Seq<char>, Seq<char>> {
        self.fields@
    }

    /// A settings file in which no field is set and no record exists.
    pub fn new() -> (content: SettingsContent)
        ensures
            content.fields() == Map::<Seq<char>, Seq<char>>::empty(),
            content.objects() == Set::<Seq<char>>::empty(),
    {
        SettingsContent { entries: Vec::new(), fields: Ghost(Map::empty()), records: Vec::new(), objects: Ghost(Set::empty()) }
    }

    /// Whether the record at `path` exists.
    pub fn has_record(&self, path: &str) -> (exists: bool)
        ensures
            exists == self.objects().contains(path@),
    {
        proof {
            use_type_invariant(self);
        }
        let wanted = String::from_str(path);
        let mut i: usize = 0;
        while i < self.records.len()
            invariant
                i <= self.records@.len(),
                wanted@ == path@,
                records_hold(self.records@, self.objects@),
                forall|j: int| 0 <= j < i ==> self.records@[j]@ != path@,
            decreases self.records@.len() - i,
        {
            if self.records[i] == wanted {
                assert(self.records@[i as int]@ == path@);
                return true;
            }
            i = i + 1;
        }
        proof {
            if self.objects@.contains(path@) {
                let j = choose|j: int| 0 <= j < self.records@.len() && #[trigger] self.records@[j]@ == path@;
                assert(self.records@[j]@ == path@);
            }
        }
        false
    }

    /// Makes the record at `path` exist (with every field of it unset when it is new).
    pub fn create_record(&mut self, path: &str)
        ensures
            final(self).objects() == old(self).objects().insert(path@),
            final(self).fields() == old(self).fields(),
    {
        proof {
            use_type_invariant(&*self);
        }
        if self.has_record(path) {
            assert(self.objects@.insert(path@) =~= self.objects@);
            return;
        }
        let mut old_content = SettingsContent::new();
        std::mem::swap(self, &mut old_content);
        proof {
            use_type_invariant(&old_content);
        }
        let ghost old_objects = old_content.objects@;
        let ghost old_records = old_content.records@;
        let mut records = old_content.records;
        records.push(String::from_str(path));
        let ghost new_objects = old_objects.insert(path@);
        assert forall|k: Seq<char>| new_objects.contains(k) <==> exists|i: int| 0 <= i < records@.len() && #[trigger] records@[i]@ == k by {
            if new_objects.contains(k) {
                if k == path@ {
                    assert(records@[old_records.len() as int]@ == k);
                } else {
                    let j = choose|j: int| 0 <= j < old_records.len() && #[trigger] old_records[j]@ == k;
                    assert(records@[j]@ == k);
                }
            }
            if exists|i: int| 0 <= i < records@.len() && #[trigger] records@[i]@ == k {
                let i = choose|i: int| 0 <= i < records@.len() && #[trigger] records@[i]@ == k;
                if i < old_records.len() {
                    assert(old_records[i]@ == k);
                }
            }
        }
        *self = SettingsContent { entries: old_content.entries, fields: old_content.fields, records, objects: Ghost(new_objects) };
    }

    /// The position of the entry for `key`, if that field is set.
    fn position(&self, key: &str) -> (pos: Option<usize>)
        ensures
            match pos {
                Some(i) => i < self.entries@.len() && self.entries@[i as int].key@ == key@,
                None => !self.fields().dom().contains(key@),
            },
    {
        proof {
            use_type_invariant(self);
        }
        let wanted = String::from_str(key);
        let mut i: usize = 0;
        while i < self.entries.len()
            invariant
                i <= self.entries@.len(),
                wanted@ == key@,
                forall|j: int| 0 <= j < i ==> self.entries@[j].key@ != key@,
            decreases self.entries@.len() - i,
        {
            if self.entries[i].key == wanted {
                return Some(i);
            }
            i = i + 1;
        }
        proof {
            if self.fields@.dom().contains(key@) {
                let j = choose|j: int| 0 <= j < self.entries@.len() && #[trigger] self.entries@[j].key@ == key@;
                assert(self.entries@[j].key@ == key@);
            }
        }
        None
    }

    /// The value of the field at `key`, if it is set.
    pub fn get(&self, key: &str) -> (value: Option<String>)
        ensures
            match value {
                Some(v) => lookup(self.fields(), key@) == Some(v@),
                None => lookup(self.fields(), key@) == None::<Seq<char>>,
            },
    {
        proof {
            use_type_invariant(self);
        }
        match self.position(key) {
            Some(i) => Some(self.entries[i].value.clone()),
            None => None,
        }
    }

    /// Sets the field at `key` to `value`, or clears it when `value` is `None`.
    pub fn set(&mut self, key: &str, value: Option<String>)
        ensures
            final(self).fields() == assign(old(self).fields(), key@, opt_view(value)),
            final(self).objects() == old(self).objects(),
    {
        proof {
            use_type_invariant(&*self);
        }
        let pos = self.position(key);
        let ghost old_fields = self.fields@;
        let ghost old_entries = self.entries@;
        let mut old_content = SettingsContent::new();
        std::mem::swap(self, &mut old_content);
        proof {
            use_type_invariant(&old_content);
        }
        let records = old_content.records;
        let objects = old_content.objects;
        let mut entries = old_content.entries;
        assert(entries@ =~= old_entries);
        match value {
            Some(v) => {
                let ghost vv = v@;
                match pos {
                    Some(i) => {
                        entries[i] = SettingEntry { key: String::from_str(key), value: v };
                    },
                    None => {
                        entries.push(SettingEntry { key: String::from_str(key), value: v });
                    },
                }
                let ghost new_fields = old_fields.insert(key@, vv);
                assert forall|k: Seq<char>| #[trigger] new_fields.dom().contains(k) implies exists|i: int|
                    0 <= i < entries@.len() && #[trigger] entries@[i].key@ == k by {
                    if k == key@ {
                        match pos {
                            Some(i) => assert(entries@[i as int].key@ == k),
                            None => assert(entries@[old_entries.len() as int].key@ == k),
                        }
                    } else {
                        let j = choose|j: int| 0 <= j < old_entries.len() && #[trigger] old_entries[j].key@ == k;
                        assert(entries@[j].key@ == k);
                    }
                }
                self.replace_entries(entries, Ghost(new_fields), records, objects);
            },
            None => {
                match pos {
                    Some(i) => {
                        entries.remove(i);
                        let ghost new_fields = old_fields.remove(key@);
                        assert forall|k: Seq<char>| #[trigger] new_fields.dom().contains(k) implies exists|j: int|
                            0 <= j < entries@.len() && #[trigger] entries@[j].key@ == k by {
                            let j = choose|j: int| 0 <= j < old_entries.len() && #[trigger] old_entries[j].key@ == k;
                            if j < i {
                                assert(entries@[j].key@ == k);
                            } else {
                                assert(j != i);
                                assert(entries@[j - 1].key@ == k);
                            }
                        }
                        assert forall|a: int, b: int| 0 <= a < b < entries@.len() implies #[trigger] entries@[a].key@
                            != #[trigger] entries@[b].key@ by {
                            let oa = if a < i { a } else { a + 1 };
                            let ob = if b < i { b } else { b + 1 };
                            assert(old_entries[oa].key@ != old_entries[ob].key@);
                        }
                        self.replace_entries(entries, Ghost(new_fields), records, objects);
                    },
                    None => {
                        assert(old_fields.remove(key@) =~= old_fields);
                        self.replace_entries(entries, Ghost(old_fields), records, objects);
                    },
                }
            },
        }
    }

    fn replace_entries(
        &mut self,
        entries: Vec<SettingEntry>,
        fields: Ghost<Map<Seq<char>, Seq<char>>>,
        records: Vec<String>,
        objects: Ghost<Set<Seq<char>>>,
    )
        requires
            entries_hold(entries@, fields@),
            records_hold(records@, objects@),
        ensures
            final(self).fields() == fields@,
            final(self).objects() == objects@,
    {
        *self = SettingsContent { entries, fields, records, objects };
    }
}

/// How a setting of the settings pages reaches its field in the settings content. The
/// last part of each kind lists the records that a write creates (with their fields
/// unset) when they do not exist yet, outermost first, whatever value is written.
pub enum FieldAccess {
    /// The field at this path, read and written as it is.
    Direct(&'static str, &'static [&'static str]),
    /// A text field at this path that reads as the empty text when it is unset and
    /// is cleared rather than set to the empty text.
    NonEmptyText(&'static str, &'static [&'static str]),
    /// This field of the language settings: that of the active language when it
    /// sets it, else that of the defaults shared by all languages; written to the
    /// active language (whose record is created when it does not exist), or to the
    /// defaults when no language is active. The records are paths within the
    /// language's record.
    LanguageScoped(&'static str, &'static [&'static str]),
    /// The field at the first path, which reads as the field at the second path when it
    /// is unset (a panel's scrollbar falls back to the editor's, the terminal's font to
    /// the buffer font, and so on); it is written at the first path.
    WithFallback(&'static str, &'static str, &'static [&'static str]),
}

/// The record of one language's settings.
pub open spec fn language_record(language: Seq<char>) -> Seq<char> {
    "project.all_languages.languages."@ + language
}

/// The paths `base + p` for each `p` of `parents`.
pub open spec fn paths_under(base: Seq<char>, parents: Seq<&'static str>) -> Set<Seq<char>> {
    Set::new(|k: Seq<char>| exists|j: int| 0 <= j < parents.len() && k == base + parents[j]@)
}

/// The records that writing through `access` creates when they are missing, while
/// `active_language` is active.
pub open spec fn records_written(access: FieldAccess, active_language: Option<Seq<char>>) -> Set<Seq<char>> {
    match access {
        FieldAccess::Direct(_, ps) => paths_under(Seq::empty(), ps@),
        FieldAccess::NonEmptyText(_, ps) => paths_under(Seq::empty(), ps@),
        FieldAccess::WithFallback(_, _, ps) => paths_under(Seq::empty(), ps@),
        FieldAccess::LanguageScoped(_, ps) => match active_language {
            Some(l) => paths_under(language_prefix(l), ps@).insert(language_record(l)),
            None => paths_under(language_defaults_prefix(), ps@),
        },
    }
}

/// Creates the records `base + p` for each `p` of `parents`.
fn create_records(content: &mut SettingsContent, base: &str, parents: &[&'static str])
    ensures
        final(content).objects() == old(content).objects().union(paths_under(base@, parents@)),
        final(content).fields() == old(content).fields(),
{
    let mut i: usize = 0;
    while i < parents.len()
        invariant
            i <= parents@.len(),
            content.objects() == old(content).objects().union(paths_under(base@, parents@.take(i as int))),
            content.fields() == old(content).fields(),
        decreases parents@.len() - i,
    {
        let path = String::from_str(base).concat(parents[i]);
        content.create_record(path.as_str());
        proof {
            assert(paths_under(base@, parents@.take(i + 1)) =~= paths_under(base@, parents@.take(i as int)).insert(base@ + parents@[i as int]@)) by {
                assert forall|k: Seq<char>| paths_under(base@, parents@.take(i + 1)).contains(k) implies
                    paths_under(base@, parents@.take(i as int)).insert(base@ + parents@[i as int]@).contains(k) by {
                    let j = choose|j: int| #![trigger parents@.take(i + 1)[j]] 0 <= j < i + 1 && k == base@ + parents@.take(i + 1)[j]@;
                    if j < i {
                        assert(parents@.take(i as int)[j] == parents@.take(i + 1)[j]);
                    }
                }
                assert forall|k: Seq<char>| paths_under(base@, parents@.take(i as int)).insert(base@ + parents@[i as int]@).contains(k) implies
                    paths_under(base@, parents@.take(i + 1)).contains(k) by {
                    if k == base@ + parents@[i as int]@ {
                        assert(parents@.take(i + 1)[i as int] == parents@[i as int]);
                    } else {
                        let j = choose|j: int| #![trigger parents@.take(i as int)[j]] 0 <= j < i && k == base@ + parents@.take(i as int)[j]@;
                        assert(parents@.take(i + 1)[j] == parents@.take(i as int)[j]);
                    }
                }
            }
            assert(content.objects() =~= old(content).objects().union(paths_under(base@, parents@.take(i + 1))));
        }
        i = i + 1;
    }
    assert(parents@.take(parents@.len() as int) =~= parents@);
}

/// Where the settings of one language live.
pub open spec fn language_prefix(language: Seq<char>) -> Seq<char> {
    "project.all_languages.languages."@ + language + "."@
}

/// Where the language settings shared by all languages live.
pub open spec fn language_defaults_prefix() -> Seq<char> {
    "project.all_languages.defaults."@
}

/// The path of the field that `access` writes while `active_language` is active.
pub open spec fn storage_key(access: FieldAccess, active_language: Option<Seq<char>>) -> Seq<char> {
    match access {
        FieldAccess::Direct(k, _) => k@,
        FieldAccess::NonEmptyText(k, _) => k@,
        FieldAccess::LanguageScoped(f, _) => match active_language {
            Some(l) => language_prefix(l) + f@,
            None => language_defaults_prefix() + f@,
        },
        FieldAccess::WithFallback(k, _, _) => k@,
    }
}

/// What a setting shows for its field in `fields` while `active_language` is active.
pub open spec fn picked(
    fields: Map<Seq<char>, Seq<char>>,
    access: FieldAccess,
    active_language: Option<Seq<char>>,
) -> Option<Seq<char>> {
    match access {
        FieldAccess::Direct(k, _) => lookup(fields, k@),
        FieldAccess::NonEmptyText(k, _) => match lookup(fields, k@) {
            Some(v) => Some(v),
            None => Some(Seq::<char>::empty()),
        },
        FieldAccess::LanguageScoped(f, _) => {
            let shared = lookup(fields, language_defaults_prefix() + f@);
            match active_language {
                Some(l) => match lookup(fields, language_prefix(l) + f@) {
                    Some(v) => Some(v),
                    None => shared,
                },
                None => shared,
            }
        },
        FieldAccess::WithFallback(k, fallback, _) => match lookup(fields, k@) {
            Some(v) => Some(v),
            None => lookup(fields, fallback@),
        },
    }
}

/// The value that writing `value` through `access` stores.
pub open spec fn stored_value(access: FieldAccess, value: Option<Seq<char>>) -> Option<Seq<char>> {
    match access {
        FieldAccess::NonEmptyText(_, _) => match value {
            Some(v) => if v.len() > 0 { Some(v) } else { None },
            None => None,
        },
        _ => value,
    }
}

/// `fields` after a setting wrote `value` through `access` while `active_language` is active.
pub open spec fn written(
    fields: Map<Seq<char>, Seq<char>>,
    access: FieldAccess,
    active_language: Option<Seq<char>>,
    value: Option<Seq<char>>,
) -> Map<Seq<char>, Seq<char>> {
    assign(fields, storage_key(access, active_language), stored_value(access, value))
}

/// The text of an optional text slice.
pub open spec fn opt_str_view(value: Option<&str>) -> Option<Seq<char>> {
    match value {
        Some(v) => Some(v@),
        None => None,
    }
}

/// The path of the field that `access` writes while `active_language` is active.
pub fn field_storage_key(access: &FieldAccess, active_language: Option<&str>) -> (key: String)
    ensures
        key@ == storage_key(*access, opt_str_view(active_language)),
{
    match access {
        FieldAccess::Direct(k, _) => String::from_str(k),
        FieldAccess::NonEmptyText(k, _) => String::from_str(k),
        FieldAccess::LanguageScoped(f, _) => match active_language {
            Some(l) => String::from_str("project.all_languages.languages.").concat(l).concat(".").concat(f),
            None => String::from_str("project.all_languages.defaults.").concat(f),
        },
        FieldAccess::WithFallback(k, _, _) => String::from_str(k),
    }
}

/// Reads a field of the language settings: that of the active language when it sets
/// the field, else that of the defaults shared by all languages.
pub fn language_settings_field(content: &SettingsContent, field: &'static str, active_language: Option<&str>) -> (value: Option<String>)
    ensures
        opt_view(value) == picked(content.fields(), FieldAccess::LanguageScoped(field, &[]), opt_str_view(active_language)),
{
    let shared_key = String::from_str("project.all_languages.defaults.").concat(field);
    match active_language {
        Some(l) => {
            let own_key = String::from_str("project.all_languages.languages.").concat(l).concat(".").concat(field);
            match content.get(own_key.as_str()) {
                Some(v) => Some(v),
                None => content.get(shared_key.as_str()),
            }
        },
        None => content.get(shared_key.as_str()),
    }
}

/// Reads a field, falling back to another field when it is unset.
pub fn field_or_fallback(content: &SettingsContent, key: &'static str, fallback: &'static str) -> (value: Option<String>)
    ensures
        opt_view(value) == picked(content.fields(), FieldAccess::WithFallback(key, fallback, &[]), None),
{
    match content.get(key) {
        Some(v) => Some(v),
        None => content.get(fallback),
    }
}

/// Reads a scrollbar visibility, falling back to the editor's when it is unset.
pub fn show_scrollbar_or_editor(content: &SettingsContent, key: &'static str) -> (value: Option<String>)
    ensures
        opt_view(value) == picked(content.fields(), FieldAccess::WithFallback(key, "editor.scrollbar.show", &[]), None),
{
    field_or_fallback(content, key, "editor.scrollbar.show")
}

/// Reads the field of a setting, as the settings page shows it.
pub fn pick_field(content: &SettingsContent, access: &FieldAccess, active_language: Option<&str>) -> (value: Option<String>)
    ensures
        opt_view(value) == picked(content.fields(), *access, opt_str_view(active_language)),
{
    match access {
        FieldAccess::Direct(k, _) => content.get(k),
        FieldAccess::NonEmptyText(k, _) => match content.get(k) {
            Some(v) => Some(v),
            None => Some(String::new()),
        },
        FieldAccess::LanguageScoped(f, _) => language_settings_field(content, f, active_language),
        FieldAccess::WithFallback(k, fallback, _) => field_or_fallback(content, k, fallback),
    }
}

/// Writes a field of the language settings: into the active language's settings (whose
/// record is created, with every field unset, when the language has none yet), or into
/// the defaults shared by all languages when no language is active. The records
/// `parents`, within the language's record, are created too.
pub fn language_settings_field_mut(
    content: &mut SettingsContent,
    value: Option<String>,
    field: &'static str,
    parents: &'static [&'static str],
    active_language: Option<&str>,
)
    ensures
        final(content).fields() == written(
            old(content).fields(),
            FieldAccess::LanguageScoped(field, parents),
            opt_str_view(active_language),
            opt_view(value),
        ),
        final(content).objects() == old(content).objects().union(
            records_written(FieldAccess::LanguageScoped(field, parents), opt_str_view(active_language)),
        ),
{
    let ghost old_objects = content.objects();
    match active_language {
        Some(l) => {
            let record = String::from_str("project.all_languages.languages.").concat(l);
            content.create_record(record.as_str());
            let base = String::from_str("project.all_languages.languages.").concat(l).concat(".");
            create_records(content, base.as_str(), parents);
            assert(content.objects() =~= old_objects.union(
                records_written(FieldAccess::LanguageScoped(field, parents), opt_str_view(active_language)),
            ));
        },
        None => {
            create_records(content, "project.all_languages.defaults.", parents);
        },
    }
    let key = field_storage_key(&FieldAccess::LanguageScoped(field, parents), active_language);
    content.set(key.as_str(), value);
}

/// Writes `value` to the field of a setting, as the settings page does when the
/// user changes it (`None` clears the field).
pub fn write_field(content: &mut SettingsContent, access: &FieldAccess, active_language: Option<&str>, value: Option<String>)
    ensures
        final(content).fields() == written(old(content).fields(), *access, opt_str_view(active_language), opt_view(value)),
        final(content).objects() == old(content).objects().union(records_written(*access, opt_str_view(active_language))),
{
    proof {
        reveal_strlit("");
        assert(""@ =~= Seq::<char>::empty());
    }
    match access {
        FieldAccess::LanguageScoped(f, ps) => language_settings_field_mut(content, value, f, ps, active_language),
        FieldAccess::NonEmptyText(k, ps) => {
            create_records(content, "", ps);
            let stored = match value {
                Some(v) => if v.unicode_len() > 0 { Some(v) } else { None },
                None => None,
            };
            content.set(k, stored);
        },
        FieldAccess::Direct(k, ps) => {
            create_records(content, "", ps);
            content.set(k, value);
        },
        FieldAccess::WithFallback(k, _, ps) => {
            create_records(content, "", ps);
            content.set(k, value);
        },
    }
}

/// Whether reading through `access` while `active_language` is active looks at the field at `key`.
pub open spec fn reads_key(access: FieldAccess, active_language: Option<Seq<char>>, key: Seq<char>) -> bool {
    match access {
        FieldAccess::Direct(k, _) => key == k@,
        FieldAccess::NonEmptyText(k, _) => key == k@,
        FieldAccess::LanguageScoped(f, _) => key == language_defaults_prefix() + f@ || match active_language {
            Some(l) => key == language_prefix(l) + f@,
            None => false,
        },
        FieldAccess::WithFallback(k, fallback, _) => key == k@ || key == fallback@,
    }
}

/// A setting shows the value that was just written to it, for every kind of field:
/// a text field shows the text unless it was empty, and then shows the empty text.
pub proof fn law_read_after_write(
    fields: Map<Seq<char>, Seq<char>>,
    access: FieldAccess,
    active_language: Option<Seq<char>>,
    value: Seq<char>,
)
    ensures
        picked(written(fields, access, active_language, Some(value)), access, active_language)
            == Some(value),
{
    let w = written(fields, access, active_language, Some(value));
    match access {
        FieldAccess::NonEmptyText(k, _) => {
            if value.len() == 0 {
                assert(value =~= Seq::<char>::empty());
            }
        },
        _ => {},
    }
}

/// Clearing a plain field makes the setting show nothing; clearing a text field makes it
/// show the empty text.
pub proof fn law_clear_plain_field(
    fields: Map<Seq<char>, Seq<char>>,
    access: FieldAccess,
    active_language: Option<Seq<char>>,
)
    requires
        access is Direct || access is NonEmptyText,
    ensures
        picked(written(fields, access, active_language, None), access, active_language)
            == (if access is Direct { None::<Seq<char>> } else { Some(Seq::<char>::empty()) }),
{
}

/// Clearing a language field of the active language makes the setting show the value
/// shared by all languages again.
pub proof fn law_clear_language_field_falls_back(
    fields: Map<Seq<char>, Seq<char>>,
    field: &'static str,
    language: Seq<char>,
)
    ensures
        picked(written(fields, FieldAccess::LanguageScoped(field, &[]), Some(language), None),
            FieldAccess::LanguageScoped(field, &[]), Some(language))
            == lookup(fields, language_defaults_prefix() + field@),
{
    reveal_strlit("project.all_languages.languages.");
    reveal_strlit("project.all_languages.defaults.");
    let own = language_prefix(language) + field@;
    let shared = language_defaults_prefix() + field@;
    assert(own[22] == 'l');
    assert(shared[22] == 'd');
}

/// Writing through one setting changes no field but the one it writes: another setting
/// that does not read that field shows what it showed before.
pub proof fn law_write_leaves_other_settings(
    fields: Map<Seq<char>, Seq<char>>,
    access: FieldAccess,
    other: FieldAccess,
    active_language: Option<Seq<char>>,
    value: Option<Seq<char>>,
)
    requires
        !reads_key(other, active_language, storage_key(access, active_language)),
    ensures
        picked(written(fields, access, active_language, value), other, active_language)
            == picked(fields, other, active_language),
{
    let w = written(fields, access, active_language, value);
    let k = storage_key(access, active_language);
    assert forall|x: Seq<char>| x != k implies lookup(w, x) == lookup(fields, x) by {}
    match other {
        FieldAccess::Direct(b, _) => { assert(lookup(w, b@) == lookup(fields, b@)); },
        FieldAccess::NonEmptyText(b, _) => { assert(lookup(w, b@) == lookup(fields, b@)); },
        FieldAccess::LanguageScoped(f, _) => {
            assert(lookup(w, language_defaults_prefix() + f@) == lookup(fields, language_defaults_prefix() + f@));
            match active_language {
                Some(l) => { assert(lookup(w, language_prefix(l) + f@) == lookup(fields, language_prefix(l) + f@)); },
                None => {},
            }
        },
        FieldAccess::WithFallback(b, fallback, _) => {
            assert(lookup(w, b@) == lookup(fields, b@));
            assert(lookup(w, fallback@) == lookup(fields, fallback@));
        },
    }
}

/// Writes to two settings that keep to their own fields commute, and each keeps the
/// value written to it: whatever the order, the same fields and records end up in the
/// settings, and each setting shows what was written to it (a text field that was given the empty text shows it).
pub proof fn law_writes_commute(
    fields: Map<Seq<char>, Seq<char>>,
    objects: Set<Seq<char>>,
    a: FieldAccess,
    b: FieldAccess,
    active_language: Option<Seq<char>>,
    x: Seq<char>,
    y: Seq<char>,
)
    requires
        !reads_key(a, active_language, storage_key(b, active_language)),
        !reads_key(b, active_language, storage_key(a, active_language)),
    ensures
        written(written(fields, a, active_language, Some(x)), b, active_language, Some(y))
            == written(written(fields, b, active_language, Some(y)), a, active_language, Some(x)),
        objects.union(records_written(a, active_language)).union(records_written(b, active_language))
            == objects.union(records_written(b, active_language)).union(records_written(a, active_language)),
        picked(written(written(fields, a, active_language, Some(x)), b, active_language, Some(y)), a, active_language)
            == Some(x),
        picked(written(written(fields, a, active_language, Some(x)), b, active_language, Some(y)), b, active_language)
            == Some(y),
{
    let ka = storage_key(a, active_language);
    let kb = storage_key(b, active_language);
    assert(reads_key(a, active_language, ka));
    assert(ka != kb);
    let wa = written(fields, a, active_language, Some(x));
    let ab = written(wa, b, active_language, Some(y));
    let ba = written(written(fields, b, active_language, Some(y)), a, active_language, Some(x));
    assert(ab =~= ba);
    assert(objects.union(records_written(a, active_language)).union(records_written(b, active_language))
        =~= objects.union(records_written(b, active_language)).union(records_written(a, active_language)));
    law_read_after_write(fields, a, active_language, x);
    law_write_leaves_other_settings(wa, b, a, active_language, Some(y));
    law_read_after_write(wa, b, active_language, y);
}

} // verus!
