//! The dropdown that picks one variant of an enumerated setting, and the localized
//! labels of its variants.

use vstd::prelude::*;
use vstd::string::*;

verus! {

/// Whether `c` is ignored when a variant label is looked up in the label table.
pub open spec fn is_label_separator(c: char) -> bool {
    c == ' ' || c == '_' || c == '-' || c == '/'
}

/// `label` without the characters that the lookup ignores.
pub open spec fn normalized_label(label: Seq<char>) -> Seq<char> {
    label.filter(|c: char| !is_label_separator(c))
}

/// The localized text of each variant name that has one.
pub open spec fn variant_label_table() -> Seq<(Seq<char>, Seq<char>)> {
    seq![
        ("On"@, "开启"@),
        ("Off"@, "关闭"@),
        ("Enabled"@, "启用"@),
        ("Disabled"@, "禁用"@),
        ("Auto"@, "自动"@),
        ("Always"@, "始终"@),
        ("Never"@, "从不"@),
        ("Left"@, "左侧"@),
        ("Right"@, "右侧"@),
        ("Top"@, "顶部"@),
        ("Bottom"@, "底部"@),
        ("Center"@, "居中"@),
        ("Static"@, "固定"@),
        ("Dynamic"@, "动态"@),
        ("System"@, "跟随系统"@),
        ("Light"@, "浅色"@),
        ("Dark"@, "深色"@),
        ("Comfortable"@, "舒适"@),
        ("Standard"@, "标准"@),
        ("Custom"@, "自定义"@),
        ("AfterDelay"@, "延迟后"@),
        ("OnFocusChange"@, "失去焦点时"@),
        ("OnWindowChange"@, "窗口变化时"@),
        ("PrimaryScreen"@, "主屏幕"@),
        ("AllScreens"@, "所有屏幕"@),
        ("CurrentScreen"@, "当前屏幕"@),
        ("ActiveScreen"@, "活动屏幕"@),
        ("PlatformNative"@, "系统原生"@),
        ("Code"@, "代码"@),
        ("File"@, "文件"@),
        ("Bar"@, "条形"@),
        ("Block"@, "方块"@),
        ("Underline"@, "下划线"@),
        ("Hollow"@, "空心"@),
        ("All"@, "全部"@),
        ("None"@, "无"@),
        ("Current"@, "当前项"@),
        ("Directory"@, "目录"@),
        ("Project"@, "项目"@),
        ("Hidden"@, "隐藏"@),
        ("Visible"@, "可见"@),
        ("Vertical"@, "垂直"@),
        ("Horizontal"@, "水平"@),
        ("Wrapped"@, "按折行"@),
        ("Open"@, "打开"@),
        ("Closed"@, "关闭"@),
        ("Docked"@, "停靠"@),
        ("Fullscreen"@, "全屏"@),
        ("Screen"@, "屏幕"@),
        ("Workspace"@, "工作区"@),
        ("Buffer"@, "缓冲区"@),
        ("Replace"@, "替换"@),
        ("Visual"@, "可视"@),
        ("Normal"@, "普通"@),
        ("Insert"@, "插入"@),
        ("Local"@, "本地"@),
        ("Global"@, "全局"@),
        ("Manual"@, "手动"@),
        ("Click"@, "点击"@),
        ("DoubleClick"@, "双击"@),
        ("Selection"@, "选区"@),
        ("First"@, "第一个"@),
        ("Last"@, "最后一个"@),
        ("Previous"@, "上一个"@),
        ("Next"@, "下一个"@),
        ("true"@, "是"@),
        ("false"@, "否"@),
    ]
}

/// The localized text of the first entry of `table` whose name is `name`.
pub open spec fn table_lookup(table: Seq<(Seq<char>, Seq<char>)>, name: Seq<char>) -> Option<Seq<char>>
    decreases table.len(),
{
    if table.len() == 0 {
        None
    } else if table[0].0 == name {
        Some(table[0].1)
    } else {
        table_lookup(table.drop_first(), name)
    }
}

/// The label shown for a variant: its localized text when the table has one for the
/// label without separators, and the label itself otherwise.
pub open spec fn localized_label(label: Seq<char>) -> Seq<char> {
    match table_lookup(variant_label_table(), normalized_label(label)) {
        Some(text) => text,
        None => label,
    }
}

fn label_table() -> (table: Vec<(&'static str, &'static str)>)
    ensures
        table@.map_values(|entry: (&'static str, &'static str)| (entry.0@, entry.1@)) == variant_label_table(),
{
    let table = vec![
        ("On", "开启"),
        ("Off", "关闭"),
        ("Enabled", "启用"),
        ("Disabled", "禁用"),
        ("Auto", "自动"),
        ("Always", "始终"),
        ("Never", "从不"),
        ("Left", "左侧"),
        ("Right", "右侧"),
        ("Top", "顶部"),
        ("Bottom", "底部"),
        ("Center", "居中"),
        ("Static", "固定"),
        ("Dynamic", "动态"),
        ("System", "跟随系统"),
        ("Light", "浅色"),
        ("Dark", "深色"),
        ("Comfortable", "舒适"),
        ("Standard", "标准"),
        ("Custom", "自定义"),
        ("AfterDelay", "延迟后"),
        ("OnFocusChange", "失去焦点时"),
        ("OnWindowChange", "窗口变化时"),
        ("PrimaryScreen", "主屏幕"),
        ("AllScreens", "所有屏幕"),
        ("CurrentScreen", "当前屏幕"),
        ("ActiveScreen", "活动屏幕"),
        ("PlatformNative", "系统原生"),
        ("Code", "代码"),
        ("File", "文件"),
        ("Bar", "条形"),
        ("Block", "方块"),
        ("Underline", "下划线"),
        ("Hollow", "空心"),
        ("All", "全部"),
        ("None", "无"),
        ("Current", "当前项"),
        ("Directory", "目录"),
        ("Project", "项目"),
        ("Hidden", "隐藏"),
        ("Visible", "可见"),
        ("Vertical", "垂直"),
        ("Horizontal", "水平"),
        ("Wrapped", "按折行"),
        ("Open", "打开"),
        ("Closed", "关闭"),
        ("Docked", "停靠"),
        ("Fullscreen", "全屏"),
        ("Screen", "屏幕"),
        ("Workspace", "工作区"),
        ("Buffer", "缓冲区"),
        ("Replace", "替换"),
        ("Visual", "可视"),
        ("Normal", "普通"),
        ("Insert", "插入"),
        ("Local", "本地"),
        ("Global", "全局"),
        ("Manual", "手动"),
        ("Click", "点击"),
        ("DoubleClick", "双击"),
        ("Selection", "选区"),
        ("First", "第一个"),
        ("Last", "最后一个"),
        ("Previous", "上一个"),
        ("Next", "下一个"),
        ("true", "是"),
        ("false", "否"),
    ];
    assert(table@.map_values(|entry: (&'static str, &'static str)| (entry.0@, entry.1@)) =~= variant_label_table());
    table
}

/// The characters of `label` without those that the lookup ignores.
fn normalize(label: &str) -> (out: Vec<char>)
    ensures
        out@ == normalized_label(label@),
{
    let n = label.unicode_len();
    let mut out: Vec<char> = Vec::new();
    let mut i: usize = 0;
    while i < n
        invariant
            n == label@.len(),
            i <= n,
            out@ == label@.take(i as int).filter(|c: char| !is_label_separator(c)),
        decreases n - i,
    {
        let c = label.get_char(i);
        proof {
            assert(label@.take(i + 1) =~= label@.take(i as int).push(c));
            label@.take(i as int).lemma_filter_push(c, |c: char| !is_label_separator(c));
        }
        if !(c == ' ' || c == '_' || c == '-' || c == '/') {
            out.push(c);
        }
        i = i + 1;
    }
    proof {
        assert(label@.take(n as int) =~= label@);
    }
    out
}

/// Whether `chars` spell `text`.
fn spells(chars: &Vec<char>, text: &str) -> (res: bool)
    ensures
        res == (chars@ == text@),
{
    let n = text.unicode_len();
    if chars.len() != n {
        return false;
    }
    let mut i: usize = 0;
    while i < n
        invariant
            n == text@.len(),
            n == chars@.len(),
            i <= n,
            forall|j: int| 0 <= j < i ==> chars@[j] == text@[j],
        decreases n - i,
    {
        if chars[i] != text.get_char(i) {
            return false;
        }
        i = i + 1;
    }
    assert(chars@ =~= text@);
    true
}

/// The label shown for an enum variant whose name is `label`: its localized text
/// when it has one (spaces, underscores, hyphens and slashes are ignored in the
/// lookup), and `label` unchanged otherwise.
pub fn localized_variant_label<'a>(label: &'a str) -> (res: &'a str)
    ensures
        res@ == localized_label(label@),
{
    let normalized = normalize(label);
    let table = label_table();
    let ghost spec_table = variant_label_table();
    let mut i: usize = 0;
    assert(spec_table.skip(0) =~= spec_table);
    while i < table.len()
        invariant
            table@.map_values(|entry: (&'static str, &'static str)| (entry.0@, entry.1@)) == spec_table,
            spec_table == variant_label_table(),
            normalized@ == normalized_label(label@),
            i <= table@.len(),
            table_lookup(spec_table, normalized@) == table_lookup(spec_table.skip(i as int), normalized@),
        decreases table@.len() - i,
    {
        let ghost rest = spec_table.skip(i as int);
        assert(rest[0] == (table@[i as int].0@, table@[i as int].1@));
        let (name, text) = table[i];
        if spells(&normalized, name) {
            return text;
        }
        assert(rest.drop_first() =~= spec_table.skip(i + 1));
        i = i + 1;
    }
    assert(spec_table.skip(i as int).len() == 0);
    label
}

/// A name that the table maps was one of its names.
proof fn lemma_lookup_found(table: Seq<(Seq<char>, Seq<char>)>, name: Seq<char>)
    ensures
        table_lookup(table, name) is Some ==> exists|k: int| 0 <= k < table.len() && #[trigger] table[k].0 == name
            && table_lookup(table, name) == Some(table[k].1),
    decreases table.len(),
{
    if table.len() > 0 && table[0].0 != name {
        lemma_lookup_found(table.drop_first(), name);
        if table_lookup(table, name) is Some {
            let k = choose|k: int| 0 <= k < table.drop_first().len() && #[trigger] table.drop_first()[k].0 == name
                && table_lookup(table.drop_first(), name) == Some(table.drop_first()[k].1);
            assert(table[k + 1].0 == name);
        }
    } else if table.len() > 0 {
        assert(table[0].0 == name);
    }
}

/// The names of the table are plain ASCII, and every localized text begins with a
/// character outside ASCII that is no separator.
proof fn lemma_table_shapes()
    ensures
        forall|k: int, i: int|
            0 <= k < variant_label_table().len() && 0 <= i < variant_label_table()[k].0.len()
                ==> (#[trigger] variant_label_table()[k].0[i]) as u32 <= 127,
        forall|k: int|
            0 <= k < variant_label_table().len() ==> #[trigger] variant_label_table()[k].1.len() > 0
                && variant_label_table()[k].1[0] as u32 > 127,
{
    reveal_strlit("On");
    reveal_strlit("开启");
    reveal_strlit("Off");
    reveal_strlit("关闭");
    reveal_strlit("Enabled");
    reveal_strlit("启用");
    reveal_strlit("Disabled");
    reveal_strlit("禁用");
    reveal_strlit("Auto");
    reveal_strlit("自动");
    reveal_strlit("Always");
    reveal_strlit("始终");
    reveal_strlit("Never");
    reveal_strlit("从不");
    reveal_strlit("Left");
    reveal_strlit("左侧");
    reveal_strlit("Right");
    reveal_strlit("右侧");
    reveal_strlit("Top");
    reveal_strlit("顶部");
    reveal_strlit("Bottom");
    reveal_strlit("底部");
    reveal_strlit("Center");
    reveal_strlit("居中");
    reveal_strlit("Static");
    reveal_strlit("固定");
    reveal_strlit("Dynamic");
    reveal_strlit("动态");
    reveal_strlit("System");
    reveal_strlit("跟随系统");
    reveal_strlit("Light");
    reveal_strlit("浅色");
    reveal_strlit("Dark");
    reveal_strlit("深色");
    reveal_strlit("Comfortable");
    reveal_strlit("舒适");
    reveal_strlit("Standard");
    reveal_strlit("标准");
    reveal_strlit("Custom");
    reveal_strlit("自定义");
    reveal_strlit("AfterDelay");
    reveal_strlit("延迟后");
    reveal_strlit("OnFocusChange");
    reveal_strlit("失去焦点时");
    reveal_strlit("OnWindowChange");
    reveal_strlit("窗口变化时");
    reveal_strlit("PrimaryScreen");
    reveal_strlit("主屏幕");
    reveal_strlit("AllScreens");
    reveal_strlit("所有屏幕");
    reveal_strlit("CurrentScreen");
    reveal_strlit("当前屏幕");
    reveal_strlit("ActiveScreen");
    reveal_strlit("活动屏幕");
    reveal_strlit("PlatformNative");
    reveal_strlit("系统原生");
    reveal_strlit("Code");
    reveal_strlit("代码");
    reveal_strlit("File");
    reveal_strlit("文件");
    reveal_strlit("Bar");
    reveal_strlit("条形");
    reveal_strlit("Block");
    reveal_strlit("方块");
    reveal_strlit("Underline");
    reveal_strlit("下划线");
    reveal_strlit("Hollow");
    reveal_strlit("空心");
    reveal_strlit("All");
    reveal_strlit("全部");
    reveal_strlit("None");
    reveal_strlit("无");
    reveal_strlit("Current");
    reveal_strlit("当前项");
    reveal_strlit("Directory");
    reveal_strlit("目录");
    reveal_strlit("Project");
    reveal_strlit("项目");
    reveal_strlit("Hidden");
    reveal_strlit("隐藏");
    reveal_strlit("Visible");
    reveal_strlit("可见");
    reveal_strlit("Vertical");
    reveal_strlit("垂直");
    reveal_strlit("Horizontal");
    reveal_strlit("水平");
    reveal_strlit("Wrapped");
    reveal_strlit("按折行");
    reveal_strlit("Open");
    reveal_strlit("打开");
    reveal_strlit("Closed");
    reveal_strlit("关闭");
    reveal_strlit("Docked");
    reveal_strlit("停靠");
    reveal_strlit("Fullscreen");
    reveal_strlit("全屏");
    reveal_strlit("Screen");
    reveal_strlit("屏幕");
    reveal_strlit("Workspace");
    reveal_strlit("工作区");
    reveal_strlit("Buffer");
    reveal_strlit("缓冲区");
    reveal_strlit("Replace");
    reveal_strlit("替换");
    reveal_strlit("Visual");
    reveal_strlit("可视");
    reveal_strlit("Normal");
    reveal_strlit("普通");
    reveal_strlit("Insert");
    reveal_strlit("插入");
    reveal_strlit("Local");
    reveal_strlit("本地");
    reveal_strlit("Global");
    reveal_strlit("全局");
    reveal_strlit("Manual");
    reveal_strlit("手动");
    reveal_strlit("Click");
    reveal_strlit("点击");
    reveal_strlit("DoubleClick");
    reveal_strlit("双击");
    reveal_strlit("Selection");
    reveal_strlit("选区");
    reveal_strlit("First");
    reveal_strlit("第一个");
    reveal_strlit("Last");
    reveal_strlit("最后一个");
    reveal_strlit("Previous");
    reveal_strlit("上一个");
    reveal_strlit("Next");
    reveal_strlit("下一个");
    reveal_strlit("true");
    reveal_strlit("是");
    reveal_strlit("false");
    reveal_strlit("否");
}

/// Localizing a label twice gives the same text as localizing it once: a localized
/// text is never itself a name of the table.
pub proof fn law_localized_label_idempotent(label: Seq<char>)
    ensures
        localized_label(localized_label(label)) == localized_label(label),
{
    broadcast use vstd::seq_lib::group_filter_ensures;
    let table = variant_label_table();
    lemma_lookup_found(table, normalized_label(label));
    if table_lookup(table, normalized_label(label)) is Some {
        let k = choose|k: int| 0 <= k < table.len() && #[trigger] table[k].0 == normalized_label(label)
            && table_lookup(table, normalized_label(label)) == Some(table[k].1);
        let text = table[k].1;
        lemma_table_shapes();
        assert(text.len() > 0 && text[0] as u32 > 127);
        let n = normalized_label(text);
        assert(!is_label_separator(text[0]));
        assert(n.contains(text[0]));
        lemma_lookup_found(table, n);
        if table_lookup(table, n) is Some {
            let j = choose|j: int| 0 <= j < table.len() && #[trigger] table[j].0 == n
                && table_lookup(table, n) == Some(table[j].1);
            let p = choose|p: int| 0 <= p < n.len() && n[p] == text[0];
            assert(table[j].0[p] as u32 <= 127);
        }
    }
}

/// What `heck`'s title case makes of a text (its words capitalized and separated by
/// single spaces).
pub uninterp spec fn heck_title_case(text: Seq<char>) -> Seq<char>;

/// Title case of `text`, as `heck::ToTitleCase::to_title_case` computes it.
#[verifier::external_body]
fn to_title_case(text: &str) -> (res: String)
    ensures
        res@ == heck_title_case(text@),
{
    heck::ToTitleCase::to_title_case(text)
}

/// The text a dropdown shows for the variant named `label`.
pub open spec fn shown_variant_label(label: Seq<char>, title_case: bool) -> Seq<char> {
    let localized = localized_label(label);
    if title_case && localized == label {
        heck_title_case(localized)
    } else {
        localized
    }
}

/// The text a dropdown shows for the variant named `label`: its localized text, or,
/// when it has none and title case is on, the label in title case.
pub fn variant_display_label(label: &str, title_case: bool) -> (res: String)
    ensures
        res@ == shown_variant_label(label@, title_case),
{
    let localized = localized_variant_label(label);
    if title_case && String::from_str(localized) == String::from_str(label) {
        to_title_case(localized)
    } else {
        String::from_str(localized)
    }
}

/// A dropdown that picks one variant of an enumerated setting. Variants are known by
/// their discriminants, and `labels[i]` names `variants[i]`.
pub struct EnumVariantDropdown {
    pub id: String,
    pub current_value: u32,
    pub variants: Vec<u32>,
    pub labels: Vec<&'static str>,
    pub should_do_title_case: bool,
    pub tab_index: Option<isize>,
}

/// One entry of an open dropdown.
pub struct DropdownEntry {
    pub label: String,
    pub value: u32,
    /// Whether the entry is the current value.
    pub checked: bool,
}

/// What a dropdown shows: the label on its button, the entries of its menu and the
/// tab stop it takes.
pub struct DropdownView {
    /// The position of the current value among the variants.
    pub current_index: usize,
    pub trigger_label: String,
    pub entries: Vec<DropdownEntry>,
    pub tab_index: Option<isize>,
}

impl EnumVariantDropdown {
    /// A dropdown on `current_value` among `variants`, in title case and without a tab stop.
    pub fn new(id: String, current_value: u32, variants: Vec<u32>, labels: Vec<&'static str>) -> (dropdown: Self)
        ensures
            dropdown.id == id,
            dropdown.current_value == current_value,
            dropdown.variants == variants,
            dropdown.labels == labels,
            dropdown.should_do_title_case,
            dropdown.tab_index is None,
    {
        EnumVariantDropdown { id, current_value, variants, labels, should_do_title_case: true, tab_index: None }
    }

    /// The same dropdown, with title case of untranslated labels turned on or off.
    pub fn title_case(self, title_case: bool) -> (dropdown: Self)
        ensures
            dropdown == (EnumVariantDropdown { should_do_title_case: title_case, ..self }),
    {
        let mut this = self;
        this.should_do_title_case = title_case;
        this
    }

    /// The same dropdown, taking the tab stop `tab_index`.
    pub fn tab_index(self, tab_index: isize) -> (dropdown: Self)
        ensures
            dropdown == (EnumVariantDropdown { tab_index: Some(tab_index), ..self }),
    {
        let mut this = self;
        this.tab_index = Some(tab_index);
        this
    }

    /// What the dropdown shows. The current value must be one of the variants, and
    /// that variant must have a label.
    pub fn render(&self) -> (view: DropdownView)
        requires
            exists|i: int| 0 <= i < self.variants@.len() && self.variants@[i] == self.current_value,
            forall|i: int|
                0 <= i < self.variants@.len() && self.variants@[i] == self.current_value
                    ==> i < self.labels@.len(),
        ensures
            view.current_index < self.variants@.len(),
            view.current_index < self.labels@.len(),
            self.variants@[view.current_index as int] == self.current_value,
            forall|j: int| 0 <= j < view.current_index ==> self.variants@[j] != self.current_value,
            view.trigger_label@ == shown_variant_label(
                self.labels@[view.current_index as int]@,
                self.should_do_title_case,
            ),
            view.tab_index == self.tab_index,
            view.entries@.len() == if self.variants@.len() <= self.labels@.len() {
                self.variants@.len()
            } else {
                self.labels@.len()
            },
            forall|i: int|
                0 <= i < view.entries@.len() ==> {
                    &&& (#[trigger] view.entries@[i]).label@ == shown_variant_label(
                        self.labels@[i]@,
                        self.should_do_title_case,
                    )
                    &&& view.entries@[i].value == self.variants@[i]
                    &&& view.entries@[i].checked == (self.variants@[i] == self.current_value)
                },
    {
        let n = self.variants.len();
        let mut pos: usize = 0;
        while self.variants[pos] != self.current_value
            invariant
                n == self.variants@.len(),
                pos < self.variants@.len(),
                exists|i: int| pos <= i < self.variants@.len() && self.variants@[i] == self.current_value,
                forall|j: int| 0 <= j < pos ==> self.variants@[j] != self.current_value,
            decreases self.variants@.len() - pos,
        {
            proof {
                let w = choose|i: int| pos <= i < self.variants@.len() && self.variants@[i] == self.current_value;
                assert(w > pos);
            }
            pos = pos + 1;
        }
        let trigger_label = variant_display_label(self.labels[pos], self.should_do_title_case);
        let count = if self.variants.len() <= self.labels.len() {
            self.variants.len()
        } else {
            self.labels.len()
        };
        let mut entries: Vec<DropdownEntry> = Vec::new();
        let mut i: usize = 0;
        while i < count
            invariant
                count <= self.variants@.len(),
                count <= self.labels@.len(),
                i <= count,
                entries@.len() == i,
                forall|k: int|
                    0 <= k < i ==> {
                        &&& (#[trigger] entries@[k]).label@ == shown_variant_label(
                            self.labels@[k]@,
                            self.should_do_title_case,
                        )
                        &&& entries@[k].value == self.variants@[k]
                        &&& entries@[k].checked == (self.variants@[k] == self.current_value)
                    },
            decreases count - i,
        {
            let value = self.variants[i];
            let label = variant_display_label(self.labels[i], self.should_do_title_case);
            entries.push(DropdownEntry { label, value, checked: value == self.current_value });
            i = i + 1;
        }
        DropdownView { current_index: pos, trigger_label, entries, tab_index: self.tab_index }
    }
}


/// The entry at position `k` of `table` is what the lookup of its name finds, when no
/// earlier entry has that name.
proof fn lemma_lookup_at(table: Seq<(Seq<char>, Seq<char>)>, k: int)
    requires
        0 <= k < table.len(),
        forall|j: int| 0 <= j < k ==> #[trigger] table[j].0 != table[k].0,
    ensures
        table_lookup(table, table[k].0) == Some(table[k].1),
    decreases k,
{
    if k > 0 {
        let rest = table.drop_first();
        assert(table[0].0 != table[k].0);
        assert(rest[k - 1] == table[k]);
        assert forall|j: int| 0 <= j < k - 1 implies #[trigger] rest[j].0 != rest[k - 1].0 by {
            assert(rest[j] == table[j + 1]);
        }
        lemma_lookup_at(rest, k - 1);
    }
}

/// A name without separators is looked up as it is.
proof fn lemma_plain_name_normalized(name: Seq<char>)
    requires
        forall|i: int| 0 <= i < name.len() ==> !is_label_separator(#[trigger] name[i]),
    ensures
        normalized_label(name) == name,
    decreases name.len(),
{
    reveal(Seq::filter);
    if name.len() > 0 {
        let rest = name.drop_last();
        assert forall|i: int| 0 <= i < rest.len() implies !is_label_separator(#[trigger] rest[i]) by {
            assert(rest[i] == name[i]);
        }
        lemma_plain_name_normalized(rest);
        assert(!is_label_separator(name.last()));
        assert(rest.push(name.last()) =~= name);
    }
}

proof fn lemma_label_on()
    ensures
        localized_label("On"@) == "开启"@,
{
    reveal_strlit("On");
    lemma_plain_name_normalized("On"@);
    let table = variant_label_table();
    assert(table[0] == ("On"@, "开启"@));
    lemma_lookup_at(table, 0);
}

proof fn lemma_label_off()
    ensures
        localized_label("Off"@) == "关闭"@,
{
    reveal_strlit("Off");
    lemma_plain_name_normalized("Off"@);
    let table = variant_label_table();
    assert(table[1] == ("Off"@, "关闭"@));
    assert forall|j: int| 0 <= j < 1 implies #[trigger] table[j].0 != table[1].0 by {
        if j == 0 { reveal_strlit("On"); assert(table[0].0 == "On"@); assert("On"@.len() != "Off"@.len()); }
    }
    lemma_lookup_at(table, 1);
}

proof fn lemma_label_enabled()
    ensures
        localized_label("Enabled"@) == "启用"@,
{
    reveal_strlit("Enabled");
    lemma_plain_name_normalized("Enabled"@);
    let table = variant_label_table();
    assert(table[2] == ("Enabled"@, "启用"@));
    assert forall|j: int| 0 <= j < 2 implies #[trigger] table[j].0 != table[2].0 by {
        if j == 0 { reveal_strlit("On"); assert(table[0].0 == "On"@); assert("On"@.len() != "Enabled"@.len()); } else if j == 1 { reveal_strlit("Off"); assert(table[1].0 == "Off"@); assert("Off"@.len() != "Enabled"@.len()); }
    }
    lemma_lookup_at(table, 2);
}

proof fn lemma_label_disabled()
    ensures
        localized_label("Disabled"@) == "禁用"@,
{
    reveal_strlit("Disabled");
    lemma_plain_name_normalized("Disabled"@);
    let table = variant_label_table();
    assert(table[3] == ("Disabled"@, "禁用"@));
    assert forall|j: int| 0 <= j < 3 implies #[trigger] table[j].0 != table[3].0 by {
        if j == 0 { reveal_strlit("On"); assert(table[0].0 == "On"@); assert("On"@.len() != "Disabled"@.len()); } else if j == 1 { reveal_strlit("Off"); assert(table[1].0 == "Off"@); assert("Off"@.len() != "Disabled"@.len()); } else if j == 2 { reveal_strlit("Enabled"); assert(table[2].0 == "Enabled"@); assert("Enabled"@.len() != "Disabled"@.len()); }
    }
    lemma_lookup_at(table, 3);
}

proof fn lemma_label_auto()
    ensures
        localized_label("Auto"@) == "自动"@,
{
    reveal_strlit("Auto");
    lemma_plain_name_normalized("Auto"@);
    let table = variant_label_table();
    assert(table[4] == ("Auto"@, "自动"@));
    assert forall|j: int| 0 <= j < 4 implies #[trigger] table[j].0 != table[4].0 by {
        if j == 0 { reveal_strlit("On"); assert(table[0].0 == "On"@); assert("On"@.len() != "Auto"@.len()); } else if j == 1 { reveal_strlit("Off"); assert(table[1].0 == "Off"@); assert("Off"@.len() != "Auto"@.len()); } else if j == 2 { reveal_strlit("Enabled"); assert(table[2].0 == "Enabled"@); assert("Enabled"@.len() != "Auto"@.len()); } else if j == 3 { reveal_strlit("Disabled"); assert(table[3].0 == "Disabled"@); assert("Disabled"@.len() != "Auto"@.len()); }
    }
    lemma_lookup_at(table, 4);
}

proof fn lemma_label_always()
    ensures
        localized_label("Always"@) == "始终"@,
{
    reveal_strlit("Always");
    lemma_plain_name_normalized("Always"@);
    let table = variant_label_table();
    assert(table[5] == ("Always"@, "始终"@));
    assert forall|j: int| 0 <= j < 5 implies #[trigger] table[j].0 != table[5].0 by {
        if j == 0 { reveal_strlit("On"); assert(table[0].0 == "On"@); assert("On"@.len() != "Always"@.len()); } else if j == 1 { reveal_strlit("Off"); assert(table[1].0 == "Off"@); assert("Off"@.len() != "Always"@.len()); } else if j == 2 { reveal_strlit("Enabled"); assert(table[2].0 == "Enabled"@); assert("Enabled"@.len() != "Always"@.len()); } else if j == 3 { reveal_strlit("Disabled"); assert(table[3].0 == "Disabled"@); assert("Disabled"@.len() != "Always"@.len()); } else if j == 4 { reveal_strlit("Auto"); assert(table[4].0 == "Auto"@); assert("Auto"@.len() != "Always"@.len()); }
    }
    lemma_lookup_at(table, 5);
}

proof fn lemma_label_never()
    ensures
        localized_label("Never"@) == "从不"@,
{
    reveal_strlit("Never");
    lemma_plain_name_normalized("Never"@);
    let table = variant_label_table();
    assert(table[6] == ("Never"@, "从不"@));
    assert forall|j: int| 0 <= j < 6 implies #[trigger] table[j].0 != table[6].0 by {
        if j == 0 { reveal_strlit("On"); assert(table[0].0 == "On"@); assert("On"@.len() != "Never"@.len()); } else if j == 1 { reveal_strlit("Off"); assert(table[1].0 == "Off"@); assert("Off"@.len() != "Never"@.len()); } else if j == 2 { reveal_strlit("Enabled"); assert(table[2].0 == "Enabled"@); assert("Enabled"@.len() != "Never"@.len()); } else if j == 3 { reveal_strlit("Disabled"); assert(table[3].0 == "Disabled"@); assert("Disabled"@.len() != "Never"@.len()); } else if j == 4 { reveal_strlit("Auto"); assert(table[4].0 == "Auto"@); assert("Auto"@.len() != "Never"@.len()); } else if j == 5 { reveal_strlit("Always"); assert(table[5].0 == "Always"@); assert("Always"@.len() != "Never"@.len()); }
    }
    lemma_lookup_at(table, 6);
}

proof fn lemma_label_left()
    ensures
        localized_label("Left"@) == "左侧"@,
{
    reveal_strlit("Left");
    lemma_plain_name_normalized("Left"@);
    let table = variant_label_table();
    assert(table[7] == ("Left"@, "左侧"@));
    assert forall|j: int| 0 <= j < 7 implies #[trigger] table[j].0 != table[7].0 by {
        if j == 0 { reveal_strlit("On"); assert(table[0].0 == "On"@); assert("On"@.len() != "Left"@.len()); } else if j == 1 { reveal_strlit("Off"); assert(table[1].0 == "Off"@); assert("Off"@.len() != "Left"@.len()); } else if j == 2 { reveal_strlit("Enabled"); assert(table[2].0 == "Enabled"@); assert("Enabled"@.len() != "Left"@.len()); } else if j == 3 { reveal_strlit("Disabled"); assert(table[3].0 == "Disabled"@); assert("Disabled"@.len() != "Left"@.len()); } else if j == 4 { reveal_strlit("Auto"); assert(table[4].0 == "Auto"@); assert("Auto"@[0] != "Left"@[0]); } else if j == 5 { reveal_strlit("Always"); assert(table[5].0 == "Always"@); assert("Always"@.len() != "Left"@.len()); } else if j == 6 { reveal_strlit("Never"); assert(table[6].0 == "Never"@); assert("Never"@.len() != "Left"@.len()); }
    }
    lemma_lookup_at(table, 7);
}

proof fn lemma_label_right()
    ensures
        localized_label("Right"@) == "右侧"@,
{
    reveal_strlit("Right");
    lemma_plain_name_normalized("Right"@);
    let table = variant_label_table();
    assert(table[8] == ("Right"@, "右侧"@));
    assert forall|j: int| 0 <= j < 8 implies #[trigger] table[j].0 != table[8].0 by {
        if j == 0 { reveal_strlit("On"); assert(table[0].0 == "On"@); assert("On"@.len() != "Right"@.len()); } else if j == 1 { reveal_strlit("Off"); assert(table[1].0 == "Off"@); assert("Off"@.len() != "Right"@.len()); } else if j == 2 { reveal_strlit("Enabled"); assert(table[2].0 == "Enabled"@); assert("Enabled"@.len() != "Right"@.len()); } else if j == 3 { reveal_strlit("Disabled"); assert(table[3].0 == "Disabled"@); assert("Disabled"@.len() != "Right"@.len()); } else if j == 4 { reveal_strlit("Auto"); assert(table[4].0 == "Auto"@); assert("Auto"@.len() != "Right"@.len()); } else if j == 5 { reveal_strlit("Always"); assert(table[5].0 == "Always"@); assert("Always"@.len() != "Right"@.len()); } else if j == 6 { reveal_strlit("Never"); assert(table[6].0 == "Never"@); assert("Never"@[0] != "Right"@[0]); } else if j == 7 { reveal_strlit("Left"); assert(table[7].0 == "Left"@); assert("Left"@.len() != "Right"@.len()); }
    }
    lemma_lookup_at(table, 8);
}

proof fn lemma_label_top()
    ensures
        localized_label("Top"@) == "顶部"@,
{
    reveal_strlit("Top");
    lemma_plain_name_normalized("Top"@);
    let table = variant_label_table();
    assert(table[9] == ("Top"@, "顶部"@));
    assert forall|j: int| 0 <= j < 9 implies #[trigger] table[j].0 != table[9].0 by {
        if j == 0 { reveal_strlit("On"); assert(table[0].0 == "On"@); assert("On"@.len() != "Top"@.len()); } else if j == 1 { reveal_strlit("Off"); assert(table[1].0 == "Off"@); assert("Off"@[0] != "Top"@[0]); } else if j == 2 { reveal_strlit("Enabled"); assert(table[2].0 == "Enabled"@); assert("Enabled"@.len() != "Top"@.len()); } else if j == 3 { reveal_strlit("Disabled"); assert(table[3].0 == "Disabled"@); assert("Disabled"@.len() != "Top"@.len()); } else if j == 4 { reveal_strlit("Auto"); assert(table[4].0 == "Auto"@); assert("Auto"@.len() != "Top"@.len()); } else if j == 5 { reveal_strlit("Always"); assert(table[5].0 == "Always"@); assert("Always"@.len() != "Top"@.len()); } else if j == 6 { reveal_strlit("Never"); assert(table[6].0 == "Never"@); assert("Never"@.len() != "Top"@.len()); } else if j == 7 { reveal_strlit("Left"); assert(table[7].0 == "Left"@); assert("Left"@.len() != "Top"@.len()); } else if j == 8 { reveal_strlit("Right"); assert(table[8].0 == "Right"@); assert("Right"@.len() != "Top"@.len()); }
    }
    lemma_lookup_at(table, 9);
}

proof fn lemma_label_bottom()
    ensures
        localized_label("Bottom"@) == "底部"@,
{
    reveal_strlit("Bottom");
    lemma_plain_name_normalized("Bottom"@);
    let table = variant_label_table();
    assert(table[10] == ("Bottom"@, "底部"@));
    assert forall|j: int| 0 <= j < 10 implies #[trigger] table[j].0 != table[10].0 by {
        if j == 0 { reveal_strlit("On"); assert(table[0].0 == "On"@); assert("On"@.len() != "Bottom"@.len()); } else if j == 1 { reveal_strlit("Off"); assert(table[1].0 == "Off"@); assert("Off"@.len() != "Bottom"@.len()); } else if j == 2 { reveal_strlit("Enabled"); assert(table[2].0 == "Enabled"@); assert("Enabled"@.len() != "Bottom"@.len()); } else if j == 3 { reveal_strlit("Disabled"); assert(table[3].0 == "Disabled"@); assert("Disabled"@.len() != "Bottom"@.len()); } else if j == 4 { reveal_strlit("Auto"); assert(table[4].0 == "Auto"@); assert("Auto"@.len() != "Bottom"@.len()); } else if j == 5 { reveal_strlit("Always"); assert(table[5].0 == "Always"@); assert("Always"@[0] != "Bottom"@[0]); } else if j == 6 { reveal_strlit("Never"); assert(table[6].0 == "Never"@); assert("Never"@.len() != "Bottom"@.len()); } else if j == 7 { reveal_strlit("Left"); assert(table[7].0 == "Left"@); assert("Left"@.len() != "Bottom"@.len()); } else if j == 8 { reveal_strlit("Right"); assert(table[8].0 == "Right"@); assert("Right"@.len() != "Bottom"@.len()); } else if j == 9 { reveal_strlit("Top"); assert(table[9].0 == "Top"@); assert("Top"@.len() != "Bottom"@.len()); }
    }
    lemma_lookup_at(table, 10);
}

proof fn lemma_label_center()
    ensures
        localized_label("Center"@) == "居中"@,
{
    reveal_strlit("Center");
    lemma_plain_name_normalized("Center"@);
    let table = variant_label_table();
    assert(table[11] == ("Center"@, "居中"@));
    assert forall|j: int| 0 <= j < 11 implies #[trigger] table[j].0 != table[11].0 by {
        if j == 0 { reveal_strlit("On"); assert(table[0].0 == "On"@); assert("On"@.len() != "Center"@.len()); } else if j == 1 { reveal_strlit("Off"); assert(table[1].0 == "Off"@); assert("Off"@.len() != "Center"@.len()); } else if j == 2 { reveal_strlit("Enabled"); assert(table[2].0 == "Enabled"@); assert("Enabled"@.len() != "Center"@.len()); } else if j == 3 { reveal_strlit("Disabled"); assert(table[3].0 == "Disabled"@); assert("Disabled"@.len() != "Center"@.len()); } else if j == 4 { reveal_strlit("Auto"); assert(table[4].0 == "Auto"@); assert("Auto"@.len() != "Center"@.len()); } else if j == 5 { reveal_strlit("Always"); assert(table[5].0 == "Always"@); assert("Always"@[0] != "Center"@[0]); } else if j == 6 { reveal_strlit("Never"); assert(table[6].0 == "Never"@); assert("Never"@.len() != "Center"@.len()); } else if j == 7 { reveal_strlit("Left"); assert(table[7].0 == "Left"@); assert("Left"@.len() != "Center"@.len()); } else if j == 8 { reveal_strlit("Right"); assert(table[8].0 == "Right"@); assert("Right"@.len() != "Center"@.len()); } else if j == 9 { reveal_strlit("Top"); assert(table[9].0 == "Top"@); assert("Top"@.len() != "Center"@.len()); } else if j == 10 { reveal_strlit("Bottom"); assert(table[10].0 == "Bottom"@); assert("Bottom"@[0] != "Center"@[0]); }
    }
    lemma_lookup_at(table, 11);
}

proof fn lemma_label_static()
    ensures
        localized_label("Static"@) == "固定"@,
{
    reveal_strlit("Static");
    lemma_plain_name_normalized("Static"@);
    let table = variant_label_table();
    assert(table[12] == ("Static"@, "固定"@));
    assert forall|j: int| 0 <= j < 12 implies #[trigger] table[j].0 != table[12].0 by {
        if j == 0 { reveal_strlit("On"); assert(table[0].0 == "On"@); assert("On"@.len() != "Static"@.len()); } else if j == 1 { reveal_strlit("Off"); assert(table[1].0 == "Off"@); assert("Off"@.len() != "Static"@.len()); } else if j == 2 { reveal_strlit("Enabled"); assert(table[2].0 == "Enabled"@); assert("Enabled"@.len() != "Static"@.len()); } else if j == 3 { reveal_strlit("Disabled"); assert(table[3].0 == "Disabled"@); assert("Disabled"@.len() != "Static"@.len()); } else if j == 4 { reveal_strlit("Auto"); assert(table[4].0 == "Auto"@); assert("Auto"@.len() != "Static"@.len()); } else if j == 5 { reveal_strlit("Always"); assert(table[5].0 == "Always"@); assert("Always"@[0] != "Static"@[0]); } else if j == 6 { reveal_strlit("Never"); assert(table[6].0 == "Never"@); assert("Never"@.len() != "Static"@.len()); } else if j == 7 { reveal_strlit("Left"); assert(table[7].0 == "Left"@); assert("Left"@.len() != "Static"@.len()); } else if j == 8 { reveal_strlit("Right"); assert(table[8].0 == "Right"@); assert("Right"@.len() != "Static"@.len()); } else if j == 9 { reveal_strlit("Top"); assert(table[9].0 == "Top"@); assert("Top"@.len() != "Static"@.len()); } else if j == 10 { reveal_strlit("Bottom"); assert(table[10].0 == "Bottom"@); assert("Bottom"@[0] != "Static"@[0]); } else if j == 11 { reveal_strlit("Center"); assert(table[11].0 == "Center"@); assert("Center"@[0] != "Static"@[0]); }
    }
    lemma_lookup_at(table, 12);
}

proof fn lemma_label_dynamic()
    ensures
        localized_label("Dynamic"@) == "动态"@,
{
    reveal_strlit("Dynamic");
    lemma_plain_name_normalized("Dynamic"@);
    let table = variant_label_table();
    assert(table[13] == ("Dynamic"@, "动态"@));
    assert forall|j: int| 0 <= j < 13 implies #[trigger] table[j].0 != table[13].0 by {
        if j == 0 { reveal_strlit("On"); assert(table[0].0 == "On"@); assert("On"@.len() != "Dynamic"@.len()); } else if j == 1 { reveal_strlit("Off"); assert(table[1].0 == "Off"@); assert("Off"@.len() != "Dynamic"@.len()); } else if j == 2 { reveal_strlit("Enabled"); assert(table[2].0 == "Enabled"@); assert("Enabled"@[0] != "Dynamic"@[0]); } else if j == 3 { reveal_strlit("Disabled"); assert(table[3].0 == "Disabled"@); assert("Disabled"@.len() != "Dynamic"@.len()); } else if j == 4 { reveal_strlit("Auto"); assert(table[4].0 == "Auto"@); assert("Auto"@.len() != "Dynamic"@.len()); } else if j == 5 { reveal_strlit("Always"); assert(table[5].0 == "Always"@); assert("Always"@.len() != "Dynamic"@.len()); } else if j == 6 { reveal_strlit("Never"); assert(table[6].0 == "Never"@); assert("Never"@.len() != "Dynamic"@.len()); } else if j == 7 { reveal_strlit("Left"); assert(table[7].0 == "Left"@); assert("Left"@.len() != "Dynamic"@.len()); } else if j == 8 { reveal_strlit("Right"); assert(table[8].0 == "Right"@); assert("Right"@.len() != "Dynamic"@.len()); } else if j == 9 { reveal_strlit("Top"); assert(table[9].0 == "Top"@); assert("Top"@.len() != "Dynamic"@.len()); } else if j == 10 { reveal_strlit("Bottom"); assert(table[10].0 == "Bottom"@); assert("Bottom"@.len() != "Dynamic"@.len()); } else if j == 11 { reveal_strlit("Center"); assert(table[11].0 == "Center"@); assert("Center"@.len() != "Dynamic"@.len()); } else if j == 12 { reveal_strlit("Static"); assert(table[12].0 == "Static"@); assert("Static"@.len() != "Dynamic"@.len()); }
    }
    lemma_lookup_at(table, 13);
}

proof fn lemma_label_system()
    ensures
        localized_label("System"@) == "跟随系统"@,
{
    reveal_strlit("System");
    lemma_plain_name_normalized("System"@);
    let table = variant_label_table();
    assert(table[14] == ("System"@, "跟随系统"@));
    assert forall|j: int| 0 <= j < 14 implies #[trigger] table[j].0 != table[14].0 by {
        if j == 0 { reveal_strlit("On"); assert(table[0].0 == "On"@); assert("On"@.len() != "System"@.len()); } else if j == 1 { reveal_strlit("Off"); assert(table[1].0 == "Off"@); assert("Off"@.len() != "System"@.len()); } else if j == 2 { reveal_strlit("Enabled"); assert(table[2].0 == "Enabled"@); assert("Enabled"@.len() != "System"@.len()); } else if j == 3 { reveal_strlit("Disabled"); assert(table[3].0 == "Disabled"@); assert("Disabled"@.len() != "System"@.len()); } else if j == 4 { reveal_strlit("Auto"); assert(table[4].0 == "Auto"@); assert("Auto"@.len() != "System"@.len()); } else if j == 5 { reveal_strlit("Always"); assert(table[5].0 == "Always"@); assert("Always"@[0] != "System"@[0]); } else if j == 6 { reveal_strlit("Never"); assert(table[6].0 == "Never"@); assert("Never"@.len() != "System"@.len()); } else if j == 7 { reveal_strlit("Left"); assert(table[7].0 == "Left"@); assert("Left"@.len() != "System"@.len()); } else if j == 8 { reveal_strlit("Right"); assert(table[8].0 == "Right"@); assert("Right"@.len() != "System"@.len()); } else if j == 9 { reveal_strlit("Top"); assert(table[9].0 == "Top"@); assert("Top"@.len() != "System"@.len()); } else if j == 10 { reveal_strlit("Bottom"); assert(table[10].0 == "Bottom"@); assert("Bottom"@[0] != "System"@[0]); } else if j == 11 { reveal_strlit("Center"); assert(table[11].0 == "Center"@); assert("Center"@[0] != "System"@[0]); } else if j == 12 { reveal_strlit("Static"); assert(table[12].0 == "Static"@); assert("Static"@[1] != "System"@[1]); } else if j == 13 { reveal_strlit("Dynamic"); assert(table[13].0 == "Dynamic"@); assert("Dynamic"@.len() != "System"@.len()); }
    }
    lemma_lookup_at(table, 14);
}

proof fn lemma_label_light()
    ensures
        localized_label("Light"@) == "浅色"@,
{
    reveal_strlit("Light");
    lemma_plain_name_normalized("Light"@);
    let table = variant_label_table();
    assert(table[15] == ("Light"@, "浅色"@));
    assert forall|j: int| 0 <= j < 15 implies #[trigger] table[j].0 != table[15].0 by {
        if j == 0 { reveal_strlit("On"); assert(table[0].0 == "On"@); assert("On"@.len() != "Light"@.len()); } else if j == 1 { reveal_strlit("Off"); assert(table[1].0 == "Off"@); assert("Off"@.len() != "Light"@.len()); } else if j == 2 { reveal_strlit("Enabled"); assert(table[2].0 == "Enabled"@); assert("Enabled"@.len() != "Light"@.len()); } else if j == 3 { reveal_strlit("Disabled"); assert(table[3].0 == "Disabled"@); assert("Disabled"@.len() != "Light"@.len()); } else if j == 4 { reveal_strlit("Auto"); assert(table[4].0 == "Auto"@); assert("Auto"@.len() != "Light"@.len()); } else if j == 5 { reveal_strlit("Always"); assert(table[5].0 == "Always"@); assert("Always"@.len() != "Light"@.len()); } else if j == 6 { reveal_strlit("Never"); assert(table[6].0 == "Never"@); assert("Never"@[0] != "Light"@[0]); } else if j == 7 { reveal_strlit("Left"); assert(table[7].0 == "Left"@); assert("Left"@.len() != "Light"@.len()); } else if j == 8 { reveal_strlit("Right"); assert(table[8].0 == "Right"@); assert("Right"@[0] != "Light"@[0]); } else if j == 9 { reveal_strlit("Top"); assert(table[9].0 == "Top"@); assert("Top"@.len() != "Light"@.len()); } else if j == 10 { reveal_strlit("Bottom"); assert(table[10].0 == "Bottom"@); assert("Bottom"@.len() != "Light"@.len()); } else if j == 11 { reveal_strlit("Center"); assert(table[11].0 == "Center"@); assert("Center"@.len() != "Light"@.len()); } else if j == 12 { reveal_strlit("Static"); assert(table[12].0 == "Static"@); assert("Static"@.len() != "Light"@.len()); } else if j == 13 { reveal_strlit("Dynamic"); assert(table[13].0 == "Dynamic"@); assert("Dynamic"@.len() != "Light"@.len()); } else if j == 14 { reveal_strlit("System"); assert(table[14].0 == "System"@); assert("System"@.len() != "Light"@.len()); }
    }
    lemma_lookup_at(table, 15);
}

proof fn lemma_label_dark()
    ensures
        localized_label("Dark"@) == "深色"@,
{
    reveal_strlit("Dark");
    lemma_plain_name_normalized("Dark"@);
    let table = variant_label_table();
    assert(table[16] == ("Dark"@, "深色"@));
    assert forall|j: int| 0 <= j < 16 implies #[trigger] table[j].0 != table[16].0 by {
        if j == 0 { reveal_strlit("On"); assert(table[0].0 == "On"@); assert("On"@.len() != "Dark"@.len()); } else if j == 1 { reveal_strlit("Off"); assert(table[1].0 == "Off"@); assert("Off"@.len() != "Dark"@.len()); } else if j == 2 { reveal_strlit("Enabled"); assert(table[2].0 == "Enabled"@); assert("Enabled"@.len() != "Dark"@.len()); } else if j == 3 { reveal_strlit("Disabled"); assert(table[3].0 == "Disabled"@); assert("Disabled"@.len() != "Dark"@.len()); } else if j == 4 { reveal_strlit("Auto"); assert(table[4].0 == "Auto"@); assert("Auto"@[0] != "Dark"@[0]); } else if j == 5 { reveal_strlit("Always"); assert(table[5].0 == "Always"@); assert("Always"@.len() != "Dark"@.len()); } else if j == 6 { reveal_strlit("Never"); assert(table[6].0 == "Never"@); assert("Never"@.len() != "Dark"@.len()); } else if j == 7 { reveal_strlit("Left"); assert(table[7].0 == "Left"@); assert("Left"@[0] != "Dark"@[0]); } else if j == 8 { reveal_strlit("Right"); assert(table[8].0 == "Right"@); assert("Right"@.len() != "Dark"@.len()); } else if j == 9 { reveal_strlit("Top"); assert(table[9].0 == "Top"@); assert("Top"@.len() != "Dark"@.len()); } else if j == 10 { reveal_strlit("Bottom"); assert(table[10].0 == "Bottom"@); assert("Bottom"@.len() != "Dark"@.len()); } else if j == 11 { reveal_strlit("Center"); assert(table[11].0 == "Center"@); assert("Center"@.len() != "Dark"@.len()); } else if j == 12 { reveal_strlit("Static"); assert(table[12].0 == "Static"@); assert("Static"@.len() != "Dark"@.len()); } else if j == 13 { reveal_strlit("Dynamic"); assert(table[13].0 == "Dynamic"@); assert("Dynamic"@.len() != "Dark"@.len()); } else if j == 14 { reveal_strlit("System"); assert(table[14].0 == "System"@); assert("System"@.len() != "Dark"@.len()); } else if j == 15 { reveal_strlit("Light"); assert(table[15].0 == "Light"@); assert("Light"@.len() != "Dark"@.len()); }
    }
    lemma_lookup_at(table, 16);
}

proof fn lemma_label_comfortable()
    ensures
        localized_label("Comfortable"@) == "舒适"@,
{
    reveal_strlit("Comfortable");
    lemma_plain_name_normalized("Comfortable"@);
    let table = variant_label_table();
    assert(table[17] == ("Comfortable"@, "舒适"@));
    assert forall|j: int| 0 <= j < 17 implies #[trigger] table[j].0 != table[17].0 by {
        if j == 0 { reveal_strlit("On"); assert(table[0].0 == "On"@); assert("On"@.len() != "Comfortable"@.len()); } else if j == 1 { reveal_strlit("Off"); assert(table[1].0 == "Off"@); assert("Off"@.len() != "Comfortable"@.len()); } else if j == 2 { reveal_strlit("Enabled"); assert(table[2].0 == "Enabled"@); assert("Enabled"@.len() != "Comfortable"@.len()); } else if j == 3 { reveal_strlit("Disabled"); assert(table[3].0 == "Disabled"@); assert("Disabled"@.len() != "Comfortable"@.len()); } else if j == 4 { reveal_strlit("Auto"); assert(table[4].0 == "Auto"@); assert("Auto"@.len() != "Comfortable"@.len()); } else if j == 5 { reveal_strlit("Always"); assert(table[5].0 == "Always"@); assert("Always"@.len() != "Comfortable"@.len()); } else if j == 6 { reveal_strlit("Never"); assert(table[6].0 == "Never"@); assert("Never"@.len() != "Comfortable"@.len()); } else if j == 7 { reveal_strlit("Left"); assert(table[7].0 == "Left"@); assert("Left"@.len() != "Comfortable"@.len()); } else if j == 8 { reveal_strlit("Right"); assert(table[8].0 == "Right"@); assert("Right"@.len() != "Comfortable"@.len()); } else if j == 9 { reveal_strlit("Top"); assert(table[9].0 == "Top"@); assert("Top"@.len() != "Comfortable"@.len()); } else if j == 10 { reveal_strlit("Bottom"); assert(table[10].0 == "Bottom"@); assert("Bottom"@.len() != "Comfortable"@.len()); } else if j == 11 { reveal_strlit("Center"); assert(table[11].0 == "Center"@); assert("Center"@.len() != "Comfortable"@.len()); } else if j == 12 { reveal_strlit("Static"); assert(table[12].0 == "Static"@); assert("Static"@.len() != "Comfortable"@.len()); } else if j == 13 { reveal_strlit("Dynamic"); assert(table[13].0 == "Dynamic"@); assert("Dynamic"@.len() != "Comfortable"@.len()); } else if j == 14 { reveal_strlit("System"); assert(table[14].0 == "System"@); assert("System"@.len() != "Comfortable"@.len()); } else if j == 15 { reveal_strlit("Light"); assert(table[15].0 == "Light"@); assert("Light"@.len() != "Comfortable"@.len()); } else if j == 16 { reveal_strlit("Dark"); assert(table[16].0 == "Dark"@); assert("Dark"@.len() != "Comfortable"@.len()); }
    }
    lemma_lookup_at(table, 17);
}

proof fn lemma_label_standard()
    ensures
        localized_label("Standard"@) == "标准"@,
{
    reveal_strlit("Standard");
    lemma_plain_name_normalized("Standard"@);
    let table = variant_label_table();
    assert(table[18] == ("Standard"@, "标准"@));
    assert forall|j: int| 0 <= j < 18 implies #[trigger] table[j].0 != table[18].0 by {
        if j == 0 { reveal_strlit("On"); assert(table[0].0 == "On"@); assert("On"@.len() != "Standard"@.len()); } else if j == 1 { reveal_strlit("Off"); assert(table[1].0 == "Off"@); assert("Off"@.len() != "Standard"@.len()); } else if j == 2 { reveal_strlit("Enabled"); assert(table[2].0 == "Enabled"@); assert("Enabled"@.len() != "Standard"@.len()); } else if j == 3 { reveal_strlit("Disabled"); assert(table[3].0 == "Disabled"@); assert("Disabled"@[0] != "Standard"@[0]); } else if j == 4 { reveal_strlit("Auto"); assert(table[4].0 == "Auto"@); assert("Auto"@.len() != "Standard"@.len()); } else if j == 5 { reveal_strlit("Always"); assert(table[5].0 == "Always"@); assert("Always"@.len() != "Standard"@.len()); } else if j == 6 { reveal_strlit("Never"); assert(table[6].0 == "Never"@); assert("Never"@.len() != "Standard"@.len()); } else if j == 7 { reveal_strlit("Left"); assert(table[7].0 == "Left"@); assert("Left"@.len() != "Standard"@.len()); } else if j == 8 { reveal_strlit("Right"); assert(table[8].0 == "Right"@); assert("Right"@.len() != "Standard"@.len()); } else if j == 9 { reveal_strlit("Top"); assert(table[9].0 == "Top"@); assert("Top"@.len() != "Standard"@.len()); } else if j == 10 { reveal_strlit("Bottom"); assert(table[10].0 == "Bottom"@); assert("Bottom"@.len() != "Standard"@.len()); } else if j == 11 { reveal_strlit("Center"); assert(table[11].0 == "Center"@); assert("Center"@.len() != "Standard"@.len()); } else if j == 12 { reveal_strlit("Static"); assert(table[12].0 == "Static"@); assert("Static"@.len() != "Standard"@.len()); } else if j == 13 { reveal_strlit("Dynamic"); assert(table[13].0 == "Dynamic"@); assert("Dynamic"@.len() != "Standard"@.len()); } else if j == 14 { reveal_strlit("System"); assert(table[14].0 == "System"@); assert("System"@.len() != "Standard"@.len()); } else if j == 15 { reveal_strlit("Light"); assert(table[15].0 == "Light"@); assert("Light"@.len() != "Standard"@.len()); } else if j == 16 { reveal_strlit("Dark"); assert(table[16].0 == "Dark"@); assert("Dark"@.len() != "Standard"@.len()); } else if j == 17 { reveal_strlit("Comfortable"); assert(table[17].0 == "Comfortable"@); assert("Comfortable"@.len() != "Standard"@.len()); }
    }
    lemma_lookup_at(table, 18);
}

proof fn lemma_label_custom()
    ensures
        localized_label("Custom"@) == "自定义"@,
{
    reveal_strlit("Custom");
    lemma_plain_name_normalized("Custom"@);
    let table = variant_label_table();
    assert(table[19] == ("Custom"@, "自定义"@));
    assert forall|j: int| 0 <= j < 19 implies #[trigger] table[j].0 != table[19].0 by {
        if j == 0 { reveal_strlit("On"); assert(table[0].0 == "On"@); assert("On"@.len() != "Custom"@.len()); } else if j == 1 { reveal_strlit("Off"); assert(table[1].0 == "Off"@); assert("Off"@.len() != "Custom"@.len()); } else if j == 2 { reveal_strlit("Enabled"); assert(table[2].0 == "Enabled"@); assert("Enabled"@.len() != "Custom"@.len()); } else if j == 3 { reveal_strlit("Disabled"); assert(table[3].0 == "Disabled"@); assert("Disabled"@.len() != "Custom"@.len()); } else if j == 4 { reveal_strlit("Auto"); assert(table[4].0 == "Auto"@); assert("Auto"@.len() != "Custom"@.len()); } else if j == 5 { reveal_strlit("Always"); assert(table[5].0 == "Always"@); assert("Always"@[0] != "Custom"@[0]); } else if j == 6 { reveal_strlit("Never"); assert(table[6].0 == "Never"@); assert("Never"@.len() != "Custom"@.len()); } else if j == 7 { reveal_strlit("Left"); assert(table[7].0 == "Left"@); assert("Left"@.len() != "Custom"@.len()); } else if j == 8 { reveal_strlit("Right"); assert(table[8].0 == "Right"@); assert("Right"@.len() != "Custom"@.len()); } else if j == 9 { reveal_strlit("Top"); assert(table[9].0 == "Top"@); assert("Top"@.len() != "Custom"@.len()); } else if j == 10 { reveal_strlit("Bottom"); assert(table[10].0 == "Bottom"@); assert("Bottom"@[0] != "Custom"@[0]); } else if j == 11 { reveal_strlit("Center"); assert(table[11].0 == "Center"@); assert("Center"@[1] != "Custom"@[1]); } else if j == 12 { reveal_strlit("Static"); assert(table[12].0 == "Static"@); assert("Static"@[0] != "Custom"@[0]); } else if j == 13 { reveal_strlit("Dynamic"); assert(table[13].0 == "Dynamic"@); assert("Dynamic"@.len() != "Custom"@.len()); } else if j == 14 { reveal_strlit("System"); assert(table[14].0 == "System"@); assert("System"@[0] != "Custom"@[0]); } else if j == 15 { reveal_strlit("Light"); assert(table[15].0 == "Light"@); assert("Light"@.len() != "Custom"@.len()); } else if j == 16 { reveal_strlit("Dark"); assert(table[16].0 == "Dark"@); assert("Dark"@.len() != "Custom"@.len()); } else if j == 17 { reveal_strlit("Comfortable"); assert(table[17].0 == "Comfortable"@); assert("Comfortable"@.len() != "Custom"@.len()); } else if j == 18 { reveal_strlit("Standard"); assert(table[18].0 == "Standard"@); assert("Standard"@.len() != "Custom"@.len()); }
    }
    lemma_lookup_at(table, 19);
}

proof fn lemma_label_after_delay()
    ensures
        localized_label("AfterDelay"@) == "延迟后"@,
{
    reveal_strlit("AfterDelay");
    lemma_plain_name_normalized("AfterDelay"@);
    let table = variant_label_table();
    assert(table[20] == ("AfterDelay"@, "延迟后"@));
    assert forall|j: int| 0 <= j < 20 implies #[trigger] table[j].0 != table[20].0 by {
        if j == 0 { reveal_strlit("On"); assert(table[0].0 == "On"@); assert("On"@.len() != "AfterDelay"@.len()); } else if j == 1 { reveal_strlit("Off"); assert(table[1].0 == "Off"@); assert("Off"@.len() != "AfterDelay"@.len()); } else if j == 2 { reveal_strlit("Enabled"); assert(table[2].0 == "Enabled"@); assert("Enabled"@.len() != "AfterDelay"@.len()); } else if j == 3 { reveal_strlit("Disabled"); assert(table[3].0 == "Disabled"@); assert("Disabled"@.len() != "AfterDelay"@.len()); } else if j == 4 { reveal_strlit("Auto"); assert(table[4].0 == "Auto"@); assert("Auto"@.len() != "AfterDelay"@.len()); } else if j == 5 { reveal_strlit("Always"); assert(table[5].0 == "Always"@); assert("Always"@.len() != "AfterDelay"@.len()); } else if j == 6 { reveal_strlit("Never"); assert(table[6].0 == "Never"@); assert("Never"@.len() != "AfterDelay"@.len()); } else if j == 7 { reveal_strlit("Left"); assert(table[7].0 == "Left"@); assert("Left"@.len() != "AfterDelay"@.len()); } else if j == 8 { reveal_strlit("Right"); assert(table[8].0 == "Right"@); assert("Right"@.len() != "AfterDelay"@.len()); } else if j == 9 { reveal_strlit("Top"); assert(table[9].0 == "Top"@); assert("Top"@.len() != "AfterDelay"@.len()); } else if j == 10 { reveal_strlit("Bottom"); assert(table[10].0 == "Bottom"@); assert("Bottom"@.len() != "AfterDelay"@.len()); } else if j == 11 { reveal_strlit("Center"); assert(table[11].0 == "Center"@); assert("Center"@.len() != "AfterDelay"@.len()); } else if j == 12 { reveal_strlit("Static"); assert(table[12].0 == "Static"@); assert("Static"@.len() != "AfterDelay"@.len()); } else if j == 13 { reveal_strlit("Dynamic"); assert(table[13].0 == "Dynamic"@); assert("Dynamic"@.len() != "AfterDelay"@.len()); } else if j == 14 { reveal_strlit("System"); assert(table[14].0 == "System"@); assert("System"@.len() != "AfterDelay"@.len()); } else if j == 15 { reveal_strlit("Light"); assert(table[15].0 == "Light"@); assert("Light"@.len() != "AfterDelay"@.len()); } else if j == 16 { reveal_strlit("Dark"); assert(table[16].0 == "Dark"@); assert("Dark"@.len() != "AfterDelay"@.len()); } else if j == 17 { reveal_strlit("Comfortable"); assert(table[17].0 == "Comfortable"@); assert("Comfortable"@.len() != "AfterDelay"@.len()); } else if j == 18 { reveal_strlit("Standard"); assert(table[18].0 == "Standard"@); assert("Standard"@.len() != "AfterDelay"@.len()); } else if j == 19 { reveal_strlit("Custom"); assert(table[19].0 == "Custom"@); assert("Custom"@.len() != "AfterDelay"@.len()); }
    }
    lemma_lookup_at(table, 20);
}

proof fn lemma_label_on_focus_change()
    ensures
        localized_label("OnFocusChange"@) == "失去焦点时"@,
{
    reveal_strlit("OnFocusChange");
    lemma_plain_name_normalized("OnFocusChange"@);
    let table = variant_label_table();
    assert(table[21] == ("OnFocusChange"@, "失去焦点时"@));
    assert forall|j: int| 0 <= j < 21 implies #[trigger] table[j].0 != table[21].0 by {
        if j == 0 { reveal_strlit("On"); assert(table[0].0 == "On"@); assert("On"@.len() != "OnFocusChange"@.len()); } else if j == 1 { reveal_strlit("Off"); assert(table[1].0 == "Off"@); assert("Off"@.len() != "OnFocusChange"@.len()); } else if j == 2 { reveal_strlit("Enabled"); assert(table[2].0 == "Enabled"@); assert("Enabled"@.len() != "OnFocusChange"@.len()); } else if j == 3 { reveal_strlit("Disabled"); assert(table[3].0 == "Disabled"@); assert("Disabled"@.len() != "OnFocusChange"@.len()); } else if j == 4 { reveal_strlit("Auto"); assert(table[4].0 == "Auto"@); assert("Auto"@.len() != "OnFocusChange"@.len()); } else if j == 5 { reveal_strlit("Always"); assert(table[5].0 == "Always"@); assert("Always"@.len() != "OnFocusChange"@.len()); } else if j == 6 { reveal_strlit("Never"); assert(table[6].0 == "Never"@); assert("Never"@.len() != "OnFocusChange"@.len()); } else if j == 7 { reveal_strlit("Left"); assert(table[7].0 == "Left"@); assert("Left"@.len() != "OnFocusChange"@.len()); } else if j == 8 { reveal_strlit("Right"); assert(table[8].0 == "Right"@); assert("Right"@.len() != "OnFocusChange"@.len()); } else if j == 9 { reveal_strlit("Top"); assert(table[9].0 == "Top"@); assert("Top"@.len() != "OnFocusChange"@.len()); } else if j == 10 { reveal_strlit("Bottom"); assert(table[10].0 == "Bottom"@); assert("Bottom"@.len() != "OnFocusChange"@.len()); } else if j == 11 { reveal_strlit("Center"); assert(table[11].0 == "Center"@); assert("Center"@.len() != "OnFocusChange"@.len()); } else if j == 12 { reveal_strlit("Static"); assert(table[12].0 == "Static"@); assert("Static"@.len() != "OnFocusChange"@.len()); } else if j == 13 { reveal_strlit("Dynamic"); assert(table[13].0 == "Dynamic"@); assert("Dynamic"@.len() != "OnFocusChange"@.len()); } else if j == 14 { reveal_strlit("System"); assert(table[14].0 == "System"@); assert("System"@.len() != "OnFocusChange"@.len()); } else if j == 15 { reveal_strlit("Light"); assert(table[15].0 == "Light"@); assert("Light"@.len() != "OnFocusChange"@.len()); } else if j == 16 { reveal_strlit("Dark"); assert(table[16].0 == "Dark"@); assert("Dark"@.len() != "OnFocusChange"@.len()); } else if j == 17 { reveal_strlit("Comfortable"); assert(table[17].0 == "Comfortable"@); assert("Comfortable"@.len() != "OnFocusChange"@.len()); } else if j == 18 { reveal_strlit("Standard"); assert(table[18].0 == "Standard"@); assert("Standard"@.len() != "OnFocusChange"@.len()); } else if j == 19 { reveal_strlit("Custom"); assert(table[19].0 == "Custom"@); assert("Custom"@.len() != "OnFocusChange"@.len()); } else if j == 20 { reveal_strlit("AfterDelay"); assert(table[20].0 == "AfterDelay"@); assert("AfterDelay"@.len() != "OnFocusChange"@.len()); }
    }
    lemma_lookup_at(table, 21);
}

proof fn lemma_label_on_window_change()
    ensures
        localized_label("OnWindowChange"@) == "窗口变化时"@,
{
    reveal_strlit("OnWindowChange");
    lemma_plain_name_normalized("OnWindowChange"@);
    let table = variant_label_table();
    assert(table[22] == ("OnWindowChange"@, "窗口变化时"@));
    assert forall|j: int| 0 <= j < 22 implies #[trigger] table[j].0 != table[22].0 by {
        if j == 0 { reveal_strlit("On"); assert(table[0].0 == "On"@); assert("On"@.len() != "OnWindowChange"@.len()); } else if j == 1 { reveal_strlit("Off"); assert(table[1].0 == "Off"@); assert("Off"@.len() != "OnWindowChange"@.len()); } else if j == 2 { reveal_strlit("Enabled"); assert(table[2].0 == "Enabled"@); assert("Enabled"@.len() != "OnWindowChange"@.len()); } else if j == 3 { reveal_strlit("Disabled"); assert(table[3].0 == "Disabled"@); assert("Disabled"@.len() != "OnWindowChange"@.len()); } else if j == 4 { reveal_strlit("Auto"); assert(table[4].0 == "Auto"@); assert("Auto"@.len() != "OnWindowChange"@.len()); } else if j == 5 { reveal_strlit("Always"); assert(table[5].0 == "Always"@); assert("Always"@.len() != "OnWindowChange"@.len()); } else if j == 6 { reveal_strlit("Never"); assert(table[6].0 == "Never"@); assert("Never"@.len() != "OnWindowChange"@.len()); } else if j == 7 { reveal_strlit("Left"); assert(table[7].0 == "Left"@); assert("Left"@.len() != "OnWindowChange"@.len()); } else if j == 8 { reveal_strlit("Right"); assert(table[8].0 == "Right"@); assert("Right"@.len() != "OnWindowChange"@.len()); } else if j == 9 { reveal_strlit("Top"); assert(table[9].0 == "Top"@); assert("Top"@.len() != "OnWindowChange"@.len()); } else if j == 10 { reveal_strlit("Bottom"); assert(table[10].0 == "Bottom"@); assert("Bottom"@.len() != "OnWindowChange"@.len()); } else if j == 11 { reveal_strlit("Center"); assert(table[11].0 == "Center"@); assert("Center"@.len() != "OnWindowChange"@.len()); } else if j == 12 { reveal_strlit("Static"); assert(table[12].0 == "Static"@); assert("Static"@.len() != "OnWindowChange"@.len()); } else if j == 13 { reveal_strlit("Dynamic"); assert(table[13].0 == "Dynamic"@); assert("Dynamic"@.len() != "OnWindowChange"@.len()); } else if j == 14 { reveal_strlit("System"); assert(table[14].0 == "System"@); assert("System"@.len() != "OnWindowChange"@.len()); } else if j == 15 { reveal_strlit("Light"); assert(table[15].0 == "Light"@); assert("Light"@.len() != "OnWindowChange"@.len()); } else if j == 16 { reveal_strlit("Dark"); assert(table[16].0 == "Dark"@); assert("Dark"@.len() != "OnWindowChange"@.len()); } else if j == 17 { reveal_strlit("Comfortable"); assert(table[17].0 == "Comfortable"@); assert("Comfortable"@.len() != "OnWindowChange"@.len()); } else if j == 18 { reveal_strlit("Standard"); assert(table[18].0 == "Standard"@); assert("Standard"@.len() != "OnWindowChange"@.len()); } else if j == 19 { reveal_strlit("Custom"); assert(table[19].0 == "Custom"@); assert("Custom"@.len() != "OnWindowChange"@.len()); } else if j == 20 { reveal_strlit("AfterDelay"); assert(table[20].0 == "AfterDelay"@); assert("AfterDelay"@.len() != "OnWindowChange"@.len()); } else if j == 21 { reveal_strlit("OnFocusChange"); assert(table[21].0 == "OnFocusChange"@); assert("OnFocusChange"@.len() != "OnWindowChange"@.len()); }
    }
    lemma_lookup_at(table, 22);
}

proof fn lemma_label_primary_screen()
    ensures
        localized_label("PrimaryScreen"@) == "主屏幕"@,
{
    reveal_strlit("PrimaryScreen");
    lemma_plain_name_normalized("PrimaryScreen"@);
    let table = variant_label_table();
    assert(table[23] == ("PrimaryScreen"@, "主屏幕"@));
    assert forall|j: int| 0 <= j < 23 implies #[trigger] table[j].0 != table[23].0 by {
        if j == 0 { reveal_strlit("On"); assert(table[0].0 == "On"@); assert("On"@.len() != "PrimaryScreen"@.len()); } else if j == 1 { reveal_strlit("Off"); assert(table[1].0 == "Off"@); assert("Off"@.len() != "PrimaryScreen"@.len()); } else if j == 2 { reveal_strlit("Enabled"); assert(table[2].0 == "Enabled"@); assert("Enabled"@.len() != "PrimaryScreen"@.len()); } else if j == 3 { reveal_strlit("Disabled"); assert(table[3].0 == "Disabled"@); assert("Disabled"@.len() != "PrimaryScreen"@.len()); } else if j == 4 { reveal_strlit("Auto"); assert(table[4].0 == "Auto"@); assert("Auto"@.len() != "PrimaryScreen"@.len()); } else if j == 5 { reveal_strlit("Always"); assert(table[5].0 == "Always"@); assert("Always"@.len() != "PrimaryScreen"@.len()); } else if j == 6 { reveal_strlit("Never"); assert(table[6].0 == "Never"@); assert("Never"@.len() != "PrimaryScreen"@.len()); } else if j == 7 { reveal_strlit("Left"); assert(table[7].0 == "Left"@); assert("Left"@.len() != "PrimaryScreen"@.len()); } else if j == 8 { reveal_strlit("Right"); assert(table[8].0 == "Right"@); assert("Right"@.len() != "PrimaryScreen"@.len()); } else if j == 9 { reveal_strlit("Top"); assert(table[9].0 == "Top"@); assert("Top"@.len() != "PrimaryScreen"@.len()); } else if j == 10 { reveal_strlit("Bottom"); assert(table[10].0 == "Bottom"@); assert("Bottom"@.len() != "PrimaryScreen"@.len()); } else if j == 11 { reveal_strlit("Center"); assert(table[11].0 == "Center"@); assert("Center"@.len() != "PrimaryScreen"@.len()); } else if j == 12 { reveal_strlit("Static"); assert(table[12].0 == "Static"@); assert("Static"@.len() != "PrimaryScreen"@.len()); } else if j == 13 { reveal_strlit("Dynamic"); assert(table[13].0 == "Dynamic"@); assert("Dynamic"@.len() != "PrimaryScreen"@.len()); } else if j == 14 { reveal_strlit("System"); assert(table[14].0 == "System"@); assert("System"@.len() != "PrimaryScreen"@.len()); } else if j == 15 { reveal_strlit("Light"); assert(table[15].0 == "Light"@); assert("Light"@.len() != "PrimaryScreen"@.len()); } else if j == 16 { reveal_strlit("Dark"); assert(table[16].0 == "Dark"@); assert("Dark"@.len() != "PrimaryScreen"@.len()); } else if j == 17 { reveal_strlit("Comfortable"); assert(table[17].0 == "Comfortable"@); assert("Comfortable"@.len() != "PrimaryScreen"@.len()); } else if j == 18 { reveal_strlit("Standard"); assert(table[18].0 == "Standard"@); assert("Standard"@.len() != "PrimaryScreen"@.len()); } else if j == 19 { reveal_strlit("Custom"); assert(table[19].0 == "Custom"@); assert("Custom"@.len() != "PrimaryScreen"@.len()); } else if j == 20 { reveal_strlit("AfterDelay"); assert(table[20].0 == "AfterDelay"@); assert("AfterDelay"@.len() != "PrimaryScreen"@.len()); } else if j == 21 { reveal_strlit("OnFocusChange"); assert(table[21].0 == "OnFocusChange"@); assert("OnFocusChange"@[0] != "PrimaryScreen"@[0]); } else if j == 22 { reveal_strlit("OnWindowChange"); assert(table[22].0 == "OnWindowChange"@); assert("OnWindowChange"@.len() != "PrimaryScreen"@.len()); }
    }
    lemma_lookup_at(table, 23);
}

proof fn lemma_label_all_screens()
    ensures
        localized_label("AllScreens"@) == "所有屏幕"@,
{
    reveal_strlit("AllScreens");
    lemma_plain_name_normalized("AllScreens"@);
    let table = variant_label_table();
    assert(table[24] == ("AllScreens"@, "所有屏幕"@));
    assert forall|j: int| 0 <= j < 24 implies #[trigger] table[j].0 != table[24].0 by {
        if j == 0 { reveal_strlit("On"); assert(table[0].0 == "On"@); assert("On"@.len() != "AllScreens"@.len()); } else if j == 1 { reveal_strlit("Off"); assert(table[1].0 == "Off"@); assert("Off"@.len() != "AllScreens"@.len()); } else if j == 2 { reveal_strlit("Enabled"); assert(table[2].0 == "Enabled"@); assert("Enabled"@.len() != "AllScreens"@.len()); } else if j == 3 { reveal_strlit("Disabled"); assert(table[3].0 == "Disabled"@); assert("Disabled"@.len() != "AllScreens"@.len()); } else if j == 4 { reveal_strlit("Auto"); assert(table[4].0 == "Auto"@); assert("Auto"@.len() != "AllScreens"@.len()); } else if j == 5 { reveal_strlit("Always"); assert(table[5].0 == "Always"@); assert("Always"@.len() != "AllScreens"@.len()); } else if j == 6 { reveal_strlit("Never"); assert(table[6].0 == "Never"@); assert("Never"@.len() != "AllScreens"@.len()); } else if j == 7 { reveal_strlit("Left"); assert(table[7].0 == "Left"@); assert("Left"@.len() != "AllScreens"@.len()); } else if j == 8 { reveal_strlit("Right"); assert(table[8].0 == "Right"@); assert("Right"@.len() != "AllScreens"@.len()); } else if j == 9 { reveal_strlit("Top"); assert(table[9].0 == "Top"@); assert("Top"@.len() != "AllScreens"@.len()); } else if j == 10 { reveal_strlit("Bottom"); assert(table[10].0 == "Bottom"@); assert("Bottom"@.len() != "AllScreens"@.len()); } else if j == 11 { reveal_strlit("Center"); assert(table[11].0 == "Center"@); assert("Center"@.len() != "AllScreens"@.len()); } else if j == 12 { reveal_strlit("Static"); assert(table[12].0 == "Static"@); assert("Static"@.len() != "AllScreens"@.len()); } else if j == 13 { reveal_strlit("Dynamic"); assert(table[13].0 == "Dynamic"@); assert("Dynamic"@.len() != "AllScreens"@.len()); } else if j == 14 { reveal_strlit("System"); assert(table[14].0 == "System"@); assert("System"@.len() != "AllScreens"@.len()); } else if j == 15 { reveal_strlit("Light"); assert(table[15].0 == "Light"@); assert("Light"@.len() != "AllScreens"@.len()); } else if j == 16 { reveal_strlit("Dark"); assert(table[16].0 == "Dark"@); assert("Dark"@.len() != "AllScreens"@.len()); } else if j == 17 { reveal_strlit("Comfortable"); assert(table[17].0 == "Comfortable"@); assert("Comfortable"@.len() != "AllScreens"@.len()); } else if j == 18 { reveal_strlit("Standard"); assert(table[18].0 == "Standard"@); assert("Standard"@.len() != "AllScreens"@.len()); } else if j == 19 { reveal_strlit("Custom"); assert(table[19].0 == "Custom"@); assert("Custom"@.len() != "AllScreens"@.len()); } else if j == 20 { reveal_strlit("AfterDelay"); assert(table[20].0 == "AfterDelay"@); assert("AfterDelay"@[1] != "AllScreens"@[1]); } else if j == 21 { reveal_strlit("OnFocusChange"); assert(table[21].0 == "OnFocusChange"@); assert("OnFocusChange"@.len() != "AllScreens"@.len()); } else if j == 22 { reveal_strlit("OnWindowChange"); assert(table[22].0 == "OnWindowChange"@); assert("OnWindowChange"@.len() != "AllScreens"@.len()); } else if j == 23 { reveal_strlit("PrimaryScreen"); assert(table[23].0 == "PrimaryScreen"@); assert("PrimaryScreen"@.len() != "AllScreens"@.len()); }
    }
    lemma_lookup_at(table, 24);
}

proof fn lemma_label_current_screen()
    ensures
        localized_label("CurrentScreen"@) == "当前屏幕"@,
{
    reveal_strlit("CurrentScreen");
    lemma_plain_name_normalized("CurrentScreen"@);
    let table = variant_label_table();
    assert(table[25] == ("CurrentScreen"@, "当前屏幕"@));
    assert forall|j: int| 0 <= j < 25 implies #[trigger] table[j].0 != table[25].0 by {
        if j == 0 { reveal_strlit("On"); assert(table[0].0 == "On"@); assert("On"@.len() != "CurrentScreen"@.len()); } else if j == 1 { reveal_strlit("Off"); assert(table[1].0 == "Off"@); assert("Off"@.len() != "CurrentScreen"@.len()); } else if j == 2 { reveal_strlit("Enabled"); assert(table[2].0 == "Enabled"@); assert("Enabled"@.len() != "CurrentScreen"@.len()); } else if j == 3 { reveal_strlit("Disabled"); assert(table[3].0 == "Disabled"@); assert("Disabled"@.len() != "CurrentScreen"@.len()); } else if j == 4 { reveal_strlit("Auto"); assert(table[4].0 == "Auto"@); assert("Auto"@.len() != "CurrentScreen"@.len()); } else if j == 5 { reveal_strlit("Always"); assert(table[5].0 == "Always"@); assert("Always"@.len() != "CurrentScreen"@.len()); } else if j == 6 { reveal_strlit("Never"); assert(table[6].0 == "Never"@); assert("Never"@.len() != "CurrentScreen"@.len()); } else if j == 7 { reveal_strlit("Left"); assert(table[7].0 == "Left"@); assert("Left"@.len() != "CurrentScreen"@.len()); } else if j == 8 { reveal_strlit("Right"); assert(table[8].0 == "Right"@); assert("Right"@.len() != "CurrentScreen"@.len()); } else if j == 9 { reveal_strlit("Top"); assert(table[9].0 == "Top"@); assert("Top"@.len() != "CurrentScreen"@.len()); } else if j == 10 { reveal_strlit("Bottom"); assert(table[10].0 == "Bottom"@); assert("Bottom"@.len() != "CurrentScreen"@.len()); } else if j == 11 { reveal_strlit("Center"); assert(table[11].0 == "Center"@); assert("Center"@.len() != "CurrentScreen"@.len()); } else if j == 12 { reveal_strlit("Static"); assert(table[12].0 == "Static"@); assert("Static"@.len() != "CurrentScreen"@.len()); } else if j == 13 { reveal_strlit("Dynamic"); assert(table[13].0 == "Dynamic"@); assert("Dynamic"@.len() != "CurrentScreen"@.len()); } else if j == 14 { reveal_strlit("System"); assert(table[14].0 == "System"@); assert("System"@.len() != "CurrentScreen"@.len()); } else if j == 15 { reveal_strlit("Light"); assert(table[15].0 == "Light"@); assert("Light"@.len() != "CurrentScreen"@.len()); } else if j == 16 { reveal_strlit("Dark"); assert(table[16].0 == "Dark"@); assert("Dark"@.len() != "CurrentScreen"@.len()); } else if j == 17 { reveal_strlit("Comfortable"); assert(table[17].0 == "Comfortable"@); assert("Comfortable"@.len() != "CurrentScreen"@.len()); } else if j == 18 { reveal_strlit("Standard"); assert(table[18].0 == "Standard"@); assert("Standard"@.len() != "CurrentScreen"@.len()); } else if j == 19 { reveal_strlit("Custom"); assert(table[19].0 == "Custom"@); assert("Custom"@.len() != "CurrentScreen"@.len()); } else if j == 20 { reveal_strlit("AfterDelay"); assert(table[20].0 == "AfterDelay"@); assert("AfterDelay"@.len() != "CurrentScreen"@.len()); } else if j == 21 { reveal_strlit("OnFocusChange"); assert(table[21].0 == "OnFocusChange"@); assert("OnFocusChange"@[0] != "CurrentScreen"@[0]); } else if j == 22 { reveal_strlit("OnWindowChange"); assert(table[22].0 == "OnWindowChange"@); assert("OnWindowChange"@.len() != "CurrentScreen"@.len()); } else if j == 23 { reveal_strlit("PrimaryScreen"); assert(table[23].0 == "PrimaryScreen"@); assert("PrimaryScreen"@[0] != "CurrentScreen"@[0]); } else if j == 24 { reveal_strlit("AllScreens"); assert(table[24].0 == "AllScreens"@); assert("AllScreens"@.len() != "CurrentScreen"@.len()); }
    }
    lemma_lookup_at(table, 25);
}

proof fn lemma_label_active_screen()
    ensures
        localized_label("ActiveScreen"@) == "活动屏幕"@,
{
    reveal_strlit("ActiveScreen");
    lemma_plain_name_normalized("ActiveScreen"@);
    let table = variant_label_table();
    assert(table[26] == ("ActiveScreen"@, "活动屏幕"@));
    assert forall|j: int| 0 <= j < 26 implies #[trigger] table[j].0 != table[26].0 by {
        if j == 0 { reveal_strlit("On"); assert(table[0].0 == "On"@); assert("On"@.len() != "ActiveScreen"@.len()); } else if j == 1 { reveal_strlit("Off"); assert(table[1].0 == "Off"@); assert("Off"@.len() != "ActiveScreen"@.len()); } else if j == 2 { reveal_strlit("Enabled"); assert(table[2].0 == "Enabled"@); assert("Enabled"@.len() != "ActiveScreen"@.len()); } else if j == 3 { reveal_strlit("Disabled"); assert(table[3].0 == "Disabled"@); assert("Disabled"@.len() != "ActiveScreen"@.len()); } else if j == 4 { reveal_strlit("Auto"); assert(table[4].0 == "Auto"@); assert("Auto"@.len() != "ActiveScreen"@.len()); } else if j == 5 { reveal_strlit("Always"); assert(table[5].0 == "Always"@); assert("Always"@.len() != "ActiveScreen"@.len()); } else if j == 6 { reveal_strlit("Never"); assert(table[6].0 == "Never"@); assert("Never"@.len() != "ActiveScreen"@.len()); } else if j == 7 { reveal_strlit("Left"); assert(table[7].0 == "Left"@); assert("Left"@.len() != "ActiveScreen"@.len()); } else if j == 8 { reveal_strlit("Right"); assert(table[8].0 == "Right"@); assert("Right"@.len() != "ActiveScreen"@.len()); } else if j == 9 { reveal_strlit("Top"); assert(table[9].0 == "Top"@); assert("Top"@.len() != "ActiveScreen"@.len()); } else if j == 10 { reveal_strlit("Bottom"); assert(table[10].0 == "Bottom"@); assert("Bottom"@.len() != "ActiveScreen"@.len()); } else if j == 11 { reveal_strlit("Center"); assert(table[11].0 == "Center"@); assert("Center"@.len() != "ActiveScreen"@.len()); } else if j == 12 { reveal_strlit("Static"); assert(table[12].0 == "Static"@); assert("Static"@.len() != "ActiveScreen"@.len()); } else if j == 13 { reveal_strlit("Dynamic"); assert(table[13].0 == "Dynamic"@); assert("Dynamic"@.len() != "ActiveScreen"@.len()); } else if j == 14 { reveal_strlit("System"); assert(table[14].0 == "System"@); assert("System"@.len() != "ActiveScreen"@.len()); } else if j == 15 { reveal_strlit("Light"); assert(table[15].0 == "Light"@); assert("Light"@.len() != "ActiveScreen"@.len()); } else if j == 16 { reveal_strlit("Dark"); assert(table[16].0 == "Dark"@); assert("Dark"@.len() != "ActiveScreen"@.len()); } else if j == 17 { reveal_strlit("Comfortable"); assert(table[17].0 == "Comfortable"@); assert("Comfortable"@.len() != "ActiveScreen"@.len()); } else if j == 18 { reveal_strlit("Standard"); assert(table[18].0 == "Standard"@); assert("Standard"@.len() != "ActiveScreen"@.len()); } else if j == 19 { reveal_strlit("Custom"); assert(table[19].0 == "Custom"@); assert("Custom"@.len() != "ActiveScreen"@.len()); } else if j == 20 { reveal_strlit("AfterDelay"); assert(table[20].0 == "AfterDelay"@); assert("AfterDelay"@.len() != "ActiveScreen"@.len()); } else if j == 21 { reveal_strlit("OnFocusChange"); assert(table[21].0 == "OnFocusChange"@); assert("OnFocusChange"@.len() != "ActiveScreen"@.len()); } else if j == 22 { reveal_strlit("OnWindowChange"); assert(table[22].0 == "OnWindowChange"@); assert("OnWindowChange"@.len() != "ActiveScreen"@.len()); } else if j == 23 { reveal_strlit("PrimaryScreen"); assert(table[23].0 == "PrimaryScreen"@); assert("PrimaryScreen"@.len() != "ActiveScreen"@.len()); } else if j == 24 { reveal_strlit("AllScreens"); assert(table[24].0 == "AllScreens"@); assert("AllScreens"@.len() != "ActiveScreen"@.len()); } else if j == 25 { reveal_strlit("CurrentScreen"); assert(table[25].0 == "CurrentScreen"@); assert("CurrentScreen"@.len() != "ActiveScreen"@.len()); }
    }
    lemma_lookup_at(table, 26);
}

proof fn lemma_label_platform_native()
    ensures
        localized_label("PlatformNative"@) == "系统原生"@,
{
    reveal_strlit("PlatformNative");
    lemma_plain_name_normalized("PlatformNative"@);
    let table = variant_label_table();
    assert(table[27] == ("PlatformNative"@, "系统原生"@));
    assert forall|j: int| 0 <= j < 27 implies #[trigger] table[j].0 != table[27].0 by {
        if j == 0 { reveal_strlit("On"); assert(table[0].0 == "On"@); assert("On"@.len() != "PlatformNative"@.len()); } else if j == 1 { reveal_strlit("Off"); assert(table[1].0 == "Off"@); assert("Off"@.len() != "PlatformNative"@.len()); } else if j == 2 { reveal_strlit("Enabled"); assert(table[2].0 == "Enabled"@); assert("Enabled"@.len() != "PlatformNative"@.len()); } else if j == 3 { reveal_strlit("Disabled"); assert(table[3].0 == "Disabled"@); assert("Disabled"@.len() != "PlatformNative"@.len()); } else if j == 4 { reveal_strlit("Auto"); assert(table[4].0 == "Auto"@); assert("Auto"@.len() != "PlatformNative"@.len()); } else if j == 5 { reveal_strlit("Always"); assert(table[5].0 == "Always"@); assert("Always"@.len() != "PlatformNative"@.len()); } else if j == 6 { reveal_strlit("Never"); assert(table[6].0 == "Never"@); assert("Never"@.len() != "PlatformNative"@.len()); } else if j == 7 { reveal_strlit("Left"); assert(table[7].0 == "Left"@); assert("Left"@.len() != "PlatformNative"@.len()); } else if j == 8 { reveal_strlit("Right"); assert(table[8].0 == "Right"@); assert("Right"@.len() != "PlatformNative"@.len()); } else if j == 9 { reveal_strlit("Top"); assert(table[9].0 == "Top"@); assert("Top"@.len() != "PlatformNative"@.len()); } else if j == 10 { reveal_strlit("Bottom"); assert(table[10].0 == "Bottom"@); assert("Bottom"@.len() != "PlatformNative"@.len()); } else if j == 11 { reveal_strlit("Center"); assert(table[11].0 == "Center"@); assert("Center"@.len() != "PlatformNative"@.len()); } else if j == 12 { reveal_strlit("Static"); assert(table[12].0 == "Static"@); assert("Static"@.len() != "PlatformNative"@.len()); } else if j == 13 { reveal_strlit("Dynamic"); assert(table[13].0 == "Dynamic"@); assert("Dynamic"@.len() != "PlatformNative"@.len()); } else if j == 14 { reveal_strlit("System"); assert(table[14].0 == "System"@); assert("System"@.len() != "PlatformNative"@.len()); } else if j == 15 { reveal_strlit("Light"); assert(table[15].0 == "Light"@); assert("Light"@.len() != "PlatformNative"@.len()); } else if j == 16 { reveal_strlit("Dark"); assert(table[16].0 == "Dark"@); assert("Dark"@.len() != "PlatformNative"@.len()); } else if j == 17 { reveal_strlit("Comfortable"); assert(table[17].0 == "Comfortable"@); assert("Comfortable"@.len() != "PlatformNative"@.len()); } else if j == 18 { reveal_strlit("Standard"); assert(table[18].0 == "Standard"@); assert("Standard"@.len() != "PlatformNative"@.len()); } else if j == 19 { reveal_strlit("Custom"); assert(table[19].0 == "Custom"@); assert("Custom"@.len() != "PlatformNative"@.len()); } else if j == 20 { reveal_strlit("AfterDelay"); assert(table[20].0 == "AfterDelay"@); assert("AfterDelay"@.len() != "PlatformNative"@.len()); } else if j == 21 { reveal_strlit("OnFocusChange"); assert(table[21].0 == "OnFocusChange"@); assert("OnFocusChange"@.len() != "PlatformNative"@.len()); } else if j == 22 { reveal_strlit("OnWindowChange"); assert(table[22].0 == "OnWindowChange"@); assert("OnWindowChange"@[0] != "PlatformNative"@[0]); } else if j == 23 { reveal_strlit("PrimaryScreen"); assert(table[23].0 == "PrimaryScreen"@); assert("PrimaryScreen"@.len() != "PlatformNative"@.len()); } else if j == 24 { reveal_strlit("AllScreens"); assert(table[24].0 == "AllScreens"@); assert("AllScreens"@.len() != "PlatformNative"@.len()); } else if j == 25 { reveal_strlit("CurrentScreen"); assert(table[25].0 == "CurrentScreen"@); assert("CurrentScreen"@.len() != "PlatformNative"@.len()); } else if j == 26 { reveal_strlit("ActiveScreen"); assert(table[26].0 == "ActiveScreen"@); assert("ActiveScreen"@.len() != "PlatformNative"@.len()); }
    }
    lemma_lookup_at(table, 27);
}

proof fn lemma_label_code()
    ensures
        localized_label("Code"@) == "代码"@,
{
    reveal_strlit("Code");
    lemma_plain_name_normalized("Code"@);
    let table = variant_label_table();
    assert(table[28] == ("Code"@, "代码"@));
    assert forall|j: int| 0 <= j < 28 implies #[trigger] table[j].0 != table[28].0 by {
        if j == 0 { reveal_strlit("On"); assert(table[0].0 == "On"@); assert("On"@.len() != "Code"@.len()); } else if j == 1 { reveal_strlit("Off"); assert(table[1].0 == "Off"@); assert("Off"@.len() != "Code"@.len()); } else if j == 2 { reveal_strlit("Enabled"); assert(table[2].0 == "Enabled"@); assert("Enabled"@.len() != "Code"@.len()); } else if j == 3 { reveal_strlit("Disabled"); assert(table[3].0 == "Disabled"@); assert("Disabled"@.len() != "Code"@.len()); } else if j == 4 { reveal_strlit("Auto"); assert(table[4].0 == "Auto"@); assert("Auto"@[0] != "Code"@[0]); } else if j == 5 { reveal_strlit("Always"); assert(table[5].0 == "Always"@); assert("Always"@.len() != "Code"@.len()); } else if j == 6 { reveal_strlit("Never"); assert(table[6].0 == "Never"@); assert("Never"@.len() != "Code"@.len()); } else if j == 7 { reveal_strlit("Left"); assert(table[7].0 == "Left"@); assert("Left"@[0] != "Code"@[0]); } else if j == 8 { reveal_strlit("Right"); assert(table[8].0 == "Right"@); assert("Right"@.len() != "Code"@.len()); } else if j == 9 { reveal_strlit("Top"); assert(table[9].0 == "Top"@); assert("Top"@.len() != "Code"@.len()); } else if j == 10 { reveal_strlit("Bottom"); assert(table[10].0 == "Bottom"@); assert("Bottom"@.len() != "Code"@.len()); } else if j == 11 { reveal_strlit("Center"); assert(table[11].0 == "Center"@); assert("Center"@.len() != "Code"@.len()); } else if j == 12 { reveal_strlit("Static"); assert(table[12].0 == "Static"@); assert("Static"@.len() != "Code"@.len()); } else if j == 13 { reveal_strlit("Dynamic"); assert(table[13].0 == "Dynamic"@); assert("Dynamic"@.len() != "Code"@.len()); } else if j == 14 { reveal_strlit("System"); assert(table[14].0 == "System"@); assert("System"@.len() != "Code"@.len()); } else if j == 15 { reveal_strlit("Light"); assert(table[15].0 == "Light"@); assert("Light"@.len() != "Code"@.len()); } else if j == 16 { reveal_strlit("Dark"); assert(table[16].0 == "Dark"@); assert("Dark"@[0] != "Code"@[0]); } else if j == 17 { reveal_strlit("Comfortable"); assert(table[17].0 == "Comfortable"@); assert("Comfortable"@.len() != "Code"@.len()); } else if j == 18 { reveal_strlit("Standard"); assert(table[18].0 == "Standard"@); assert("Standard"@.len() != "Code"@.len()); } else if j == 19 { reveal_strlit("Custom"); assert(table[19].0 == "Custom"@); assert("Custom"@.len() != "Code"@.len()); } else if j == 20 { reveal_strlit("AfterDelay"); assert(table[20].0 == "AfterDelay"@); assert("AfterDelay"@.len() != "Code"@.len()); } else if j == 21 { reveal_strlit("OnFocusChange"); assert(table[21].0 == "OnFocusChange"@); assert("OnFocusChange"@.len() != "Code"@.len()); } else if j == 22 { reveal_strlit("OnWindowChange"); assert(table[22].0 == "OnWindowChange"@); assert("OnWindowChange"@.len() != "Code"@.len()); } else if j == 23 { reveal_strlit("PrimaryScreen"); assert(table[23].0 == "PrimaryScreen"@); assert("PrimaryScreen"@.len() != "Code"@.len()); } else if j == 24 { reveal_strlit("AllScreens"); assert(table[24].0 == "AllScreens"@); assert("AllScreens"@.len() != "Code"@.len()); } else if j == 25 { reveal_strlit("CurrentScreen"); assert(table[25].0 == "CurrentScreen"@); assert("CurrentScreen"@.len() != "Code"@.len()); } else if j == 26 { reveal_strlit("ActiveScreen"); assert(table[26].0 == "ActiveScreen"@); assert("ActiveScreen"@.len() != "Code"@.len()); } else if j == 27 { reveal_strlit("PlatformNative"); assert(table[27].0 == "PlatformNative"@); assert("PlatformNative"@.len() != "Code"@.len()); }
    }
    lemma_lookup_at(table, 28);
}

proof fn lemma_label_file()
    ensures
        localized_label("File"@) == "文件"@,
{
    reveal_strlit("File");
    lemma_plain_name_normalized("File"@);
    let table = variant_label_table();
    assert(table[29] == ("File"@, "文件"@));
    assert forall|j: int| 0 <= j < 29 implies #[trigger] table[j].0 != table[29].0 by {
        if j == 0 { reveal_strlit("On"); assert(table[0].0 == "On"@); assert("On"@.len() != "File"@.len()); } else if j == 1 { reveal_strlit("Off"); assert(table[1].0 == "Off"@); assert("Off"@.len() != "File"@.len()); } else if j == 2 { reveal_strlit("Enabled"); assert(table[2].0 == "Enabled"@); assert("Enabled"@.len() != "File"@.len()); } else if j == 3 { reveal_strlit("Disabled"); assert(table[3].0 == "Disabled"@); assert("Disabled"@.len() != "File"@.len()); } else if j == 4 { reveal_strlit("Auto"); assert(table[4].0 == "Auto"@); assert("Auto"@[0] != "File"@[0]); } else if j == 5 { reveal_strlit("Always"); assert(table[5].0 == "Always"@); assert("Always"@.len() != "File"@.len()); } else if j == 6 { reveal_strlit("Never"); assert(table[6].0 == "Never"@); assert("Never"@.len() != "File"@.len()); } else if j == 7 { reveal_strlit("Left"); assert(table[7].0 == "Left"@); assert("Left"@[0] != "File"@[0]); } else if j == 8 { reveal_strlit("Right"); assert(table[8].0 == "Right"@); assert("Right"@.len() != "File"@.len()); } else if j == 9 { reveal_strlit("Top"); assert(table[9].0 == "Top"@); assert("Top"@.len() != "File"@.len()); } else if j == 10 { reveal_strlit("Bottom"); assert(table[10].0 == "Bottom"@); assert("Bottom"@.len() != "File"@.len()); } else if j == 11 { reveal_strlit("Center"); assert(table[11].0 == "Center"@); assert("Center"@.len() != "File"@.len()); } else if j == 12 { reveal_strlit("Static"); assert(table[12].0 == "Static"@); assert("Static"@.len() != "File"@.len()); } else if j == 13 { reveal_strlit("Dynamic"); assert(table[13].0 == "Dynamic"@); assert("Dynamic"@.len() != "File"@.len()); } else if j == 14 { reveal_strlit("System"); assert(table[14].0 == "System"@); assert("System"@.len() != "File"@.len()); } else if j == 15 { reveal_strlit("Light"); assert(table[15].0 == "Light"@); assert("Light"@.len() != "File"@.len()); } else if j == 16 { reveal_strlit("Dark"); assert(table[16].0 == "Dark"@); assert("Dark"@[0] != "File"@[0]); } else if j == 17 { reveal_strlit("Comfortable"); assert(table[17].0 == "Comfortable"@); assert("Comfortable"@.len() != "File"@.len()); } else if j == 18 { reveal_strlit("Standard"); assert(table[18].0 == "Standard"@); assert("Standard"@.len() != "File"@.len()); } else if j == 19 { reveal_strlit("Custom"); assert(table[19].0 == "Custom"@); assert("Custom"@.len() != "File"@.len()); } else if j == 20 { reveal_strlit("AfterDelay"); assert(table[20].0 == "AfterDelay"@); assert("AfterDelay"@.len() != "File"@.len()); } else if j == 21 { reveal_strlit("OnFocusChange"); assert(table[21].0 == "OnFocusChange"@); assert("OnFocusChange"@.len() != "File"@.len()); } else if j == 22 { reveal_strlit("OnWindowChange"); assert(table[22].0 == "OnWindowChange"@); assert("OnWindowChange"@.len() != "File"@.len()); } else if j == 23 { reveal_strlit("PrimaryScreen"); assert(table[23].0 == "PrimaryScreen"@); assert("PrimaryScreen"@.len() != "File"@.len()); } else if j == 24 { reveal_strlit("AllScreens"); assert(table[24].0 == "AllScreens"@); assert("AllScreens"@.len() != "File"@.len()); } else if j == 25 { reveal_strlit("CurrentScreen"); assert(table[25].0 == "CurrentScreen"@); assert("CurrentScreen"@.len() != "File"@.len()); } else if j == 26 { reveal_strlit("ActiveScreen"); assert(table[26].0 == "ActiveScreen"@); assert("ActiveScreen"@.len() != "File"@.len()); } else if j == 27 { reveal_strlit("PlatformNative"); assert(table[27].0 == "PlatformNative"@); assert("PlatformNative"@.len() != "File"@.len()); } else if j == 28 { reveal_strlit("Code"); assert(table[28].0 == "Code"@); assert("Code"@[0] != "File"@[0]); }
    }
    lemma_lookup_at(table, 29);
}

proof fn lemma_label_bar()
    ensures
        localized_label("Bar"@) == "条形"@,
{
    reveal_strlit("Bar");
    lemma_plain_name_normalized("Bar"@);
    let table = variant_label_table();
    assert(table[30] == ("Bar"@, "条形"@));
    assert forall|j: int| 0 <= j < 30 implies #[trigger] table[j].0 != table[30].0 by {
        if j == 0 { reveal_strlit("On"); assert(table[0].0 == "On"@); assert("On"@.len() != "Bar"@.len()); } else if j == 1 { reveal_strlit("Off"); assert(table[1].0 == "Off"@); assert("Off"@[0] != "Bar"@[0]); } else if j == 2 { reveal_strlit("Enabled"); assert(table[2].0 == "Enabled"@); assert("Enabled"@.len() != "Bar"@.len()); } else if j == 3 { reveal_strlit("Disabled"); assert(table[3].0 == "Disabled"@); assert("Disabled"@.len() != "Bar"@.len()); } else if j == 4 { reveal_strlit("Auto"); assert(table[4].0 == "Auto"@); assert("Auto"@.len() != "Bar"@.len()); } else if j == 5 { reveal_strlit("Always"); assert(table[5].0 == "Always"@); assert("Always"@.len() != "Bar"@.len()); } else if j == 6 { reveal_strlit("Never"); assert(table[6].0 == "Never"@); assert("Never"@.len() != "Bar"@.len()); } else if j == 7 { reveal_strlit("Left"); assert(table[7].0 == "Left"@); assert("Left"@.len() != "Bar"@.len()); } else if j == 8 { reveal_strlit("Right"); assert(table[8].0 == "Right"@); assert("Right"@.len() != "Bar"@.len()); } else if j == 9 { reveal_strlit("Top"); assert(table[9].0 == "Top"@); assert("Top"@[0] != "Bar"@[0]); } else if j == 10 { reveal_strlit("Bottom"); assert(table[10].0 == "Bottom"@); assert("Bottom"@.len() != "Bar"@.len()); } else if j == 11 { reveal_strlit("Center"); assert(table[11].0 == "Center"@); assert("Center"@.len() != "Bar"@.len()); } else if j == 12 { reveal_strlit("Static"); assert(table[12].0 == "Static"@); assert("Static"@.len() != "Bar"@.len()); } else if j == 13 { reveal_strlit("Dynamic"); assert(table[13].0 == "Dynamic"@); assert("Dynamic"@.len() != "Bar"@.len()); } else if j == 14 { reveal_strlit("System"); assert(table[14].0 == "System"@); assert("System"@.len() != "Bar"@.len()); } else if j == 15 { reveal_strlit("Light"); assert(table[15].0 == "Light"@); assert("Light"@.len() != "Bar"@.len()); } else if j == 16 { reveal_strlit("Dark"); assert(table[16].0 == "Dark"@); assert("Dark"@.len() != "Bar"@.len()); } else if j == 17 { reveal_strlit("Comfortable"); assert(table[17].0 == "Comfortable"@); assert("Comfortable"@.len() != "Bar"@.len()); } else if j == 18 { reveal_strlit("Standard"); assert(table[18].0 == "Standard"@); assert("Standard"@.len() != "Bar"@.len()); } else if j == 19 { reveal_strlit("Custom"); assert(table[19].0 == "Custom"@); assert("Custom"@.len() != "Bar"@.len()); } else if j == 20 { reveal_strlit("AfterDelay"); assert(table[20].0 == "AfterDelay"@); assert("AfterDelay"@.len() != "Bar"@.len()); } else if j == 21 { reveal_strlit("OnFocusChange"); assert(table[21].0 == "OnFocusChange"@); assert("OnFocusChange"@.len() != "Bar"@.len()); } else if j == 22 { reveal_strlit("OnWindowChange"); assert(table[22].0 == "OnWindowChange"@); assert("OnWindowChange"@.len() != "Bar"@.len()); } else if j == 23 { reveal_strlit("PrimaryScreen"); assert(table[23].0 == "PrimaryScreen"@); assert("PrimaryScreen"@.len() != "Bar"@.len()); } else if j == 24 { reveal_strlit("AllScreens"); assert(table[24].0 == "AllScreens"@); assert("AllScreens"@.len() != "Bar"@.len()); } else if j == 25 { reveal_strlit("CurrentScreen"); assert(table[25].0 == "CurrentScreen"@); assert("CurrentScreen"@.len() != "Bar"@.len()); } else if j == 26 { reveal_strlit("ActiveScreen"); assert(table[26].0 == "ActiveScreen"@); assert("ActiveScreen"@.len() != "Bar"@.len()); } else if j == 27 { reveal_strlit("PlatformNative"); assert(table[27].0 == "PlatformNative"@); assert("PlatformNative"@.len() != "Bar"@.len()); } else if j == 28 { reveal_strlit("Code"); assert(table[28].0 == "Code"@); assert("Code"@.len() != "Bar"@.len()); } else if j == 29 { reveal_strlit("File"); assert(table[29].0 == "File"@); assert("File"@.len() != "Bar"@.len()); }
    }
    lemma_lookup_at(table, 30);
}

proof fn lemma_label_block()
    ensures
        localized_label("Block"@) == "方块"@,
{
    reveal_strlit("Block");
    lemma_plain_name_normalized("Block"@);
    let table = variant_label_table();
    assert(table[31] == ("Block"@, "方块"@));
    assert forall|j: int| 0 <= j < 31 implies #[trigger] table[j].0 != table[31].0 by {
        if j == 0 { reveal_strlit("On"); assert(table[0].0 == "On"@); assert("On"@.len() != "Block"@.len()); } else if j == 1 { reveal_strlit("Off"); assert(table[1].0 == "Off"@); assert("Off"@.len() != "Block"@.len()); } else if j == 2 { reveal_strlit("Enabled"); assert(table[2].0 == "Enabled"@); assert("Enabled"@.len() != "Block"@.len()); } else if j == 3 { reveal_strlit("Disabled"); assert(table[3].0 == "Disabled"@); assert("Disabled"@.len() != "Block"@.len()); } else if j == 4 { reveal_strlit("Auto"); assert(table[4].0 == "Auto"@); assert("Auto"@.len() != "Block"@.len()); } else if j == 5 { reveal_strlit("Always"); assert(table[5].0 == "Always"@); assert("Always"@.len() != "Block"@.len()); } else if j == 6 { reveal_strlit("Never"); assert(table[6].0 == "Never"@); assert("Never"@[0] != "Block"@[0]); } else if j == 7 { reveal_strlit("Left"); assert(table[7].0 == "Left"@); assert("Left"@.len() != "Block"@.len()); } else if j == 8 { reveal_strlit("Right"); assert(table[8].0 == "Right"@); assert("Right"@[0] != "Block"@[0]); } else if j == 9 { reveal_strlit("Top"); assert(table[9].0 == "Top"@); assert("Top"@.len() != "Block"@.len()); } else if j == 10 { reveal_strlit("Bottom"); assert(table[10].0 == "Bottom"@); assert("Bottom"@.len() != "Block"@.len()); } else if j == 11 { reveal_strlit("Center"); assert(table[11].0 == "Center"@); assert("Center"@.len() != "Block"@.len()); } else if j == 12 { reveal_strlit("Static"); assert(table[12].0 == "Static"@); assert("Static"@.len() != "Block"@.len()); } else if j == 13 { reveal_strlit("Dynamic"); assert(table[13].0 == "Dynamic"@); assert("Dynamic"@.len() != "Block"@.len()); } else if j == 14 { reveal_strlit("System"); assert(table[14].0 == "System"@); assert("System"@.len() != "Block"@.len()); } else if j == 15 { reveal_strlit("Light"); assert(table[15].0 == "Light"@); assert("Light"@[0] != "Block"@[0]); } else if j == 16 { reveal_strlit("Dark"); assert(table[16].0 == "Dark"@); assert("Dark"@.len() != "Block"@.len()); } else if j == 17 { reveal_strlit("Comfortable"); assert(table[17].0 == "Comfortable"@); assert("Comfortable"@.len() != "Block"@.len()); } else if j == 18 { reveal_strlit("Standard"); assert(table[18].0 == "Standard"@); assert("Standard"@.len() != "Block"@.len()); } else if j == 19 { reveal_strlit("Custom"); assert(table[19].0 == "Custom"@); assert("Custom"@.len() != "Block"@.len()); } else if j == 20 { reveal_strlit("AfterDelay"); assert(table[20].0 == "AfterDelay"@); assert("AfterDelay"@.len() != "Block"@.len()); } else if j == 21 { reveal_strlit("OnFocusChange"); assert(table[21].0 == "OnFocusChange"@); assert("OnFocusChange"@.len() != "Block"@.len()); } else if j == 22 { reveal_strlit("OnWindowChange"); assert(table[22].0 == "OnWindowChange"@); assert("OnWindowChange"@.len() != "Block"@.len()); } else if j == 23 { reveal_strlit("PrimaryScreen"); assert(table[23].0 == "PrimaryScreen"@); assert("PrimaryScreen"@.len() != "Block"@.len()); } else if j == 24 { reveal_strlit("AllScreens"); assert(table[24].0 == "AllScreens"@); assert("AllScreens"@.len() != "Block"@.len()); } else if j == 25 { reveal_strlit("CurrentScreen"); assert(table[25].0 == "CurrentScreen"@); assert("CurrentScreen"@.len() != "Block"@.len()); } else if j == 26 { reveal_strlit("ActiveScreen"); assert(table[26].0 == "ActiveScreen"@); assert("ActiveScreen"@.len() != "Block"@.len()); } else if j == 27 { reveal_strlit("PlatformNative"); assert(table[27].0 == "PlatformNative"@); assert("PlatformNative"@.len() != "Block"@.len()); } else if j == 28 { reveal_strlit("Code"); assert(table[28].0 == "Code"@); assert("Code"@.len() != "Block"@.len()); } else if j == 29 { reveal_strlit("File"); assert(table[29].0 == "File"@); assert("File"@.len() != "Block"@.len()); } else if j == 30 { reveal_strlit("Bar"); assert(table[30].0 == "Bar"@); assert("Bar"@.len() != "Block"@.len()); }
    }
    lemma_lookup_at(table, 31);
}

proof fn lemma_label_underline()
    ensures
        localized_label("Underline"@) == "下划线"@,
{
    reveal_strlit("Underline");
    lemma_plain_name_normalized("Underline"@);
    let table = variant_label_table();
    assert(table[32] == ("Underline"@, "下划线"@));
    assert forall|j: int| 0 <= j < 32 implies #[trigger] table[j].0 != table[32].0 by {
        if j == 0 { reveal_strlit("On"); assert(table[0].0 == "On"@); assert("On"@.len() != "Underline"@.len()); } else if j == 1 { reveal_strlit("Off"); assert(table[1].0 == "Off"@); assert("Off"@.len() != "Underline"@.len()); } else if j == 2 { reveal_strlit("Enabled"); assert(table[2].0 == "Enabled"@); assert("Enabled"@.len() != "Underline"@.len()); } else if j == 3 { reveal_strlit("Disabled"); assert(table[3].0 == "Disabled"@); assert("Disabled"@.len() != "Underline"@.len()); } else if j == 4 { reveal_strlit("Auto"); assert(table[4].0 == "Auto"@); assert("Auto"@.len() != "Underline"@.len()); } else if j == 5 { reveal_strlit("Always"); assert(table[5].0 == "Always"@); assert("Always"@.len() != "Underline"@.len()); } else if j == 6 { reveal_strlit("Never"); assert(table[6].0 == "Never"@); assert("Never"@.len() != "Underline"@.len()); } else if j == 7 { reveal_strlit("Left"); assert(table[7].0 == "Left"@); assert("Left"@.len() != "Underline"@.len()); } else if j == 8 { reveal_strlit("Right"); assert(table[8].0 == "Right"@); assert("Right"@.len() != "Underline"@.len()); } else if j == 9 { reveal_strlit("Top"); assert(table[9].0 == "Top"@); assert("Top"@.len() != "Underline"@.len()); } else if j == 10 { reveal_strlit("Bottom"); assert(table[10].0 == "Bottom"@); assert("Bottom"@.len() != "Underline"@.len()); } else if j == 11 { reveal_strlit("Center"); assert(table[11].0 == "Center"@); assert("Center"@.len() != "Underline"@.len()); } else if j == 12 { reveal_strlit("Static"); assert(table[12].0 == "Static"@); assert("Static"@.len() != "Underline"@.len()); } else if j == 13 { reveal_strlit("Dynamic"); assert(table[13].0 == "Dynamic"@); assert("Dynamic"@.len() != "Underline"@.len()); } else if j == 14 { reveal_strlit("System"); assert(table[14].0 == "System"@); assert("System"@.len() != "Underline"@.len()); } else if j == 15 { reveal_strlit("Light"); assert(table[15].0 == "Light"@); assert("Light"@.len() != "Underline"@.len()); } else if j == 16 { reveal_strlit("Dark"); assert(table[16].0 == "Dark"@); assert("Dark"@.len() != "Underline"@.len()); } else if j == 17 { reveal_strlit("Comfortable"); assert(table[17].0 == "Comfortable"@); assert("Comfortable"@.len() != "Underline"@.len()); } else if j == 18 { reveal_strlit("Standard"); assert(table[18].0 == "Standard"@); assert("Standard"@.len() != "Underline"@.len()); } else if j == 19 { reveal_strlit("Custom"); assert(table[19].0 == "Custom"@); assert("Custom"@.len() != "Underline"@.len()); } else if j == 20 { reveal_strlit("AfterDelay"); assert(table[20].0 == "AfterDelay"@); assert("AfterDelay"@.len() != "Underline"@.len()); } else if j == 21 { reveal_strlit("OnFocusChange"); assert(table[21].0 == "OnFocusChange"@); assert("OnFocusChange"@.len() != "Underline"@.len()); } else if j == 22 { reveal_strlit("OnWindowChange"); assert(table[22].0 == "OnWindowChange"@); assert("OnWindowChange"@.len() != "Underline"@.len()); } else if j == 23 { reveal_strlit("PrimaryScreen"); assert(table[23].0 == "PrimaryScreen"@); assert("PrimaryScreen"@.len() != "Underline"@.len()); } else if j == 24 { reveal_strlit("AllScreens"); assert(table[24].0 == "AllScreens"@); assert("AllScreens"@.len() != "Underline"@.len()); } else if j == 25 { reveal_strlit("CurrentScreen"); assert(table[25].0 == "CurrentScreen"@); assert("CurrentScreen"@.len() != "Underline"@.len()); } else if j == 26 { reveal_strlit("ActiveScreen"); assert(table[26].0 == "ActiveScreen"@); assert("ActiveScreen"@.len() != "Underline"@.len()); } else if j == 27 { reveal_strlit("PlatformNative"); assert(table[27].0 == "PlatformNative"@); assert("PlatformNative"@.len() != "Underline"@.len()); } else if j == 28 { reveal_strlit("Code"); assert(table[28].0 == "Code"@); assert("Code"@.len() != "Underline"@.len()); } else if j == 29 { reveal_strlit("File"); assert(table[29].0 == "File"@); assert("File"@.len() != "Underline"@.len()); } else if j == 30 { reveal_strlit("Bar"); assert(table[30].0 == "Bar"@); assert("Bar"@.len() != "Underline"@.len()); } else if j == 31 { reveal_strlit("Block"); assert(table[31].0 == "Block"@); assert("Block"@.len() != "Underline"@.len()); }
    }
    lemma_lookup_at(table, 32);
}

proof fn lemma_label_hollow()
    ensures
        localized_label("Hollow"@) == "空心"@,
{
    reveal_strlit("Hollow");
    lemma_plain_name_normalized("Hollow"@);
    let table = variant_label_table();
    assert(table[33] == ("Hollow"@, "空心"@));
    assert forall|j: int| 0 <= j < 33 implies #[trigger] table[j].0 != table[33].0 by {
        if j == 0 { reveal_strlit("On"); assert(table[0].0 == "On"@); assert("On"@.len() != "Hollow"@.len()); } else if j == 1 { reveal_strlit("Off"); assert(table[1].0 == "Off"@); assert("Off"@.len() != "Hollow"@.len()); } else if j == 2 { reveal_strlit("Enabled"); assert(table[2].0 == "Enabled"@); assert("Enabled"@.len() != "Hollow"@.len()); } else if j == 3 { reveal_strlit("Disabled"); assert(table[3].0 == "Disabled"@); assert("Disabled"@.len() != "Hollow"@.len()); } else if j == 4 { reveal_strlit("Auto"); assert(table[4].0 == "Auto"@); assert("Auto"@.len() != "Hollow"@.len()); } else if j == 5 { reveal_strlit("Always"); assert(table[5].0 == "Always"@); assert("Always"@[0] != "Hollow"@[0]); } else if j == 6 { reveal_strlit("Never"); assert(table[6].0 == "Never"@); assert("Never"@.len() != "Hollow"@.len()); } else if j == 7 { reveal_strlit("Left"); assert(table[7].0 == "Left"@); assert("Left"@.len() != "Hollow"@.len()); } else if j == 8 { reveal_strlit("Right"); assert(table[8].0 == "Right"@); assert("Right"@.len() != "Hollow"@.len()); } else if j == 9 { reveal_strlit("Top"); assert(table[9].0 == "Top"@); assert("Top"@.len() != "Hollow"@.len()); } else if j == 10 { reveal_strlit("Bottom"); assert(table[10].0 == "Bottom"@); assert("Bottom"@[0] != "Hollow"@[0]); } else if j == 11 { reveal_strlit("Center"); assert(table[11].0 == "Center"@); assert("Center"@[0] != "Hollow"@[0]); } else if j == 12 { reveal_strlit("Static"); assert(table[12].0 == "Static"@); assert("Static"@[0] != "Hollow"@[0]); } else if j == 13 { reveal_strlit("Dynamic"); assert(table[13].0 == "Dynamic"@); assert("Dynamic"@.len() != "Hollow"@.len()); } else if j == 14 { reveal_strlit("System"); assert(table[14].0 == "System"@); assert("System"@[0] != "Hollow"@[0]); } else if j == 15 { reveal_strlit("Light"); assert(table[15].0 == "Light"@); assert("Light"@.len() != "Hollow"@.len()); } else if j == 16 { reveal_strlit("Dark"); assert(table[16].0 == "Dark"@); assert("Dark"@.len() != "Hollow"@.len()); } else if j == 17 { reveal_strlit("Comfortable"); assert(table[17].0 == "Comfortable"@); assert("Comfortable"@.len() != "Hollow"@.len()); } else if j == 18 { reveal_strlit("Standard"); assert(table[18].0 == "Standard"@); assert("Standard"@.len() != "Hollow"@.len()); } else if j == 19 { reveal_strlit("Custom"); assert(table[19].0 == "Custom"@); assert("Custom"@[0] != "Hollow"@[0]); } else if j == 20 { reveal_strlit("AfterDelay"); assert(table[20].0 == "AfterDelay"@); assert("AfterDelay"@.len() != "Hollow"@.len()); } else if j == 21 { reveal_strlit("OnFocusChange"); assert(table[21].0 == "OnFocusChange"@); assert("OnFocusChange"@.len() != "Hollow"@.len()); } else if j == 22 { reveal_strlit("OnWindowChange"); assert(table[22].0 == "OnWindowChange"@); assert("OnWindowChange"@.len() != "Hollow"@.len()); } else if j == 23 { reveal_strlit("PrimaryScreen"); assert(table[23].0 == "PrimaryScreen"@); assert("PrimaryScreen"@.len() != "Hollow"@.len()); } else if j == 24 { reveal_strlit("AllScreens"); assert(table[24].0 == "AllScreens"@); assert("AllScreens"@.len() != "Hollow"@.len()); } else if j == 25 { reveal_strlit("CurrentScreen"); assert(table[25].0 == "CurrentScreen"@); assert("CurrentScreen"@.len() != "Hollow"@.len()); } else if j == 26 { reveal_strlit("ActiveScreen"); assert(table[26].0 == "ActiveScreen"@); assert("ActiveScreen"@.len() != "Hollow"@.len()); } else if j == 27 { reveal_strlit("PlatformNative"); assert(table[27].0 == "PlatformNative"@); assert("PlatformNative"@.len() != "Hollow"@.len()); } else if j == 28 { reveal_strlit("Code"); assert(table[28].0 == "Code"@); assert("Code"@.len() != "Hollow"@.len()); } else if j == 29 { reveal_strlit("File"); assert(table[29].0 == "File"@); assert("File"@.len() != "Hollow"@.len()); } else if j == 30 { reveal_strlit("Bar"); assert(table[30].0 == "Bar"@); assert("Bar"@.len() != "Hollow"@.len()); } else if j == 31 { reveal_strlit("Block"); assert(table[31].0 == "Block"@); assert("Block"@.len() != "Hollow"@.len()); } else if j == 32 { reveal_strlit("Underline"); assert(table[32].0 == "Underline"@); assert("Underline"@.len() != "Hollow"@.len()); }
    }
    lemma_lookup_at(table, 33);
}

proof fn lemma_label_all()
    ensures
        localized_label("All"@) == "全部"@,
{
    reveal_strlit("All");
    lemma_plain_name_normalized("All"@);
    let table = variant_label_table();
    assert(table[34] == ("All"@, "全部"@));
    assert forall|j: int| 0 <= j < 34 implies #[trigger] table[j].0 != table[34].0 by {
        if j == 0 { reveal_strlit("On"); assert(table[0].0 == "On"@); assert("On"@.len() != "All"@.len()); } else if j == 1 { reveal_strlit("Off"); assert(table[1].0 == "Off"@); assert("Off"@[0] != "All"@[0]); } else if j == 2 { reveal_strlit("Enabled"); assert(table[2].0 == "Enabled"@); assert("Enabled"@.len() != "All"@.len()); } else if j == 3 { reveal_strlit("Disabled"); assert(table[3].0 == "Disabled"@); assert("Disabled"@.len() != "All"@.len()); } else if j == 4 { reveal_strlit("Auto"); assert(table[4].0 == "Auto"@); assert("Auto"@.len() != "All"@.len()); } else if j == 5 { reveal_strlit("Always"); assert(table[5].0 == "Always"@); assert("Always"@.len() != "All"@.len()); } else if j == 6 { reveal_strlit("Never"); assert(table[6].0 == "Never"@); assert("Never"@.len() != "All"@.len()); } else if j == 7 { reveal_strlit("Left"); assert(table[7].0 == "Left"@); assert("Left"@.len() != "All"@.len()); } else if j == 8 { reveal_strlit("Right"); assert(table[8].0 == "Right"@); assert("Right"@.len() != "All"@.len()); } else if j == 9 { reveal_strlit("Top"); assert(table[9].0 == "Top"@); assert("Top"@[0] != "All"@[0]); } else if j == 10 { reveal_strlit("Bottom"); assert(table[10].0 == "Bottom"@); assert("Bottom"@.len() != "All"@.len()); } else if j == 11 { reveal_strlit("Center"); assert(table[11].0 == "Center"@); assert("Center"@.len() != "All"@.len()); } else if j == 12 { reveal_strlit("Static"); assert(table[12].0 == "Static"@); assert("Static"@.len() != "All"@.len()); } else if j == 13 { reveal_strlit("Dynamic"); assert(table[13].0 == "Dynamic"@); assert("Dynamic"@.len() != "All"@.len()); } else if j == 14 { reveal_strlit("System"); assert(table[14].0 == "System"@); assert("System"@.len() != "All"@.len()); } else if j == 15 { reveal_strlit("Light"); assert(table[15].0 == "Light"@); assert("Light"@.len() != "All"@.len()); } else if j == 16 { reveal_strlit("Dark"); assert(table[16].0 == "Dark"@); assert("Dark"@.len() != "All"@.len()); } else if j == 17 { reveal_strlit("Comfortable"); assert(table[17].0 == "Comfortable"@); assert("Comfortable"@.len() != "All"@.len()); } else if j == 18 { reveal_strlit("Standard"); assert(table[18].0 == "Standard"@); assert("Standard"@.len() != "All"@.len()); } else if j == 19 { reveal_strlit("Custom"); assert(table[19].0 == "Custom"@); assert("Custom"@.len() != "All"@.len()); } else if j == 20 { reveal_strlit("AfterDelay"); assert(table[20].0 == "AfterDelay"@); assert("AfterDelay"@.len() != "All"@.len()); } else if j == 21 { reveal_strlit("OnFocusChange"); assert(table[21].0 == "OnFocusChange"@); assert("OnFocusChange"@.len() != "All"@.len()); } else if j == 22 { reveal_strlit("OnWindowChange"); assert(table[22].0 == "OnWindowChange"@); assert("OnWindowChange"@.len() != "All"@.len()); } else if j == 23 { reveal_strlit("PrimaryScreen"); assert(table[23].0 == "PrimaryScreen"@); assert("PrimaryScreen"@.len() != "All"@.len()); } else if j == 24 { reveal_strlit("AllScreens"); assert(table[24].0 == "AllScreens"@); assert("AllScreens"@.len() != "All"@.len()); } else if j == 25 { reveal_strlit("CurrentScreen"); assert(table[25].0 == "CurrentScreen"@); assert("CurrentScreen"@.len() != "All"@.len()); } else if j == 26 { reveal_strlit("ActiveScreen"); assert(table[26].0 == "ActiveScreen"@); assert("ActiveScreen"@.len() != "All"@.len()); } else if j == 27 { reveal_strlit("PlatformNative"); assert(table[27].0 == "PlatformNative"@); assert("PlatformNative"@.len() != "All"@.len()); } else if j == 28 { reveal_strlit("Code"); assert(table[28].0 == "Code"@); assert("Code"@.len() != "All"@.len()); } else if j == 29 { reveal_strlit("File"); assert(table[29].0 == "File"@); assert("File"@.len() != "All"@.len()); } else if j == 30 { reveal_strlit("Bar"); assert(table[30].0 == "Bar"@); assert("Bar"@[0] != "All"@[0]); } else if j == 31 { reveal_strlit("Block"); assert(table[31].0 == "Block"@); assert("Block"@.len() != "All"@.len()); } else if j == 32 { reveal_strlit("Underline"); assert(table[32].0 == "Underline"@); assert("Underline"@.len() != "All"@.len()); } else if j == 33 { reveal_strlit("Hollow"); assert(table[33].0 == "Hollow"@); assert("Hollow"@.len() != "All"@.len()); }
    }
    lemma_lookup_at(table, 34);
}

proof fn lemma_label_none()
    ensures
        localized_label("None"@) == "无"@,
{
    reveal_strlit("None");
    lemma_plain_name_normalized("None"@);
    let table = variant_label_table();
    assert(table[35] == ("None"@, "无"@));
    assert forall|j: int| 0 <= j < 35 implies #[trigger] table[j].0 != table[35].0 by {
        if j == 0 { reveal_strlit("On"); assert(table[0].0 == "On"@); assert("On"@.len() != "None"@.len()); } else if j == 1 { reveal_strlit("Off"); assert(table[1].0 == "Off"@); assert("Off"@.len() != "None"@.len()); } else if j == 2 { reveal_strlit("Enabled"); assert(table[2].0 == "Enabled"@); assert("Enabled"@.len() != "None"@.len()); } else if j == 3 { reveal_strlit("Disabled"); assert(table[3].0 == "Disabled"@); assert("Disabled"@.len() != "None"@.len()); } else if j == 4 { reveal_strlit("Auto"); assert(table[4].0 == "Auto"@); assert("Auto"@[0] != "None"@[0]); } else if j == 5 { reveal_strlit("Always"); assert(table[5].0 == "Always"@); assert("Always"@.len() != "None"@.len()); } else if j == 6 { reveal_strlit("Never"); assert(table[6].0 == "Never"@); assert("Never"@.len() != "None"@.len()); } else if j == 7 { reveal_strlit("Left"); assert(table[7].0 == "Left"@); assert("Left"@[0] != "None"@[0]); } else if j == 8 { reveal_strlit("Right"); assert(table[8].0 == "Right"@); assert("Right"@.len() != "None"@.len()); } else if j == 9 { reveal_strlit("Top"); assert(table[9].0 == "Top"@); assert("Top"@.len() != "None"@.len()); } else if j == 10 { reveal_strlit("Bottom"); assert(table[10].0 == "Bottom"@); assert("Bottom"@.len() != "None"@.len()); } else if j == 11 { reveal_strlit("Center"); assert(table[11].0 == "Center"@); assert("Center"@.len() != "None"@.len()); } else if j == 12 { reveal_strlit("Static"); assert(table[12].0 == "Static"@); assert("Static"@.len() != "None"@.len()); } else if j == 13 { reveal_strlit("Dynamic"); assert(table[13].0 == "Dynamic"@); assert("Dynamic"@.len() != "None"@.len()); } else if j == 14 { reveal_strlit("System"); assert(table[14].0 == "System"@); assert("System"@.len() != "None"@.len()); } else if j == 15 { reveal_strlit("Light"); assert(table[15].0 == "Light"@); assert("Light"@.len() != "None"@.len()); } else if j == 16 { reveal_strlit("Dark"); assert(table[16].0 == "Dark"@); assert("Dark"@[0] != "None"@[0]); } else if j == 17 { reveal_strlit("Comfortable"); assert(table[17].0 == "Comfortable"@); assert("Comfortable"@.len() != "None"@.len()); } else if j == 18 { reveal_strlit("Standard"); assert(table[18].0 == "Standard"@); assert("Standard"@.len() != "None"@.len()); } else if j == 19 { reveal_strlit("Custom"); assert(table[19].0 == "Custom"@); assert("Custom"@.len() != "None"@.len()); } else if j == 20 { reveal_strlit("AfterDelay"); assert(table[20].0 == "AfterDelay"@); assert("AfterDelay"@.len() != "None"@.len()); } else if j == 21 { reveal_strlit("OnFocusChange"); assert(table[21].0 == "OnFocusChange"@); assert("OnFocusChange"@.len() != "None"@.len()); } else if j == 22 { reveal_strlit("OnWindowChange"); assert(table[22].0 == "OnWindowChange"@); assert("OnWindowChange"@.len() != "None"@.len()); } else if j == 23 { reveal_strlit("PrimaryScreen"); assert(table[23].0 == "PrimaryScreen"@); assert("PrimaryScreen"@.len() != "None"@.len()); } else if j == 24 { reveal_strlit("AllScreens"); assert(table[24].0 == "AllScreens"@); assert("AllScreens"@.len() != "None"@.len()); } else if j == 25 { reveal_strlit("CurrentScreen"); assert(table[25].0 == "CurrentScreen"@); assert("CurrentScreen"@.len() != "None"@.len()); } else if j == 26 { reveal_strlit("ActiveScreen"); assert(table[26].0 == "ActiveScreen"@); assert("ActiveScreen"@.len() != "None"@.len()); } else if j == 27 { reveal_strlit("PlatformNative"); assert(table[27].0 == "PlatformNative"@); assert("PlatformNative"@.len() != "None"@.len()); } else if j == 28 { reveal_strlit("Code"); assert(table[28].0 == "Code"@); assert("Code"@[0] != "None"@[0]); } else if j == 29 { reveal_strlit("File"); assert(table[29].0 == "File"@); assert("File"@[0] != "None"@[0]); } else if j == 30 { reveal_strlit("Bar"); assert(table[30].0 == "Bar"@); assert("Bar"@.len() != "None"@.len()); } else if j == 31 { reveal_strlit("Block"); assert(table[31].0 == "Block"@); assert("Block"@.len() != "None"@.len()); } else if j == 32 { reveal_strlit("Underline"); assert(table[32].0 == "Underline"@); assert("Underline"@.len() != "None"@.len()); } else if j == 33 { reveal_strlit("Hollow"); assert(table[33].0 == "Hollow"@); assert("Hollow"@.len() != "None"@.len()); } else if j == 34 { reveal_strlit("All"); assert(table[34].0 == "All"@); assert("All"@.len() != "None"@.len()); }
    }
    lemma_lookup_at(table, 35);
}

proof fn lemma_label_current()
    ensures
        localized_label("Current"@) == "当前项"@,
{
    reveal_strlit("Current");
    lemma_plain_name_normalized("Current"@);
    let table = variant_label_table();
    assert(table[36] == ("Current"@, "当前项"@));
    assert forall|j: int| 0 <= j < 36 implies #[trigger] table[j].0 != table[36].0 by {
        if j == 0 { reveal_strlit("On"); assert(table[0].0 == "On"@); assert("On"@.len() != "Current"@.len()); } else if j == 1 { reveal_strlit("Off"); assert(table[1].0 == "Off"@); assert("Off"@.len() != "Current"@.len()); } else if j == 2 { reveal_strlit("Enabled"); assert(table[2].0 == "Enabled"@); assert("Enabled"@[0] != "Current"@[0]); } else if j == 3 { reveal_strlit("Disabled"); assert(table[3].0 == "Disabled"@); assert("Disabled"@.len() != "Current"@.len()); } else if j == 4 { reveal_strlit("Auto"); assert(table[4].0 == "Auto"@); assert("Auto"@.len() != "Current"@.len()); } else if j == 5 { reveal_strlit("Always"); assert(table[5].0 == "Always"@); assert("Always"@.len() != "Current"@.len()); } else if j == 6 { reveal_strlit("Never"); assert(table[6].0 == "Never"@); assert("Never"@.len() != "Current"@.len()); } else if j == 7 { reveal_strlit("Left"); assert(table[7].0 == "Left"@); assert("Left"@.len() != "Current"@.len()); } else if j == 8 { reveal_strlit("Right"); assert(table[8].0 == "Right"@); assert("Right"@.len() != "Current"@.len()); } else if j == 9 { reveal_strlit("Top"); assert(table[9].0 == "Top"@); assert("Top"@.len() != "Current"@.len()); } else if j == 10 { reveal_strlit("Bottom"); assert(table[10].0 == "Bottom"@); assert("Bottom"@.len() != "Current"@.len()); } else if j == 11 { reveal_strlit("Center"); assert(table[11].0 == "Center"@); assert("Center"@.len() != "Current"@.len()); } else if j == 12 { reveal_strlit("Static"); assert(table[12].0 == "Static"@); assert("Static"@.len() != "Current"@.len()); } else if j == 13 { reveal_strlit("Dynamic"); assert(table[13].0 == "Dynamic"@); assert("Dynamic"@[0] != "Current"@[0]); } else if j == 14 { reveal_strlit("System"); assert(table[14].0 == "System"@); assert("System"@.len() != "Current"@.len()); } else if j == 15 { reveal_strlit("Light"); assert(table[15].0 == "Light"@); assert("Light"@.len() != "Current"@.len()); } else if j == 16 { reveal_strlit("Dark"); assert(table[16].0 == "Dark"@); assert("Dark"@.len() != "Current"@.len()); } else if j == 17 { reveal_strlit("Comfortable"); assert(table[17].0 == "Comfortable"@); assert("Comfortable"@.len() != "Current"@.len()); } else if j == 18 { reveal_strlit("Standard"); assert(table[18].0 == "Standard"@); assert("Standard"@.len() != "Current"@.len()); } else if j == 19 { reveal_strlit("Custom"); assert(table[19].0 == "Custom"@); assert("Custom"@.len() != "Current"@.len()); } else if j == 20 { reveal_strlit("AfterDelay"); assert(table[20].0 == "AfterDelay"@); assert("AfterDelay"@.len() != "Current"@.len()); } else if j == 21 { reveal_strlit("OnFocusChange"); assert(table[21].0 == "OnFocusChange"@); assert("OnFocusChange"@.len() != "Current"@.len()); } else if j == 22 { reveal_strlit("OnWindowChange"); assert(table[22].0 == "OnWindowChange"@); assert("OnWindowChange"@.len() != "Current"@.len()); } else if j == 23 { reveal_strlit("PrimaryScreen"); assert(table[23].0 == "PrimaryScreen"@); assert("PrimaryScreen"@.len() != "Current"@.len()); } else if j == 24 { reveal_strlit("AllScreens"); assert(table[24].0 == "AllScreens"@); assert("AllScreens"@.len() != "Current"@.len()); } else if j == 25 { reveal_strlit("CurrentScreen"); assert(table[25].0 == "CurrentScreen"@); assert("CurrentScreen"@.len() != "Current"@.len()); } else if j == 26 { reveal_strlit("ActiveScreen"); assert(table[26].0 == "ActiveScreen"@); assert("ActiveScreen"@.len() != "Current"@.len()); } else if j == 27 { reveal_strlit("PlatformNative"); assert(table[27].0 == "PlatformNative"@); assert("PlatformNative"@.len() != "Current"@.len()); } else if j == 28 { reveal_strlit("Code"); assert(table[28].0 == "Code"@); assert("Code"@.len() != "Current"@.len()); } else if j == 29 { reveal_strlit("File"); assert(table[29].0 == "File"@); assert("File"@.len() != "Current"@.len()); } else if j == 30 { reveal_strlit("Bar"); assert(table[30].0 == "Bar"@); assert("Bar"@.len() != "Current"@.len()); } else if j == 31 { reveal_strlit("Block"); assert(table[31].0 == "Block"@); assert("Block"@.len() != "Current"@.len()); } else if j == 32 { reveal_strlit("Underline"); assert(table[32].0 == "Underline"@); assert("Underline"@.len() != "Current"@.len()); } else if j == 33 { reveal_strlit("Hollow"); assert(table[33].0 == "Hollow"@); assert("Hollow"@.len() != "Current"@.len()); } else if j == 34 { reveal_strlit("All"); assert(table[34].0 == "All"@); assert("All"@.len() != "Current"@.len()); } else if j == 35 { reveal_strlit("None"); assert(table[35].0 == "None"@); assert("None"@.len() != "Current"@.len()); }
    }
    lemma_lookup_at(table, 36);
}

proof fn lemma_label_directory()
    ensures
        localized_label("Directory"@) == "目录"@,
{
    reveal_strlit("Directory");
    lemma_plain_name_normalized("Directory"@);
    let table = variant_label_table();
    assert(table[37] == ("Directory"@, "目录"@));
    assert forall|j: int| 0 <= j < 37 implies #[trigger] table[j].0 != table[37].0 by {
        if j == 0 { reveal_strlit("On"); assert(table[0].0 == "On"@); assert("On"@.len() != "Directory"@.len()); } else if j == 1 { reveal_strlit("Off"); assert(table[1].0 == "Off"@); assert("Off"@.len() != "Directory"@.len()); } else if j == 2 { reveal_strlit("Enabled"); assert(table[2].0 == "Enabled"@); assert("Enabled"@.len() != "Directory"@.len()); } else if j == 3 { reveal_strlit("Disabled"); assert(table[3].0 == "Disabled"@); assert("Disabled"@.len() != "Directory"@.len()); } else if j == 4 { reveal_strlit("Auto"); assert(table[4].0 == "Auto"@); assert("Auto"@.len() != "Directory"@.len()); } else if j == 5 { reveal_strlit("Always"); assert(table[5].0 == "Always"@); assert("Always"@.len() != "Directory"@.len()); } else if j == 6 { reveal_strlit("Never"); assert(table[6].0 == "Never"@); assert("Never"@.len() != "Directory"@.len()); } else if j == 7 { reveal_strlit("Left"); assert(table[7].0 == "Left"@); assert("Left"@.len() != "Directory"@.len()); } else if j == 8 { reveal_strlit("Right"); assert(table[8].0 == "Right"@); assert("Right"@.len() != "Directory"@.len()); } else if j == 9 { reveal_strlit("Top"); assert(table[9].0 == "Top"@); assert("Top"@.len() != "Directory"@.len()); } else if j == 10 { reveal_strlit("Bottom"); assert(table[10].0 == "Bottom"@); assert("Bottom"@.len() != "Directory"@.len()); } else if j == 11 { reveal_strlit("Center"); assert(table[11].0 == "Center"@); assert("Center"@.len() != "Directory"@.len()); } else if j == 12 { reveal_strlit("Static"); assert(table[12].0 == "Static"@); assert("Static"@.len() != "Directory"@.len()); } else if j == 13 { reveal_strlit("Dynamic"); assert(table[13].0 == "Dynamic"@); assert("Dynamic"@.len() != "Directory"@.len()); } else if j == 14 { reveal_strlit("System"); assert(table[14].0 == "System"@); assert("System"@.len() != "Directory"@.len()); } else if j == 15 { reveal_strlit("Light"); assert(table[15].0 == "Light"@); assert("Light"@.len() != "Directory"@.len()); } else if j == 16 { reveal_strlit("Dark"); assert(table[16].0 == "Dark"@); assert("Dark"@.len() != "Directory"@.len()); } else if j == 17 { reveal_strlit("Comfortable"); assert(table[17].0 == "Comfortable"@); assert("Comfortable"@.len() != "Directory"@.len()); } else if j == 18 { reveal_strlit("Standard"); assert(table[18].0 == "Standard"@); assert("Standard"@.len() != "Directory"@.len()); } else if j == 19 { reveal_strlit("Custom"); assert(table[19].0 == "Custom"@); assert("Custom"@.len() != "Directory"@.len()); } else if j == 20 { reveal_strlit("AfterDelay"); assert(table[20].0 == "AfterDelay"@); assert("AfterDelay"@.len() != "Directory"@.len()); } else if j == 21 { reveal_strlit("OnFocusChange"); assert(table[21].0 == "OnFocusChange"@); assert("OnFocusChange"@.len() != "Directory"@.len()); } else if j == 22 { reveal_strlit("OnWindowChange"); assert(table[22].0 == "OnWindowChange"@); assert("OnWindowChange"@.len() != "Directory"@.len()); } else if j == 23 { reveal_strlit("PrimaryScreen"); assert(table[23].0 == "PrimaryScreen"@); assert("PrimaryScreen"@.len() != "Directory"@.len()); } else if j == 24 { reveal_strlit("AllScreens"); assert(table[24].0 == "AllScreens"@); assert("AllScreens"@.len() != "Directory"@.len()); } else if j == 25 { reveal_strlit("CurrentScreen"); assert(table[25].0 == "CurrentScreen"@); assert("CurrentScreen"@.len() != "Directory"@.len()); } else if j == 26 { reveal_strlit("ActiveScreen"); assert(table[26].0 == "ActiveScreen"@); assert("ActiveScreen"@.len() != "Directory"@.len()); } else if j == 27 { reveal_strlit("PlatformNative"); assert(table[27].0 == "PlatformNative"@); assert("PlatformNative"@.len() != "Directory"@.len()); } else if j == 28 { reveal_strlit("Code"); assert(table[28].0 == "Code"@); assert("Code"@.len() != "Directory"@.len()); } else if j == 29 { reveal_strlit("File"); assert(table[29].0 == "File"@); assert("File"@.len() != "Directory"@.len()); } else if j == 30 { reveal_strlit("Bar"); assert(table[30].0 == "Bar"@); assert("Bar"@.len() != "Directory"@.len()); } else if j == 31 { reveal_strlit("Block"); assert(table[31].0 == "Block"@); assert("Block"@.len() != "Directory"@.len()); } else if j == 32 { reveal_strlit("Underline"); assert(table[32].0 == "Underline"@); assert("Underline"@[0] != "Directory"@[0]); } else if j == 33 { reveal_strlit("Hollow"); assert(table[33].0 == "Hollow"@); assert("Hollow"@.len() != "Directory"@.len()); } else if j == 34 { reveal_strlit("All"); assert(table[34].0 == "All"@); assert("All"@.len() != "Directory"@.len()); } else if j == 35 { reveal_strlit("None"); assert(table[35].0 == "None"@); assert("None"@.len() != "Directory"@.len()); } else if j == 36 { reveal_strlit("Current"); assert(table[36].0 == "Current"@); assert("Current"@.len() != "Directory"@.len()); }
    }
    lemma_lookup_at(table, 37);
}

proof fn lemma_label_project()
    ensures
        localized_label("Project"@) == "项目"@,
{
    reveal_strlit("Project");
    lemma_plain_name_normalized("Project"@);
    let table = variant_label_table();
    assert(table[38] == ("Project"@, "项目"@));
    assert forall|j: int| 0 <= j < 38 implies #[trigger] table[j].0 != table[38].0 by {
        if j == 0 { reveal_strlit("On"); assert(table[0].0 == "On"@); assert("On"@.len() != "Project"@.len()); } else if j == 1 { reveal_strlit("Off"); assert(table[1].0 == "Off"@); assert("Off"@.len() != "Project"@.len()); } else if j == 2 { reveal_strlit("Enabled"); assert(table[2].0 == "Enabled"@); assert("Enabled"@[0] != "Project"@[0]); } else if j == 3 { reveal_strlit("Disabled"); assert(table[3].0 == "Disabled"@); assert("Disabled"@.len() != "Project"@.len()); } else if j == 4 { reveal_strlit("Auto"); assert(table[4].0 == "Auto"@); assert("Auto"@.len() != "Project"@.len()); } else if j == 5 { reveal_strlit("Always"); assert(table[5].0 == "Always"@); assert("Always"@.len() != "Project"@.len()); } else if j == 6 { reveal_strlit("Never"); assert(table[6].0 == "Never"@); assert("Never"@.len() != "Project"@.len()); } else if j == 7 { reveal_strlit("Left"); assert(table[7].0 == "Left"@); assert("Left"@.len() != "Project"@.len()); } else if j == 8 { reveal_strlit("Right"); assert(table[8].0 == "Right"@); assert("Right"@.len() != "Project"@.len()); } else if j == 9 { reveal_strlit("Top"); assert(table[9].0 == "Top"@); assert("Top"@.len() != "Project"@.len()); } else if j == 10 { reveal_strlit("Bottom"); assert(table[10].0 == "Bottom"@); assert("Bottom"@.len() != "Project"@.len()); } else if j == 11 { reveal_strlit("Center"); assert(table[11].0 == "Center"@); assert("Center"@.len() != "Project"@.len()); } else if j == 12 { reveal_strlit("Static"); assert(table[12].0 == "Static"@); assert("Static"@.len() != "Project"@.len()); } else if j == 13 { reveal_strlit("Dynamic"); assert(table[13].0 == "Dynamic"@); assert("Dynamic"@[0] != "Project"@[0]); } else if j == 14 { reveal_strlit("System"); assert(table[14].0 == "System"@); assert("System"@.len() != "Project"@.len()); } else if j == 15 { reveal_strlit("Light"); assert(table[15].0 == "Light"@); assert("Light"@.len() != "Project"@.len()); } else if j == 16 { reveal_strlit("Dark"); assert(table[16].0 == "Dark"@); assert("Dark"@.len() != "Project"@.len()); } else if j == 17 { reveal_strlit("Comfortable"); assert(table[17].0 == "Comfortable"@); assert("Comfortable"@.len() != "Project"@.len()); } else if j == 18 { reveal_strlit("Standard"); assert(table[18].0 == "Standard"@); assert("Standard"@.len() != "Project"@.len()); } else if j == 19 { reveal_strlit("Custom"); assert(table[19].0 == "Custom"@); assert("Custom"@.len() != "Project"@.len()); } else if j == 20 { reveal_strlit("AfterDelay"); assert(table[20].0 == "AfterDelay"@); assert("AfterDelay"@.len() != "Project"@.len()); } else if j == 21 { reveal_strlit("OnFocusChange"); assert(table[21].0 == "OnFocusChange"@); assert("OnFocusChange"@.len() != "Project"@.len()); } else if j == 22 { reveal_strlit("OnWindowChange"); assert(table[22].0 == "OnWindowChange"@); assert("OnWindowChange"@.len() != "Project"@.len()); } else if j == 23 { reveal_strlit("PrimaryScreen"); assert(table[23].0 == "PrimaryScreen"@); assert("PrimaryScreen"@.len() != "Project"@.len()); } else if j == 24 { reveal_strlit("AllScreens"); assert(table[24].0 == "AllScreens"@); assert("AllScreens"@.len() != "Project"@.len()); } else if j == 25 { reveal_strlit("CurrentScreen"); assert(table[25].0 == "CurrentScreen"@); assert("CurrentScreen"@.len() != "Project"@.len()); } else if j == 26 { reveal_strlit("ActiveScreen"); assert(table[26].0 == "ActiveScreen"@); assert("ActiveScreen"@.len() != "Project"@.len()); } else if j == 27 { reveal_strlit("PlatformNative"); assert(table[27].0 == "PlatformNative"@); assert("PlatformNative"@.len() != "Project"@.len()); } else if j == 28 { reveal_strlit("Code"); assert(table[28].0 == "Code"@); assert("Code"@.len() != "Project"@.len()); } else if j == 29 { reveal_strlit("File"); assert(table[29].0 == "File"@); assert("File"@.len() != "Project"@.len()); } else if j == 30 { reveal_strlit("Bar"); assert(table[30].0 == "Bar"@); assert("Bar"@.len() != "Project"@.len()); } else if j == 31 { reveal_strlit("Block"); assert(table[31].0 == "Block"@); assert("Block"@.len() != "Project"@.len()); } else if j == 32 { reveal_strlit("Underline"); assert(table[32].0 == "Underline"@); assert("Underline"@.len() != "Project"@.len()); } else if j == 33 { reveal_strlit("Hollow"); assert(table[33].0 == "Hollow"@); assert("Hollow"@.len() != "Project"@.len()); } else if j == 34 { reveal_strlit("All"); assert(table[34].0 == "All"@); assert("All"@.len() != "Project"@.len()); } else if j == 35 { reveal_strlit("None"); assert(table[35].0 == "None"@); assert("None"@.len() != "Project"@.len()); } else if j == 36 { reveal_strlit("Current"); assert(table[36].0 == "Current"@); assert("Current"@[0] != "Project"@[0]); } else if j == 37 { reveal_strlit("Directory"); assert(table[37].0 == "Directory"@); assert("Directory"@.len() != "Project"@.len()); }
    }
    lemma_lookup_at(table, 38);
}

proof fn lemma_label_hidden()
    ensures
        localized_label("Hidden"@) == "隐藏"@,
{
    reveal_strlit("Hidden");
    lemma_plain_name_normalized("Hidden"@);
    let table = variant_label_table();
    assert(table[39] == ("Hidden"@, "隐藏"@));
    assert forall|j: int| 0 <= j < 39 implies #[trigger] table[j].0 != table[39].0 by {
        if j == 0 { reveal_strlit("On"); assert(table[0].0 == "On"@); assert("On"@.len() != "Hidden"@.len()); } else if j == 1 { reveal_strlit("Off"); assert(table[1].0 == "Off"@); assert("Off"@.len() != "Hidden"@.len()); } else if j == 2 { reveal_strlit("Enabled"); assert(table[2].0 == "Enabled"@); assert("Enabled"@.len() != "Hidden"@.len()); } else if j == 3 { reveal_strlit("Disabled"); assert(table[3].0 == "Disabled"@); assert("Disabled"@.len() != "Hidden"@.len()); } else if j == 4 { reveal_strlit("Auto"); assert(table[4].0 == "Auto"@); assert("Auto"@.len() != "Hidden"@.len()); } else if j == 5 { reveal_strlit("Always"); assert(table[5].0 == "Always"@); assert("Always"@[0] != "Hidden"@[0]); } else if j == 6 { reveal_strlit("Never"); assert(table[6].0 == "Never"@); assert("Never"@.len() != "Hidden"@.len()); } else if j == 7 { reveal_strlit("Left"); assert(table[7].0 == "Left"@); assert("Left"@.len() != "Hidden"@.len()); } else if j == 8 { reveal_strlit("Right"); assert(table[8].0 == "Right"@); assert("Right"@.len() != "Hidden"@.len()); } else if j == 9 { reveal_strlit("Top"); assert(table[9].0 == "Top"@); assert("Top"@.len() != "Hidden"@.len()); } else if j == 10 { reveal_strlit("Bottom"); assert(table[10].0 == "Bottom"@); assert("Bottom"@[0] != "Hidden"@[0]); } else if j == 11 { reveal_strlit("Center"); assert(table[11].0 == "Center"@); assert("Center"@[0] != "Hidden"@[0]); } else if j == 12 { reveal_strlit("Static"); assert(table[12].0 == "Static"@); assert("Static"@[0] != "Hidden"@[0]); } else if j == 13 { reveal_strlit("Dynamic"); assert(table[13].0 == "Dynamic"@); assert("Dynamic"@.len() != "Hidden"@.len()); } else if j == 14 { reveal_strlit("System"); assert(table[14].0 == "System"@); assert("System"@[0] != "Hidden"@[0]); } else if j == 15 { reveal_strlit("Light"); assert(table[15].0 == "Light"@); assert("Light"@.len() != "Hidden"@.len()); } else if j == 16 { reveal_strlit("Dark"); assert(table[16].0 == "Dark"@); assert("Dark"@.len() != "Hidden"@.len()); } else if j == 17 { reveal_strlit("Comfortable"); assert(table[17].0 == "Comfortable"@); assert("Comfortable"@.len() != "Hidden"@.len()); } else if j == 18 { reveal_strlit("Standard"); assert(table[18].0 == "Standard"@); assert("Standard"@.len() != "Hidden"@.len()); } else if j == 19 { reveal_strlit("Custom"); assert(table[19].0 == "Custom"@); assert("Custom"@[0] != "Hidden"@[0]); } else if j == 20 { reveal_strlit("AfterDelay"); assert(table[20].0 == "AfterDelay"@); assert("AfterDelay"@.len() != "Hidden"@.len()); } else if j == 21 { reveal_strlit("OnFocusChange"); assert(table[21].0 == "OnFocusChange"@); assert("OnFocusChange"@.len() != "Hidden"@.len()); } else if j == 22 { reveal_strlit("OnWindowChange"); assert(table[22].0 == "OnWindowChange"@); assert("OnWindowChange"@.len() != "Hidden"@.len()); } else if j == 23 { reveal_strlit("PrimaryScreen"); assert(table[23].0 == "PrimaryScreen"@); assert("PrimaryScreen"@.len() != "Hidden"@.len()); } else if j == 24 { reveal_strlit("AllScreens"); assert(table[24].0 == "AllScreens"@); assert("AllScreens"@.len() != "Hidden"@.len()); } else if j == 25 { reveal_strlit("CurrentScreen"); assert(table[25].0 == "CurrentScreen"@); assert("CurrentScreen"@.len() != "Hidden"@.len()); } else if j == 26 { reveal_strlit("ActiveScreen"); assert(table[26].0 == "ActiveScreen"@); assert("ActiveScreen"@.len() != "Hidden"@.len()); } else if j == 27 { reveal_strlit("PlatformNative"); assert(table[27].0 == "PlatformNative"@); assert("PlatformNative"@.len() != "Hidden"@.len()); } else if j == 28 { reveal_strlit("Code"); assert(table[28].0 == "Code"@); assert("Code"@.len() != "Hidden"@.len()); } else if j == 29 { reveal_strlit("File"); assert(table[29].0 == "File"@); assert("File"@.len() != "Hidden"@.len()); } else if j == 30 { reveal_strlit("Bar"); assert(table[30].0 == "Bar"@); assert("Bar"@.len() != "Hidden"@.len()); } else if j == 31 { reveal_strlit("Block"); assert(table[31].0 == "Block"@); assert("Block"@.len() != "Hidden"@.len()); } else if j == 32 { reveal_strlit("Underline"); assert(table[32].0 == "Underline"@); assert("Underline"@.len() != "Hidden"@.len()); } else if j == 33 { reveal_strlit("Hollow"); assert(table[33].0 == "Hollow"@); assert("Hollow"@[1] != "Hidden"@[1]); } else if j == 34 { reveal_strlit("All"); assert(table[34].0 == "All"@); assert("All"@.len() != "Hidden"@.len()); } else if j == 35 { reveal_strlit("None"); assert(table[35].0 == "None"@); assert("None"@.len() != "Hidden"@.len()); } else if j == 36 { reveal_strlit("Current"); assert(table[36].0 == "Current"@); assert("Current"@.len() != "Hidden"@.len()); } else if j == 37 { reveal_strlit("Directory"); assert(table[37].0 == "Directory"@); assert("Directory"@.len() != "Hidden"@.len()); } else if j == 38 { reveal_strlit("Project"); assert(table[38].0 == "Project"@); assert("Project"@.len() != "Hidden"@.len()); }
    }
    lemma_lookup_at(table, 39);
}

proof fn lemma_label_visible()
    ensures
        localized_label("Visible"@) == "可见"@,
{
    reveal_strlit("Visible");
    lemma_plain_name_normalized("Visible"@);
    let table = variant_label_table();
    assert(table[40] == ("Visible"@, "可见"@));
    assert forall|j: int| 0 <= j < 40 implies #[trigger] table[j].0 != table[40].0 by {
        if j == 0 { reveal_strlit("On"); assert(table[0].0 == "On"@); assert("On"@.len() != "Visible"@.len()); } else if j == 1 { reveal_strlit("Off"); assert(table[1].0 == "Off"@); assert("Off"@.len() != "Visible"@.len()); } else if j == 2 { reveal_strlit("Enabled"); assert(table[2].0 == "Enabled"@); assert("Enabled"@[0] != "Visible"@[0]); } else if j == 3 { reveal_strlit("Disabled"); assert(table[3].0 == "Disabled"@); assert("Disabled"@.len() != "Visible"@.len()); } else if j == 4 { reveal_strlit("Auto"); assert(table[4].0 == "Auto"@); assert("Auto"@.len() != "Visible"@.len()); } else if j == 5 { reveal_strlit("Always"); assert(table[5].0 == "Always"@); assert("Always"@.len() != "Visible"@.len()); } else if j == 6 { reveal_strlit("Never"); assert(table[6].0 == "Never"@); assert("Never"@.len() != "Visible"@.len()); } else if j == 7 { reveal_strlit("Left"); assert(table[7].0 == "Left"@); assert("Left"@.len() != "Visible"@.len()); } else if j == 8 { reveal_strlit("Right"); assert(table[8].0 == "Right"@); assert("Right"@.len() != "Visible"@.len()); } else if j == 9 { reveal_strlit("Top"); assert(table[9].0 == "Top"@); assert("Top"@.len() != "Visible"@.len()); } else if j == 10 { reveal_strlit("Bottom"); assert(table[10].0 == "Bottom"@); assert("Bottom"@.len() != "Visible"@.len()); } else if j == 11 { reveal_strlit("Center"); assert(table[11].0 == "Center"@); assert("Center"@.len() != "Visible"@.len()); } else if j == 12 { reveal_strlit("Static"); assert(table[12].0 == "Static"@); assert("Static"@.len() != "Visible"@.len()); } else if j == 13 { reveal_strlit("Dynamic"); assert(table[13].0 == "Dynamic"@); assert("Dynamic"@[0] != "Visible"@[0]); } else if j == 14 { reveal_strlit("System"); assert(table[14].0 == "System"@); assert("System"@.len() != "Visible"@.len()); } else if j == 15 { reveal_strlit("Light"); assert(table[15].0 == "Light"@); assert("Light"@.len() != "Visible"@.len()); } else if j == 16 { reveal_strlit("Dark"); assert(table[16].0 == "Dark"@); assert("Dark"@.len() != "Visible"@.len()); } else if j == 17 { reveal_strlit("Comfortable"); assert(table[17].0 == "Comfortable"@); assert("Comfortable"@.len() != "Visible"@.len()); } else if j == 18 { reveal_strlit("Standard"); assert(table[18].0 == "Standard"@); assert("Standard"@.len() != "Visible"@.len()); } else if j == 19 { reveal_strlit("Custom"); assert(table[19].0 == "Custom"@); assert("Custom"@.len() != "Visible"@.len()); } else if j == 20 { reveal_strlit("AfterDelay"); assert(table[20].0 == "AfterDelay"@); assert("AfterDelay"@.len() != "Visible"@.len()); } else if j == 21 { reveal_strlit("OnFocusChange"); assert(table[21].0 == "OnFocusChange"@); assert("OnFocusChange"@.len() != "Visible"@.len()); } else if j == 22 { reveal_strlit("OnWindowChange"); assert(table[22].0 == "OnWindowChange"@); assert("OnWindowChange"@.len() != "Visible"@.len()); } else if j == 23 { reveal_strlit("PrimaryScreen"); assert(table[23].0 == "PrimaryScreen"@); assert("PrimaryScreen"@.len() != "Visible"@.len()); } else if j == 24 { reveal_strlit("AllScreens"); assert(table[24].0 == "AllScreens"@); assert("AllScreens"@.len() != "Visible"@.len()); } else if j == 25 { reveal_strlit("CurrentScreen"); assert(table[25].0 == "CurrentScreen"@); assert("CurrentScreen"@.len() != "Visible"@.len()); } else if j == 26 { reveal_strlit("ActiveScreen"); assert(table[26].0 == "ActiveScreen"@); assert("ActiveScreen"@.len() != "Visible"@.len()); } else if j == 27 { reveal_strlit("PlatformNative"); assert(table[27].0 == "PlatformNative"@); assert("PlatformNative"@.len() != "Visible"@.len()); } else if j == 28 { reveal_strlit("Code"); assert(table[28].0 == "Code"@); assert("Code"@.len() != "Visible"@.len()); } else if j == 29 { reveal_strlit("File"); assert(table[29].0 == "File"@); assert("File"@.len() != "Visible"@.len()); } else if j == 30 { reveal_strlit("Bar"); assert(table[30].0 == "Bar"@); assert("Bar"@.len() != "Visible"@.len()); } else if j == 31 { reveal_strlit("Block"); assert(table[31].0 == "Block"@); assert("Block"@.len() != "Visible"@.len()); } else if j == 32 { reveal_strlit("Underline"); assert(table[32].0 == "Underline"@); assert("Underline"@.len() != "Visible"@.len()); } else if j == 33 { reveal_strlit("Hollow"); assert(table[33].0 == "Hollow"@); assert("Hollow"@.len() != "Visible"@.len()); } else if j == 34 { reveal_strlit("All"); assert(table[34].0 == "All"@); assert("All"@.len() != "Visible"@.len()); } else if j == 35 { reveal_strlit("None"); assert(table[35].0 == "None"@); assert("None"@.len() != "Visible"@.len()); } else if j == 36 { reveal_strlit("Current"); assert(table[36].0 == "Current"@); assert("Current"@[0] != "Visible"@[0]); } else if j == 37 { reveal_strlit("Directory"); assert(table[37].0 == "Directory"@); assert("Directory"@.len() != "Visible"@.len()); } else if j == 38 { reveal_strlit("Project"); assert(table[38].0 == "Project"@); assert("Project"@[0] != "Visible"@[0]); } else if j == 39 { reveal_strlit("Hidden"); assert(table[39].0 == "Hidden"@); assert("Hidden"@.len() != "Visible"@.len()); }
    }
    lemma_lookup_at(table, 40);
}

proof fn lemma_label_vertical()
    ensures
        localized_label("Vertical"@) == "垂直"@,
{
    reveal_strlit("Vertical");
    lemma_plain_name_normalized("Vertical"@);
    let table = variant_label_table();
    assert(table[41] == ("Vertical"@, "垂直"@));
    assert forall|j: int| 0 <= j < 41 implies #[trigger] table[j].0 != table[41].0 by {
        if j == 0 { reveal_strlit("On"); assert(table[0].0 == "On"@); assert("On"@.len() != "Vertical"@.len()); } else if j == 1 { reveal_strlit("Off"); assert(table[1].0 == "Off"@); assert("Off"@.len() != "Vertical"@.len()); } else if j == 2 { reveal_strlit("Enabled"); assert(table[2].0 == "Enabled"@); assert("Enabled"@.len() != "Vertical"@.len()); } else if j == 3 { reveal_strlit("Disabled"); assert(table[3].0 == "Disabled"@); assert("Disabled"@[0] != "Vertical"@[0]); } else if j == 4 { reveal_strlit("Auto"); assert(table[4].0 == "Auto"@); assert("Auto"@.len() != "Vertical"@.len()); } else if j == 5 { reveal_strlit("Always"); assert(table[5].0 == "Always"@); assert("Always"@.len() != "Vertical"@.len()); } else if j == 6 { reveal_strlit("Never"); assert(table[6].0 == "Never"@); assert("Never"@.len() != "Vertical"@.len()); } else if j == 7 { reveal_strlit("Left"); assert(table[7].0 == "Left"@); assert("Left"@.len() != "Vertical"@.len()); } else if j == 8 { reveal_strlit("Right"); assert(table[8].0 == "Right"@); assert("Right"@.len() != "Vertical"@.len()); } else if j == 9 { reveal_strlit("Top"); assert(table[9].0 == "Top"@); assert("Top"@.len() != "Vertical"@.len()); } else if j == 10 { reveal_strlit("Bottom"); assert(table[10].0 == "Bottom"@); assert("Bottom"@.len() != "Vertical"@.len()); } else if j == 11 { reveal_strlit("Center"); assert(table[11].0 == "Center"@); assert("Center"@.len() != "Vertical"@.len()); } else if j == 12 { reveal_strlit("Static"); assert(table[12].0 == "Static"@); assert("Static"@.len() != "Vertical"@.len()); } else if j == 13 { reveal_strlit("Dynamic"); assert(table[13].0 == "Dynamic"@); assert("Dynamic"@.len() != "Vertical"@.len()); } else if j == 14 { reveal_strlit("System"); assert(table[14].0 == "System"@); assert("System"@.len() != "Vertical"@.len()); } else if j == 15 { reveal_strlit("Light"); assert(table[15].0 == "Light"@); assert("Light"@.len() != "Vertical"@.len()); } else if j == 16 { reveal_strlit("Dark"); assert(table[16].0 == "Dark"@); assert("Dark"@.len() != "Vertical"@.len()); } else if j == 17 { reveal_strlit("Comfortable"); assert(table[17].0 == "Comfortable"@); assert("Comfortable"@.len() != "Vertical"@.len()); } else if j == 18 { reveal_strlit("Standard"); assert(table[18].0 == "Standard"@); assert("Standard"@[0] != "Vertical"@[0]); } else if j == 19 { reveal_strlit("Custom"); assert(table[19].0 == "Custom"@); assert("Custom"@.len() != "Vertical"@.len()); } else if j == 20 { reveal_strlit("AfterDelay"); assert(table[20].0 == "AfterDelay"@); assert("AfterDelay"@.len() != "Vertical"@.len()); } else if j == 21 { reveal_strlit("OnFocusChange"); assert(table[21].0 == "OnFocusChange"@); assert("OnFocusChange"@.len() != "Vertical"@.len()); } else if j == 22 { reveal_strlit("OnWindowChange"); assert(table[22].0 == "OnWindowChange"@); assert("OnWindowChange"@.len() != "Vertical"@.len()); } else if j == 23 { reveal_strlit("PrimaryScreen"); assert(table[23].0 == "PrimaryScreen"@); assert("PrimaryScreen"@.len() != "Vertical"@.len()); } else if j == 24 { reveal_strlit("AllScreens"); assert(table[24].0 == "AllScreens"@); assert("AllScreens"@.len() != "Vertical"@.len()); } else if j == 25 { reveal_strlit("CurrentScreen"); assert(table[25].0 == "CurrentScreen"@); assert("CurrentScreen"@.len() != "Vertical"@.len()); } else if j == 26 { reveal_strlit("ActiveScreen"); assert(table[26].0 == "ActiveScreen"@); assert("ActiveScreen"@.len() != "Vertical"@.len()); } else if j == 27 { reveal_strlit("PlatformNative"); assert(table[27].0 == "PlatformNative"@); assert("PlatformNative"@.len() != "Vertical"@.len()); } else if j == 28 { reveal_strlit("Code"); assert(table[28].0 == "Code"@); assert("Code"@.len() != "Vertical"@.len()); } else if j == 29 { reveal_strlit("File"); assert(table[29].0 == "File"@); assert("File"@.len() != "Vertical"@.len()); } else if j == 30 { reveal_strlit("Bar"); assert(table[30].0 == "Bar"@); assert("Bar"@.len() != "Vertical"@.len()); } else if j == 31 { reveal_strlit("Block"); assert(table[31].0 == "Block"@); assert("Block"@.len() != "Vertical"@.len()); } else if j == 32 { reveal_strlit("Underline"); assert(table[32].0 == "Underline"@); assert("Underline"@.len() != "Vertical"@.len()); } else if j == 33 { reveal_strlit("Hollow"); assert(table[33].0 == "Hollow"@); assert("Hollow"@.len() != "Vertical"@.len()); } else if j == 34 { reveal_strlit("All"); assert(table[34].0 == "All"@); assert("All"@.len() != "Vertical"@.len()); } else if j == 35 { reveal_strlit("None"); assert(table[35].0 == "None"@); assert("None"@.len() != "Vertical"@.len()); } else if j == 36 { reveal_strlit("Current"); assert(table[36].0 == "Current"@); assert("Current"@.len() != "Vertical"@.len()); } else if j == 37 { reveal_strlit("Directory"); assert(table[37].0 == "Directory"@); assert("Directory"@.len() != "Vertical"@.len()); } else if j == 38 { reveal_strlit("Project"); assert(table[38].0 == "Project"@); assert("Project"@.len() != "Vertical"@.len()); } else if j == 39 { reveal_strlit("Hidden"); assert(table[39].0 == "Hidden"@); assert("Hidden"@.len() != "Vertical"@.len()); } else if j == 40 { reveal_strlit("Visible"); assert(table[40].0 == "Visible"@); assert("Visible"@.len() != "Vertical"@.len()); }
    }
    lemma_lookup_at(table, 41);
}

proof fn lemma_label_horizontal()
    ensures
        localized_label("Horizontal"@) == "水平"@,
{
    reveal_strlit("Horizontal");
    lemma_plain_name_normalized("Horizontal"@);
    let table = variant_label_table();
    assert(table[42] == ("Horizontal"@, "水平"@));
    assert forall|j: int| 0 <= j < 42 implies #[trigger] table[j].0 != table[42].0 by {
        if j == 0 { reveal_strlit("On"); assert(table[0].0 == "On"@); assert("On"@.len() != "Horizontal"@.len()); } else if j == 1 { reveal_strlit("Off"); assert(table[1].0 == "Off"@); assert("Off"@.len() != "Horizontal"@.len()); } else if j == 2 { reveal_strlit("Enabled"); assert(table[2].0 == "Enabled"@); assert("Enabled"@.len() != "Horizontal"@.len()); } else if j == 3 { reveal_strlit("Disabled"); assert(table[3].0 == "Disabled"@); assert("Disabled"@.len() != "Horizontal"@.len()); } else if j == 4 { reveal_strlit("Auto"); assert(table[4].0 == "Auto"@); assert("Auto"@.len() != "Horizontal"@.len()); } else if j == 5 { reveal_strlit("Always"); assert(table[5].0 == "Always"@); assert("Always"@.len() != "Horizontal"@.len()); } else if j == 6 { reveal_strlit("Never"); assert(table[6].0 == "Never"@); assert("Never"@.len() != "Horizontal"@.len()); } else if j == 7 { reveal_strlit("Left"); assert(table[7].0 == "Left"@); assert("Left"@.len() != "Horizontal"@.len()); } else if j == 8 { reveal_strlit("Right"); assert(table[8].0 == "Right"@); assert("Right"@.len() != "Horizontal"@.len()); } else if j == 9 { reveal_strlit("Top"); assert(table[9].0 == "Top"@); assert("Top"@.len() != "Horizontal"@.len()); } else if j == 10 { reveal_strlit("Bottom"); assert(table[10].0 == "Bottom"@); assert("Bottom"@.len() != "Horizontal"@.len()); } else if j == 11 { reveal_strlit("Center"); assert(table[11].0 == "Center"@); assert("Center"@.len() != "Horizontal"@.len()); } else if j == 12 { reveal_strlit("Static"); assert(table[12].0 == "Static"@); assert("Static"@.len() != "Horizontal"@.len()); } else if j == 13 { reveal_strlit("Dynamic"); assert(table[13].0 == "Dynamic"@); assert("Dynamic"@.len() != "Horizontal"@.len()); } else if j == 14 { reveal_strlit("System"); assert(table[14].0 == "System"@); assert("System"@.len() != "Horizontal"@.len()); } else if j == 15 { reveal_strlit("Light"); assert(table[15].0 == "Light"@); assert("Light"@.len() != "Horizontal"@.len()); } else if j == 16 { reveal_strlit("Dark"); assert(table[16].0 == "Dark"@); assert("Dark"@.len() != "Horizontal"@.len()); } else if j == 17 { reveal_strlit("Comfortable"); assert(table[17].0 == "Comfortable"@); assert("Comfortable"@.len() != "Horizontal"@.len()); } else if j == 18 { reveal_strlit("Standard"); assert(table[18].0 == "Standard"@); assert("Standard"@.len() != "Horizontal"@.len()); } else if j == 19 { reveal_strlit("Custom"); assert(table[19].0 == "Custom"@); assert("Custom"@.len() != "Horizontal"@.len()); } else if j == 20 { reveal_strlit("AfterDelay"); assert(table[20].0 == "AfterDelay"@); assert("AfterDelay"@[0] != "Horizontal"@[0]); } else if j == 21 { reveal_strlit("OnFocusChange"); assert(table[21].0 == "OnFocusChange"@); assert("OnFocusChange"@.len() != "Horizontal"@.len()); } else if j == 22 { reveal_strlit("OnWindowChange"); assert(table[22].0 == "OnWindowChange"@); assert("OnWindowChange"@.len() != "Horizontal"@.len()); } else if j == 23 { reveal_strlit("PrimaryScreen"); assert(table[23].0 == "PrimaryScreen"@); assert("PrimaryScreen"@.len() != "Horizontal"@.len()); } else if j == 24 { reveal_strlit("AllScreens"); assert(table[24].0 == "AllScreens"@); assert("AllScreens"@[0] != "Horizontal"@[0]); } else if j == 25 { reveal_strlit("CurrentScreen"); assert(table[25].0 == "CurrentScreen"@); assert("CurrentScreen"@.len() != "Horizontal"@.len()); } else if j == 26 { reveal_strlit("ActiveScreen"); assert(table[26].0 == "ActiveScreen"@); assert("ActiveScreen"@.len() != "Horizontal"@.len()); } else if j == 27 { reveal_strlit("PlatformNative"); assert(table[27].0 == "PlatformNative"@); assert("PlatformNative"@.len() != "Horizontal"@.len()); } else if j == 28 { reveal_strlit("Code"); assert(table[28].0 == "Code"@); assert("Code"@.len() != "Horizontal"@.len()); } else if j == 29 { reveal_strlit("File"); assert(table[29].0 == "File"@); assert("File"@.len() != "Horizontal"@.len()); } else if j == 30 { reveal_strlit("Bar"); assert(table[30].0 == "Bar"@); assert("Bar"@.len() != "Horizontal"@.len()); } else if j == 31 { reveal_strlit("Block"); assert(table[31].0 == "Block"@); assert("Block"@.len() != "Horizontal"@.len()); } else if j == 32 { reveal_strlit("Underline"); assert(table[32].0 == "Underline"@); assert("Underline"@.len() != "Horizontal"@.len()); } else if j == 33 { reveal_strlit("Hollow"); assert(table[33].0 == "Hollow"@); assert("Hollow"@.len() != "Horizontal"@.len()); } else if j == 34 { reveal_strlit("All"); assert(table[34].0 == "All"@); assert("All"@.len() != "Horizontal"@.len()); } else if j == 35 { reveal_strlit("None"); assert(table[35].0 == "None"@); assert("None"@.len() != "Horizontal"@.len()); } else if j == 36 { reveal_strlit("Current"); assert(table[36].0 == "Current"@); assert("Current"@.len() != "Horizontal"@.len()); } else if j == 37 { reveal_strlit("Directory"); assert(table[37].0 == "Directory"@); assert("Directory"@.len() != "Horizontal"@.len()); } else if j == 38 { reveal_strlit("Project"); assert(table[38].0 == "Project"@); assert("Project"@.len() != "Horizontal"@.len()); } else if j == 39 { reveal_strlit("Hidden"); assert(table[39].0 == "Hidden"@); assert("Hidden"@.len() != "Horizontal"@.len()); } else if j == 40 { reveal_strlit("Visible"); assert(table[40].0 == "Visible"@); assert("Visible"@.len() != "Horizontal"@.len()); } else if j == 41 { reveal_strlit("Vertical"); assert(table[41].0 == "Vertical"@); assert("Vertical"@.len() != "Horizontal"@.len()); }
    }
    lemma_lookup_at(table, 42);
}

proof fn lemma_label_wrapped()
    ensures
        localized_label("Wrapped"@) == "按折行"@,
{
    reveal_strlit("Wrapped");
    lemma_plain_name_normalized("Wrapped"@);
    let table = variant_label_table();
    assert(table[43] == ("Wrapped"@, "按折行"@));
    assert forall|j: int| 0 <= j < 43 implies #[trigger] table[j].0 != table[43].0 by {
        if j == 0 { reveal_strlit("On"); assert(table[0].0 == "On"@); assert("On"@.len() != "Wrapped"@.len()); } else if j == 1 { reveal_strlit("Off"); assert(table[1].0 == "Off"@); assert("Off"@.len() != "Wrapped"@.len()); } else if j == 2 { reveal_strlit("Enabled"); assert(table[2].0 == "Enabled"@); assert("Enabled"@[0] != "Wrapped"@[0]); } else if j == 3 { reveal_strlit("Disabled"); assert(table[3].0 == "Disabled"@); assert("Disabled"@.len() != "Wrapped"@.len()); } else if j == 4 { reveal_strlit("Auto"); assert(table[4].0 == "Auto"@); assert("Auto"@.len() != "Wrapped"@.len()); } else if j == 5 { reveal_strlit("Always"); assert(table[5].0 == "Always"@); assert("Always"@.len() != "Wrapped"@.len()); } else if j == 6 { reveal_strlit("Never"); assert(table[6].0 == "Never"@); assert("Never"@.len() != "Wrapped"@.len()); } else if j == 7 { reveal_strlit("Left"); assert(table[7].0 == "Left"@); assert("Left"@.len() != "Wrapped"@.len()); } else if j == 8 { reveal_strlit("Right"); assert(table[8].0 == "Right"@); assert("Right"@.len() != "Wrapped"@.len()); } else if j == 9 { reveal_strlit("Top"); assert(table[9].0 == "Top"@); assert("Top"@.len() != "Wrapped"@.len()); } else if j == 10 { reveal_strlit("Bottom"); assert(table[10].0 == "Bottom"@); assert("Bottom"@.len() != "Wrapped"@.len()); } else if j == 11 { reveal_strlit("Center"); assert(table[11].0 == "Center"@); assert("Center"@.len() != "Wrapped"@.len()); } else if j == 12 { reveal_strlit("Static"); assert(table[12].0 == "Static"@); assert("Static"@.len() != "Wrapped"@.len()); } else if j == 13 { reveal_strlit("Dynamic"); assert(table[13].0 == "Dynamic"@); assert("Dynamic"@[0] != "Wrapped"@[0]); } else if j == 14 { reveal_strlit("System"); assert(table[14].0 == "System"@); assert("System"@.len() != "Wrapped"@.len()); } else if j == 15 { reveal_strlit("Light"); assert(table[15].0 == "Light"@); assert("Light"@.len() != "Wrapped"@.len()); } else if j == 16 { reveal_strlit("Dark"); assert(table[16].0 == "Dark"@); assert("Dark"@.len() != "Wrapped"@.len()); } else if j == 17 { reveal_strlit("Comfortable"); assert(table[17].0 == "Comfortable"@); assert("Comfortable"@.len() != "Wrapped"@.len()); } else if j == 18 { reveal_strlit("Standard"); assert(table[18].0 == "Standard"@); assert("Standard"@.len() != "Wrapped"@.len()); } else if j == 19 { reveal_strlit("Custom"); assert(table[19].0 == "Custom"@); assert("Custom"@.len() != "Wrapped"@.len()); } else if j == 20 { reveal_strlit("AfterDelay"); assert(table[20].0 == "AfterDelay"@); assert("AfterDelay"@.len() != "Wrapped"@.len()); } else if j == 21 { reveal_strlit("OnFocusChange"); assert(table[21].0 == "OnFocusChange"@); assert("OnFocusChange"@.len() != "Wrapped"@.len()); } else if j == 22 { reveal_strlit("OnWindowChange"); assert(table[22].0 == "OnWindowChange"@); assert("OnWindowChange"@.len() != "Wrapped"@.len()); } else if j == 23 { reveal_strlit("PrimaryScreen"); assert(table[23].0 == "PrimaryScreen"@); assert("PrimaryScreen"@.len() != "Wrapped"@.len()); } else if j == 24 { reveal_strlit("AllScreens"); assert(table[24].0 == "AllScreens"@); assert("AllScreens"@.len() != "Wrapped"@.len()); } else if j == 25 { reveal_strlit("CurrentScreen"); assert(table[25].0 == "CurrentScreen"@); assert("CurrentScreen"@.len() != "Wrapped"@.len()); } else if j == 26 { reveal_strlit("ActiveScreen"); assert(table[26].0 == "ActiveScreen"@); assert("ActiveScreen"@.len() != "Wrapped"@.len()); } else if j == 27 { reveal_strlit("PlatformNative"); assert(table[27].0 == "PlatformNative"@); assert("PlatformNative"@.len() != "Wrapped"@.len()); } else if j == 28 { reveal_strlit("Code"); assert(table[28].0 == "Code"@); assert("Code"@.len() != "Wrapped"@.len()); } else if j == 29 { reveal_strlit("File"); assert(table[29].0 == "File"@); assert("File"@.len() != "Wrapped"@.len()); } else if j == 30 { reveal_strlit("Bar"); assert(table[30].0 == "Bar"@); assert("Bar"@.len() != "Wrapped"@.len()); } else if j == 31 { reveal_strlit("Block"); assert(table[31].0 == "Block"@); assert("Block"@.len() != "Wrapped"@.len()); } else if j == 32 { reveal_strlit("Underline"); assert(table[32].0 == "Underline"@); assert("Underline"@.len() != "Wrapped"@.len()); } else if j == 33 { reveal_strlit("Hollow"); assert(table[33].0 == "Hollow"@); assert("Hollow"@.len() != "Wrapped"@.len()); } else if j == 34 { reveal_strlit("All"); assert(table[34].0 == "All"@); assert("All"@.len() != "Wrapped"@.len()); } else if j == 35 { reveal_strlit("None"); assert(table[35].0 == "None"@); assert("None"@.len() != "Wrapped"@.len()); } else if j == 36 { reveal_strlit("Current"); assert(table[36].0 == "Current"@); assert("Current"@[0] != "Wrapped"@[0]); } else if j == 37 { reveal_strlit("Directory"); assert(table[37].0 == "Directory"@); assert("Directory"@.len() != "Wrapped"@.len()); } else if j == 38 { reveal_strlit("Project"); assert(table[38].0 == "Project"@); assert("Project"@[0] != "Wrapped"@[0]); } else if j == 39 { reveal_strlit("Hidden"); assert(table[39].0 == "Hidden"@); assert("Hidden"@.len() != "Wrapped"@.len()); } else if j == 40 { reveal_strlit("Visible"); assert(table[40].0 == "Visible"@); assert("Visible"@[0] != "Wrapped"@[0]); } else if j == 41 { reveal_strlit("Vertical"); assert(table[41].0 == "Vertical"@); assert("Vertical"@.len() != "Wrapped"@.len()); } else if j == 42 { reveal_strlit("Horizontal"); assert(table[42].0 == "Horizontal"@); assert("Horizontal"@.len() != "Wrapped"@.len()); }
    }
    lemma_lookup_at(table, 43);
}

proof fn lemma_label_open()
    ensures
        localized_label("Open"@) == "打开"@,
{
    reveal_strlit("Open");
    lemma_plain_name_normalized("Open"@);
    let table = variant_label_table();
    assert(table[44] == ("Open"@, "打开"@));
    assert forall|j: int| 0 <= j < 44 implies #[trigger] table[j].0 != table[44].0 by {
        if j == 0 { reveal_strlit("On"); assert(table[0].0 == "On"@); assert("On"@.len() != "Open"@.len()); } else if j == 1 { reveal_strlit("Off"); assert(table[1].0 == "Off"@); assert("Off"@.len() != "Open"@.len()); } else if j == 2 { reveal_strlit("Enabled"); assert(table[2].0 == "Enabled"@); assert("Enabled"@.len() != "Open"@.len()); } else if j == 3 { reveal_strlit("Disabled"); assert(table[3].0 == "Disabled"@); assert("Disabled"@.len() != "Open"@.len()); } else if j == 4 { reveal_strlit("Auto"); assert(table[4].0 == "Auto"@); assert("Auto"@[0] != "Open"@[0]); } else if j == 5 { reveal_strlit("Always"); assert(table[5].0 == "Always"@); assert("Always"@.len() != "Open"@.len()); } else if j == 6 { reveal_strlit("Never"); assert(table[6].0 == "Never"@); assert("Never"@.len() != "Open"@.len()); } else if j == 7 { reveal_strlit("Left"); assert(table[7].0 == "Left"@); assert("Left"@[0] != "Open"@[0]); } else if j == 8 { reveal_strlit("Right"); assert(table[8].0 == "Right"@); assert("Right"@.len() != "Open"@.len()); } else if j == 9 { reveal_strlit("Top"); assert(table[9].0 == "Top"@); assert("Top"@.len() != "Open"@.len()); } else if j == 10 { reveal_strlit("Bottom"); assert(table[10].0 == "Bottom"@); assert("Bottom"@.len() != "Open"@.len()); } else if j == 11 { reveal_strlit("Center"); assert(table[11].0 == "Center"@); assert("Center"@.len() != "Open"@.len()); } else if j == 12 { reveal_strlit("Static"); assert(table[12].0 == "Static"@); assert("Static"@.len() != "Open"@.len()); } else if j == 13 { reveal_strlit("Dynamic"); assert(table[13].0 == "Dynamic"@); assert("Dynamic"@.len() != "Open"@.len()); } else if j == 14 { reveal_strlit("System"); assert(table[14].0 == "System"@); assert("System"@.len() != "Open"@.len()); } else if j == 15 { reveal_strlit("Light"); assert(table[15].0 == "Light"@); assert("Light"@.len() != "Open"@.len()); } else if j == 16 { reveal_strlit("Dark"); assert(table[16].0 == "Dark"@); assert("Dark"@[0] != "Open"@[0]); } else if j == 17 { reveal_strlit("Comfortable"); assert(table[17].0 == "Comfortable"@); assert("Comfortable"@.len() != "Open"@.len()); } else if j == 18 { reveal_strlit("Standard"); assert(table[18].0 == "Standard"@); assert("Standard"@.len() != "Open"@.len()); } else if j == 19 { reveal_strlit("Custom"); assert(table[19].0 == "Custom"@); assert("Custom"@.len() != "Open"@.len()); } else if j == 20 { reveal_strlit("AfterDelay"); assert(table[20].0 == "AfterDelay"@); assert("AfterDelay"@.len() != "Open"@.len()); } else if j == 21 { reveal_strlit("OnFocusChange"); assert(table[21].0 == "OnFocusChange"@); assert("OnFocusChange"@.len() != "Open"@.len()); } else if j == 22 { reveal_strlit("OnWindowChange"); assert(table[22].0 == "OnWindowChange"@); assert("OnWindowChange"@.len() != "Open"@.len()); } else if j == 23 { reveal_strlit("PrimaryScreen"); assert(table[23].0 == "PrimaryScreen"@); assert("PrimaryScreen"@.len() != "Open"@.len()); } else if j == 24 { reveal_strlit("AllScreens"); assert(table[24].0 == "AllScreens"@); assert("AllScreens"@.len() != "Open"@.len()); } else if j == 25 { reveal_strlit("CurrentScreen"); assert(table[25].0 == "CurrentScreen"@); assert("CurrentScreen"@.len() != "Open"@.len()); } else if j == 26 { reveal_strlit("ActiveScreen"); assert(table[26].0 == "ActiveScreen"@); assert("ActiveScreen"@.len() != "Open"@.len()); } else if j == 27 { reveal_strlit("PlatformNative"); assert(table[27].0 == "PlatformNative"@); assert("PlatformNative"@.len() != "Open"@.len()); } else if j == 28 { reveal_strlit("Code"); assert(table[28].0 == "Code"@); assert("Code"@[0] != "Open"@[0]); } else if j == 29 { reveal_strlit("File"); assert(table[29].0 == "File"@); assert("File"@[0] != "Open"@[0]); } else if j == 30 { reveal_strlit("Bar"); assert(table[30].0 == "Bar"@); assert("Bar"@.len() != "Open"@.len()); } else if j == 31 { reveal_strlit("Block"); assert(table[31].0 == "Block"@); assert("Block"@.len() != "Open"@.len()); } else if j == 32 { reveal_strlit("Underline"); assert(table[32].0 == "Underline"@); assert("Underline"@.len() != "Open"@.len()); } else if j == 33 { reveal_strlit("Hollow"); assert(table[33].0 == "Hollow"@); assert("Hollow"@.len() != "Open"@.len()); } else if j == 34 { reveal_strlit("All"); assert(table[34].0 == "All"@); assert("All"@.len() != "Open"@.len()); } else if j == 35 { reveal_strlit("None"); assert(table[35].0 == "None"@); assert("None"@[0] != "Open"@[0]); } else if j == 36 { reveal_strlit("Current"); assert(table[36].0 == "Current"@); assert("Current"@.len() != "Open"@.len()); } else if j == 37 { reveal_strlit("Directory"); assert(table[37].0 == "Directory"@); assert("Directory"@.len() != "Open"@.len()); } else if j == 38 { reveal_strlit("Project"); assert(table[38].0 == "Project"@); assert("Project"@.len() != "Open"@.len()); } else if j == 39 { reveal_strlit("Hidden"); assert(table[39].0 == "Hidden"@); assert("Hidden"@.len() != "Open"@.len()); } else if j == 40 { reveal_strlit("Visible"); assert(table[40].0 == "Visible"@); assert("Visible"@.len() != "Open"@.len()); } else if j == 41 { reveal_strlit("Vertical"); assert(table[41].0 == "Vertical"@); assert("Vertical"@.len() != "Open"@.len()); } else if j == 42 { reveal_strlit("Horizontal"); assert(table[42].0 == "Horizontal"@); assert("Horizontal"@.len() != "Open"@.len()); } else if j == 43 { reveal_strlit("Wrapped"); assert(table[43].0 == "Wrapped"@); assert("Wrapped"@.len() != "Open"@.len()); }
    }
    lemma_lookup_at(table, 44);
}

proof fn lemma_label_closed()
    ensures
        localized_label("Closed"@) == "关闭"@,
{
    reveal_strlit("Closed");
    lemma_plain_name_normalized("Closed"@);
    let table = variant_label_table();
    assert(table[45] == ("Closed"@, "关闭"@));
    assert forall|j: int| 0 <= j < 45 implies #[trigger] table[j].0 != table[45].0 by {
        if j == 0 { reveal_strlit("On"); assert(table[0].0 == "On"@); assert("On"@.len() != "Closed"@.len()); } else if j == 1 { reveal_strlit("Off"); assert(table[1].0 == "Off"@); assert("Off"@.len() != "Closed"@.len()); } else if j == 2 { reveal_strlit("Enabled"); assert(table[2].0 == "Enabled"@); assert("Enabled"@.len() != "Closed"@.len()); } else if j == 3 { reveal_strlit("Disabled"); assert(table[3].0 == "Disabled"@); assert("Disabled"@.len() != "Closed"@.len()); } else if j == 4 { reveal_strlit("Auto"); assert(table[4].0 == "Auto"@); assert("Auto"@.len() != "Closed"@.len()); } else if j == 5 { reveal_strlit("Always"); assert(table[5].0 == "Always"@); assert("Always"@[0] != "Closed"@[0]); } else if j == 6 { reveal_strlit("Never"); assert(table[6].0 == "Never"@); assert("Never"@.len() != "Closed"@.len()); } else if j == 7 { reveal_strlit("Left"); assert(table[7].0 == "Left"@); assert("Left"@.len() != "Closed"@.len()); } else if j == 8 { reveal_strlit("Right"); assert(table[8].0 == "Right"@); assert("Right"@.len() != "Closed"@.len()); } else if j == 9 { reveal_strlit("Top"); assert(table[9].0 == "Top"@); assert("Top"@.len() != "Closed"@.len()); } else if j == 10 { reveal_strlit("Bottom"); assert(table[10].0 == "Bottom"@); assert("Bottom"@[0] != "Closed"@[0]); } else if j == 11 { reveal_strlit("Center"); assert(table[11].0 == "Center"@); assert("Center"@[1] != "Closed"@[1]); } else if j == 12 { reveal_strlit("Static"); assert(table[12].0 == "Static"@); assert("Static"@[0] != "Closed"@[0]); } else if j == 13 { reveal_strlit("Dynamic"); assert(table[13].0 == "Dynamic"@); assert("Dynamic"@.len() != "Closed"@.len()); } else if j == 14 { reveal_strlit("System"); assert(table[14].0 == "System"@); assert("System"@[0] != "Closed"@[0]); } else if j == 15 { reveal_strlit("Light"); assert(table[15].0 == "Light"@); assert("Light"@.len() != "Closed"@.len()); } else if j == 16 { reveal_strlit("Dark"); assert(table[16].0 == "Dark"@); assert("Dark"@.len() != "Closed"@.len()); } else if j == 17 { reveal_strlit("Comfortable"); assert(table[17].0 == "Comfortable"@); assert("Comfortable"@.len() != "Closed"@.len()); } else if j == 18 { reveal_strlit("Standard"); assert(table[18].0 == "Standard"@); assert("Standard"@.len() != "Closed"@.len()); } else if j == 19 { reveal_strlit("Custom"); assert(table[19].0 == "Custom"@); assert("Custom"@[1] != "Closed"@[1]); } else if j == 20 { reveal_strlit("AfterDelay"); assert(table[20].0 == "AfterDelay"@); assert("AfterDelay"@.len() != "Closed"@.len()); } else if j == 21 { reveal_strlit("OnFocusChange"); assert(table[21].0 == "OnFocusChange"@); assert("OnFocusChange"@.len() != "Closed"@.len()); } else if j == 22 { reveal_strlit("OnWindowChange"); assert(table[22].0 == "OnWindowChange"@); assert("OnWindowChange"@.len() != "Closed"@.len()); } else if j == 23 { reveal_strlit("PrimaryScreen"); assert(table[23].0 == "PrimaryScreen"@); assert("PrimaryScreen"@.len() != "Closed"@.len()); } else if j == 24 { reveal_strlit("AllScreens"); assert(table[24].0 == "AllScreens"@); assert("AllScreens"@.len() != "Closed"@.len()); } else if j == 25 { reveal_strlit("CurrentScreen"); assert(table[25].0 == "CurrentScreen"@); assert("CurrentScreen"@.len() != "Closed"@.len()); } else if j == 26 { reveal_strlit("ActiveScreen"); assert(table[26].0 == "ActiveScreen"@); assert("ActiveScreen"@.len() != "Closed"@.len()); } else if j == 27 { reveal_strlit("PlatformNative"); assert(table[27].0 == "PlatformNative"@); assert("PlatformNative"@.len() != "Closed"@.len()); } else if j == 28 { reveal_strlit("Code"); assert(table[28].0 == "Code"@); assert("Code"@.len() != "Closed"@.len()); } else if j == 29 { reveal_strlit("File"); assert(table[29].0 == "File"@); assert("File"@.len() != "Closed"@.len()); } else if j == 30 { reveal_strlit("Bar"); assert(table[30].0 == "Bar"@); assert("Bar"@.len() != "Closed"@.len()); } else if j == 31 { reveal_strlit("Block"); assert(table[31].0 == "Block"@); assert("Block"@.len() != "Closed"@.len()); } else if j == 32 { reveal_strlit("Underline"); assert(table[32].0 == "Underline"@); assert("Underline"@.len() != "Closed"@.len()); } else if j == 33 { reveal_strlit("Hollow"); assert(table[33].0 == "Hollow"@); assert("Hollow"@[0] != "Closed"@[0]); } else if j == 34 { reveal_strlit("All"); assert(table[34].0 == "All"@); assert("All"@.len() != "Closed"@.len()); } else if j == 35 { reveal_strlit("None"); assert(table[35].0 == "None"@); assert("None"@.len() != "Closed"@.len()); } else if j == 36 { reveal_strlit("Current"); assert(table[36].0 == "Current"@); assert("Current"@.len() != "Closed"@.len()); } else if j == 37 { reveal_strlit("Directory"); assert(table[37].0 == "Directory"@); assert("Directory"@.len() != "Closed"@.len()); } else if j == 38 { reveal_strlit("Project"); assert(table[38].0 == "Project"@); assert("Project"@.len() != "Closed"@.len()); } else if j == 39 { reveal_strlit("Hidden"); assert(table[39].0 == "Hidden"@); assert("Hidden"@[0] != "Closed"@[0]); } else if j == 40 { reveal_strlit("Visible"); assert(table[40].0 == "Visible"@); assert("Visible"@.len() != "Closed"@.len()); } else if j == 41 { reveal_strlit("Vertical"); assert(table[41].0 == "Vertical"@); assert("Vertical"@.len() != "Closed"@.len()); } else if j == 42 { reveal_strlit("Horizontal"); assert(table[42].0 == "Horizontal"@); assert("Horizontal"@.len() != "Closed"@.len()); } else if j == 43 { reveal_strlit("Wrapped"); assert(table[43].0 == "Wrapped"@); assert("Wrapped"@.len() != "Closed"@.len()); } else if j == 44 { reveal_strlit("Open"); assert(table[44].0 == "Open"@); assert("Open"@.len() != "Closed"@.len()); }
    }
    lemma_lookup_at(table, 45);
}

proof fn lemma_label_docked()
    ensures
        localized_label("Docked"@) == "停靠"@,
{
    reveal_strlit("Docked");
    lemma_plain_name_normalized("Docked"@);
    let table = variant_label_table();
    assert(table[46] == ("Docked"@, "停靠"@));
    assert forall|j: int| 0 <= j < 46 implies #[trigger] table[j].0 != table[46].0 by {
        if j == 0 { reveal_strlit("On"); assert(table[0].0 == "On"@); assert("On"@.len() != "Docked"@.len()); } else if j == 1 { reveal_strlit("Off"); assert(table[1].0 == "Off"@); assert("Off"@.len() != "Docked"@.len()); } else if j == 2 { reveal_strlit("Enabled"); assert(table[2].0 == "Enabled"@); assert("Enabled"@.len() != "Docked"@.len()); } else if j == 3 { reveal_strlit("Disabled"); assert(table[3].0 == "Disabled"@); assert("Disabled"@.len() != "Docked"@.len()); } else if j == 4 { reveal_strlit("Auto"); assert(table[4].0 == "Auto"@); assert("Auto"@.len() != "Docked"@.len()); } else if j == 5 { reveal_strlit("Always"); assert(table[5].0 == "Always"@); assert("Always"@[0] != "Docked"@[0]); } else if j == 6 { reveal_strlit("Never"); assert(table[6].0 == "Never"@); assert("Never"@.len() != "Docked"@.len()); } else if j == 7 { reveal_strlit("Left"); assert(table[7].0 == "Left"@); assert("Left"@.len() != "Docked"@.len()); } else if j == 8 { reveal_strlit("Right"); assert(table[8].0 == "Right"@); assert("Right"@.len() != "Docked"@.len()); } else if j == 9 { reveal_strlit("Top"); assert(table[9].0 == "Top"@); assert("Top"@.len() != "Docked"@.len()); } else if j == 10 { reveal_strlit("Bottom"); assert(table[10].0 == "Bottom"@); assert("Bottom"@[0] != "Docked"@[0]); } else if j == 11 { reveal_strlit("Center"); assert(table[11].0 == "Center"@); assert("Center"@[0] != "Docked"@[0]); } else if j == 12 { reveal_strlit("Static"); assert(table[12].0 == "Static"@); assert("Static"@[0] != "Docked"@[0]); } else if j == 13 { reveal_strlit("Dynamic"); assert(table[13].0 == "Dynamic"@); assert("Dynamic"@.len() != "Docked"@.len()); } else if j == 14 { reveal_strlit("System"); assert(table[14].0 == "System"@); assert("System"@[0] != "Docked"@[0]); } else if j == 15 { reveal_strlit("Light"); assert(table[15].0 == "Light"@); assert("Light"@.len() != "Docked"@.len()); } else if j == 16 { reveal_strlit("Dark"); assert(table[16].0 == "Dark"@); assert("Dark"@.len() != "Docked"@.len()); } else if j == 17 { reveal_strlit("Comfortable"); assert(table[17].0 == "Comfortable"@); assert("Comfortable"@.len() != "Docked"@.len()); } else if j == 18 { reveal_strlit("Standard"); assert(table[18].0 == "Standard"@); assert("Standard"@.len() != "Docked"@.len()); } else if j == 19 { reveal_strlit("Custom"); assert(table[19].0 == "Custom"@); assert("Custom"@[0] != "Docked"@[0]); } else if j == 20 { reveal_strlit("AfterDelay"); assert(table[20].0 == "AfterDelay"@); assert("AfterDelay"@.len() != "Docked"@.len()); } else if j == 21 { reveal_strlit("OnFocusChange"); assert(table[21].0 == "OnFocusChange"@); assert("OnFocusChange"@.len() != "Docked"@.len()); } else if j == 22 { reveal_strlit("OnWindowChange"); assert(table[22].0 == "OnWindowChange"@); assert("OnWindowChange"@.len() != "Docked"@.len()); } else if j == 23 { reveal_strlit("PrimaryScreen"); assert(table[23].0 == "PrimaryScreen"@); assert("PrimaryScreen"@.len() != "Docked"@.len()); } else if j == 24 { reveal_strlit("AllScreens"); assert(table[24].0 == "AllScreens"@); assert("AllScreens"@.len() != "Docked"@.len()); } else if j == 25 { reveal_strlit("CurrentScreen"); assert(table[25].0 == "CurrentScreen"@); assert("CurrentScreen"@.len() != "Docked"@.len()); } else if j == 26 { reveal_strlit("ActiveScreen"); assert(table[26].0 == "ActiveScreen"@); assert("ActiveScreen"@.len() != "Docked"@.len()); } else if j == 27 { reveal_strlit("PlatformNative"); assert(table[27].0 == "PlatformNative"@); assert("PlatformNative"@.len() != "Docked"@.len()); } else if j == 28 { reveal_strlit("Code"); assert(table[28].0 == "Code"@); assert("Code"@.len() != "Docked"@.len()); } else if j == 29 { reveal_strlit("File"); assert(table[29].0 == "File"@); assert("File"@.len() != "Docked"@.len()); } else if j == 30 { reveal_strlit("Bar"); assert(table[30].0 == "Bar"@); assert("Bar"@.len() != "Docked"@.len()); } else if j == 31 { reveal_strlit("Block"); assert(table[31].0 == "Block"@); assert("Block"@.len() != "Docked"@.len()); } else if j == 32 { reveal_strlit("Underline"); assert(table[32].0 == "Underline"@); assert("Underline"@.len() != "Docked"@.len()); } else if j == 33 { reveal_strlit("Hollow"); assert(table[33].0 == "Hollow"@); assert("Hollow"@[0] != "Docked"@[0]); } else if j == 34 { reveal_strlit("All"); assert(table[34].0 == "All"@); assert("All"@.len() != "Docked"@.len()); } else if j == 35 { reveal_strlit("None"); assert(table[35].0 == "None"@); assert("None"@.len() != "Docked"@.len()); } else if j == 36 { reveal_strlit("Current"); assert(table[36].0 == "Current"@); assert("Current"@.len() != "Docked"@.len()); } else if j == 37 { reveal_strlit("Directory"); assert(table[37].0 == "Directory"@); assert("Directory"@.len() != "Docked"@.len()); } else if j == 38 { reveal_strlit("Project"); assert(table[38].0 == "Project"@); assert("Project"@.len() != "Docked"@.len()); } else if j == 39 { reveal_strlit("Hidden"); assert(table[39].0 == "Hidden"@); assert("Hidden"@[0] != "Docked"@[0]); } else if j == 40 { reveal_strlit("Visible"); assert(table[40].0 == "Visible"@); assert("Visible"@.len() != "Docked"@.len()); } else if j == 41 { reveal_strlit("Vertical"); assert(table[41].0 == "Vertical"@); assert("Vertical"@.len() != "Docked"@.len()); } else if j == 42 { reveal_strlit("Horizontal"); assert(table[42].0 == "Horizontal"@); assert("Horizontal"@.len() != "Docked"@.len()); } else if j == 43 { reveal_strlit("Wrapped"); assert(table[43].0 == "Wrapped"@); assert("Wrapped"@.len() != "Docked"@.len()); } else if j == 44 { reveal_strlit("Open"); assert(table[44].0 == "Open"@); assert("Open"@.len() != "Docked"@.len()); } else if j == 45 { reveal_strlit("Closed"); assert(table[45].0 == "Closed"@); assert("Closed"@[0] != "Docked"@[0]); }
    }
    lemma_lookup_at(table, 46);
}

proof fn lemma_label_fullscreen()
    ensures
        localized_label("Fullscreen"@) == "全屏"@,
{
    reveal_strlit("Fullscreen");
    lemma_plain_name_normalized("Fullscreen"@);
    let table = variant_label_table();
    assert(table[47] == ("Fullscreen"@, "全屏"@));
    assert forall|j: int| 0 <= j < 47 implies #[trigger] table[j].0 != table[47].0 by {
        if j == 0 { reveal_strlit("On"); assert(table[0].0 == "On"@); assert("On"@.len() != "Fullscreen"@.len()); } else if j == 1 { reveal_strlit("Off"); assert(table[1].0 == "Off"@); assert("Off"@.len() != "Fullscreen"@.len()); } else if j == 2 { reveal_strlit("Enabled"); assert(table[2].0 == "Enabled"@); assert("Enabled"@.len() != "Fullscreen"@.len()); } else if j == 3 { reveal_strlit("Disabled"); assert(table[3].0 == "Disabled"@); assert("Disabled"@.len() != "Fullscreen"@.len()); } else if j == 4 { reveal_strlit("Auto"); assert(table[4].0 == "Auto"@); assert("Auto"@.len() != "Fullscreen"@.len()); } else if j == 5 { reveal_strlit("Always"); assert(table[5].0 == "Always"@); assert("Always"@.len() != "Fullscreen"@.len()); } else if j == 6 { reveal_strlit("Never"); assert(table[6].0 == "Never"@); assert("Never"@.len() != "Fullscreen"@.len()); } else if j == 7 { reveal_strlit("Left"); assert(table[7].0 == "Left"@); assert("Left"@.len() != "Fullscreen"@.len()); } else if j == 8 { reveal_strlit("Right"); assert(table[8].0 == "Right"@); assert("Right"@.len() != "Fullscreen"@.len()); } else if j == 9 { reveal_strlit("Top"); assert(table[9].0 == "Top"@); assert("Top"@.len() != "Fullscreen"@.len()); } else if j == 10 { reveal_strlit("Bottom"); assert(table[10].0 == "Bottom"@); assert("Bottom"@.len() != "Fullscreen"@.len()); } else if j == 11 { reveal_strlit("Center"); assert(table[11].0 == "Center"@); assert("Center"@.len() != "Fullscreen"@.len()); } else if j == 12 { reveal_strlit("Static"); assert(table[12].0 == "Static"@); assert("Static"@.len() != "Fullscreen"@.len()); } else if j == 13 { reveal_strlit("Dynamic"); assert(table[13].0 == "Dynamic"@); assert("Dynamic"@.len() != "Fullscreen"@.len()); } else if j == 14 { reveal_strlit("System"); assert(table[14].0 == "System"@); assert("System"@.len() != "Fullscreen"@.len()); } else if j == 15 { reveal_strlit("Light"); assert(table[15].0 == "Light"@); assert("Light"@.len() != "Fullscreen"@.len()); } else if j == 16 { reveal_strlit("Dark"); assert(table[16].0 == "Dark"@); assert("Dark"@.len() != "Fullscreen"@.len()); } else if j == 17 { reveal_strlit("Comfortable"); assert(table[17].0 == "Comfortable"@); assert("Comfortable"@.len() != "Fullscreen"@.len()); } else if j == 18 { reveal_strlit("Standard"); assert(table[18].0 == "Standard"@); assert("Standard"@.len() != "Fullscreen"@.len()); } else if j == 19 { reveal_strlit("Custom"); assert(table[19].0 == "Custom"@); assert("Custom"@.len() != "Fullscreen"@.len()); } else if j == 20 { reveal_strlit("AfterDelay"); assert(table[20].0 == "AfterDelay"@); assert("AfterDelay"@[0] != "Fullscreen"@[0]); } else if j == 21 { reveal_strlit("OnFocusChange"); assert(table[21].0 == "OnFocusChange"@); assert("OnFocusChange"@.len() != "Fullscreen"@.len()); } else if j == 22 { reveal_strlit("OnWindowChange"); assert(table[22].0 == "OnWindowChange"@); assert("OnWindowChange"@.len() != "Fullscreen"@.len()); } else if j == 23 { reveal_strlit("PrimaryScreen"); assert(table[23].0 == "PrimaryScreen"@); assert("PrimaryScreen"@.len() != "Fullscreen"@.len()); } else if j == 24 { reveal_strlit("AllScreens"); assert(table[24].0 == "AllScreens"@); assert("AllScreens"@[0] != "Fullscreen"@[0]); } else if j == 25 { reveal_strlit("CurrentScreen"); assert(table[25].0 == "CurrentScreen"@); assert("CurrentScreen"@.len() != "Fullscreen"@.len()); } else if j == 26 { reveal_strlit("ActiveScreen"); assert(table[26].0 == "ActiveScreen"@); assert("ActiveScreen"@.len() != "Fullscreen"@.len()); } else if j == 27 { reveal_strlit("PlatformNative"); assert(table[27].0 == "PlatformNative"@); assert("PlatformNative"@.len() != "Fullscreen"@.len()); } else if j == 28 { reveal_strlit("Code"); assert(table[28].0 == "Code"@); assert("Code"@.len() != "Fullscreen"@.len()); } else if j == 29 { reveal_strlit("File"); assert(table[29].0 == "File"@); assert("File"@.len() != "Fullscreen"@.len()); } else if j == 30 { reveal_strlit("Bar"); assert(table[30].0 == "Bar"@); assert("Bar"@.len() != "Fullscreen"@.len()); } else if j == 31 { reveal_strlit("Block"); assert(table[31].0 == "Block"@); assert("Block"@.len() != "Fullscreen"@.len()); } else if j == 32 { reveal_strlit("Underline"); assert(table[32].0 == "Underline"@); assert("Underline"@.len() != "Fullscreen"@.len()); } else if j == 33 { reveal_strlit("Hollow"); assert(table[33].0 == "Hollow"@); assert("Hollow"@.len() != "Fullscreen"@.len()); } else if j == 34 { reveal_strlit("All"); assert(table[34].0 == "All"@); assert("All"@.len() != "Fullscreen"@.len()); } else if j == 35 { reveal_strlit("None"); assert(table[35].0 == "None"@); assert("None"@.len() != "Fullscreen"@.len()); } else if j == 36 { reveal_strlit("Current"); assert(table[36].0 == "Current"@); assert("Current"@.len() != "Fullscreen"@.len()); } else if j == 37 { reveal_strlit("Directory"); assert(table[37].0 == "Directory"@); assert("Directory"@.len() != "Fullscreen"@.len()); } else if j == 38 { reveal_strlit("Project"); assert(table[38].0 == "Project"@); assert("Project"@.len() != "Fullscreen"@.len()); } else if j == 39 { reveal_strlit("Hidden"); assert(table[39].0 == "Hidden"@); assert("Hidden"@.len() != "Fullscreen"@.len()); } else if j == 40 { reveal_strlit("Visible"); assert(table[40].0 == "Visible"@); assert("Visible"@.len() != "Fullscreen"@.len()); } else if j == 41 { reveal_strlit("Vertical"); assert(table[41].0 == "Vertical"@); assert("Vertical"@.len() != "Fullscreen"@.len()); } else if j == 42 { reveal_strlit("Horizontal"); assert(table[42].0 == "Horizontal"@); assert("Horizontal"@[0] != "Fullscreen"@[0]); } else if j == 43 { reveal_strlit("Wrapped"); assert(table[43].0 == "Wrapped"@); assert("Wrapped"@.len() != "Fullscreen"@.len()); } else if j == 44 { reveal_strlit("Open"); assert(table[44].0 == "Open"@); assert("Open"@.len() != "Fullscreen"@.len()); } else if j == 45 { reveal_strlit("Closed"); assert(table[45].0 == "Closed"@); assert("Closed"@.len() != "Fullscreen"@.len()); } else if j == 46 { reveal_strlit("Docked"); assert(table[46].0 == "Docked"@); assert("Docked"@.len() != "Fullscreen"@.len()); }
    }
    lemma_lookup_at(table, 47);
}

proof fn lemma_label_screen()
    ensures
        localized_label("Screen"@) == "屏幕"@,
{
    reveal_strlit("Screen");
    lemma_plain_name_normalized("Screen"@);
    let table = variant_label_table();
    assert(table[48] == ("Screen"@, "屏幕"@));
    assert forall|j: int| 0 <= j < 48 implies #[trigger] table[j].0 != table[48].0 by {
        if j == 0 { reveal_strlit("On"); assert(table[0].0 == "On"@); assert("On"@.len() != "Screen"@.len()); } else if j == 1 { reveal_strlit("Off"); assert(table[1].0 == "Off"@); assert("Off"@.len() != "Screen"@.len()); } else if j == 2 { reveal_strlit("Enabled"); assert(table[2].0 == "Enabled"@); assert("Enabled"@.len() != "Screen"@.len()); } else if j == 3 { reveal_strlit("Disabled"); assert(table[3].0 == "Disabled"@); assert("Disabled"@.len() != "Screen"@.len()); } else if j == 4 { reveal_strlit("Auto"); assert(table[4].0 == "Auto"@); assert("Auto"@.len() != "Screen"@.len()); } else if j == 5 { reveal_strlit("Always"); assert(table[5].0 == "Always"@); assert("Always"@[0] != "Screen"@[0]); } else if j == 6 { reveal_strlit("Never"); assert(table[6].0 == "Never"@); assert("Never"@.len() != "Screen"@.len()); } else if j == 7 { reveal_strlit("Left"); assert(table[7].0 == "Left"@); assert("Left"@.len() != "Screen"@.len()); } else if j == 8 { reveal_strlit("Right"); assert(table[8].0 == "Right"@); assert("Right"@.len() != "Screen"@.len()); } else if j == 9 { reveal_strlit("Top"); assert(table[9].0 == "Top"@); assert("Top"@.len() != "Screen"@.len()); } else if j == 10 { reveal_strlit("Bottom"); assert(table[10].0 == "Bottom"@); assert("Bottom"@[0] != "Screen"@[0]); } else if j == 11 { reveal_strlit("Center"); assert(table[11].0 == "Center"@); assert("Center"@[0] != "Screen"@[0]); } else if j == 12 { reveal_strlit("Static"); assert(table[12].0 == "Static"@); assert("Static"@[1] != "Screen"@[1]); } else if j == 13 { reveal_strlit("Dynamic"); assert(table[13].0 == "Dynamic"@); assert("Dynamic"@.len() != "Screen"@.len()); } else if j == 14 { reveal_strlit("System"); assert(table[14].0 == "System"@); assert("System"@[1] != "Screen"@[1]); } else if j == 15 { reveal_strlit("Light"); assert(table[15].0 == "Light"@); assert("Light"@.len() != "Screen"@.len()); } else if j == 16 { reveal_strlit("Dark"); assert(table[16].0 == "Dark"@); assert("Dark"@.len() != "Screen"@.len()); } else if j == 17 { reveal_strlit("Comfortable"); assert(table[17].0 == "Comfortable"@); assert("Comfortable"@.len() != "Screen"@.len()); } else if j == 18 { reveal_strlit("Standard"); assert(table[18].0 == "Standard"@); assert("Standard"@.len() != "Screen"@.len()); } else if j == 19 { reveal_strlit("Custom"); assert(table[19].0 == "Custom"@); assert("Custom"@[0] != "Screen"@[0]); } else if j == 20 { reveal_strlit("AfterDelay"); assert(table[20].0 == "AfterDelay"@); assert("AfterDelay"@.len() != "Screen"@.len()); } else if j == 21 { reveal_strlit("OnFocusChange"); assert(table[21].0 == "OnFocusChange"@); assert("OnFocusChange"@.len() != "Screen"@.len()); } else if j == 22 { reveal_strlit("OnWindowChange"); assert(table[22].0 == "OnWindowChange"@); assert("OnWindowChange"@.len() != "Screen"@.len()); } else if j == 23 { reveal_strlit("PrimaryScreen"); assert(table[23].0 == "PrimaryScreen"@); assert("PrimaryScreen"@.len() != "Screen"@.len()); } else if j == 24 { reveal_strlit("AllScreens"); assert(table[24].0 == "AllScreens"@); assert("AllScreens"@.len() != "Screen"@.len()); } else if j == 25 { reveal_strlit("CurrentScreen"); assert(table[25].0 == "CurrentScreen"@); assert("CurrentScreen"@.len() != "Screen"@.len()); } else if j == 26 { reveal_strlit("ActiveScreen"); assert(table[26].0 == "ActiveScreen"@); assert("ActiveScreen"@.len() != "Screen"@.len()); } else if j == 27 { reveal_strlit("PlatformNative"); assert(table[27].0 == "PlatformNative"@); assert("PlatformNative"@.len() != "Screen"@.len()); } else if j == 28 { reveal_strlit("Code"); assert(table[28].0 == "Code"@); assert("Code"@.len() != "Screen"@.len()); } else if j == 29 { reveal_strlit("File"); assert(table[29].0 == "File"@); assert("File"@.len() != "Screen"@.len()); } else if j == 30 { reveal_strlit("Bar"); assert(table[30].0 == "Bar"@); assert("Bar"@.len() != "Screen"@.len()); } else if j == 31 { reveal_strlit("Block"); assert(table[31].0 == "Block"@); assert("Block"@.len() != "Screen"@.len()); } else if j == 32 { reveal_strlit("Underline"); assert(table[32].0 == "Underline"@); assert("Underline"@.len() != "Screen"@.len()); } else if j == 33 { reveal_strlit("Hollow"); assert(table[33].0 == "Hollow"@); assert("Hollow"@[0] != "Screen"@[0]); } else if j == 34 { reveal_strlit("All"); assert(table[34].0 == "All"@); assert("All"@.len() != "Screen"@.len()); } else if j == 35 { reveal_strlit("None"); assert(table[35].0 == "None"@); assert("None"@.len() != "Screen"@.len()); } else if j == 36 { reveal_strlit("Current"); assert(table[36].0 == "Current"@); assert("Current"@.len() != "Screen"@.len()); } else if j == 37 { reveal_strlit("Directory"); assert(table[37].0 == "Directory"@); assert("Directory"@.len() != "Screen"@.len()); } else if j == 38 { reveal_strlit("Project"); assert(table[38].0 == "Project"@); assert("Project"@.len() != "Screen"@.len()); } else if j == 39 { reveal_strlit("Hidden"); assert(table[39].0 == "Hidden"@); assert("Hidden"@[0] != "Screen"@[0]); } else if j == 40 { reveal_strlit("Visible"); assert(table[40].0 == "Visible"@); assert("Visible"@.len() != "Screen"@.len()); } else if j == 41 { reveal_strlit("Vertical"); assert(table[41].0 == "Vertical"@); assert("Vertical"@.len() != "Screen"@.len()); } else if j == 42 { reveal_strlit("Horizontal"); assert(table[42].0 == "Horizontal"@); assert("Horizontal"@.len() != "Screen"@.len()); } else if j == 43 { reveal_strlit("Wrapped"); assert(table[43].0 == "Wrapped"@); assert("Wrapped"@.len() != "Screen"@.len()); } else if j == 44 { reveal_strlit("Open"); assert(table[44].0 == "Open"@); assert("Open"@.len() != "Screen"@.len()); } else if j == 45 { reveal_strlit("Closed"); assert(table[45].0 == "Closed"@); assert("Closed"@[0] != "Screen"@[0]); } else if j == 46 { reveal_strlit("Docked"); assert(table[46].0 == "Docked"@); assert("Docked"@[0] != "Screen"@[0]); } else if j == 47 { reveal_strlit("Fullscreen"); assert(table[47].0 == "Fullscreen"@); assert("Fullscreen"@.len() != "Screen"@.len()); }
    }
    lemma_lookup_at(table, 48);
}

proof fn lemma_label_workspace()
    ensures
        localized_label("Workspace"@) == "工作区"@,
{
    reveal_strlit("Workspace");
    lemma_plain_name_normalized("Workspace"@);
    let table = variant_label_table();
    assert(table[49] == ("Workspace"@, "工作区"@));
    assert forall|j: int| 0 <= j < 49 implies #[trigger] table[j].0 != table[49].0 by {
        if j == 0 { reveal_strlit("On"); assert(table[0].0 == "On"@); assert("On"@.len() != "Workspace"@.len()); } else if j == 1 { reveal_strlit("Off"); assert(table[1].0 == "Off"@); assert("Off"@.len() != "Workspace"@.len()); } else if j == 2 { reveal_strlit("Enabled"); assert(table[2].0 == "Enabled"@); assert("Enabled"@.len() != "Workspace"@.len()); } else if j == 3 { reveal_strlit("Disabled"); assert(table[3].0 == "Disabled"@); assert("Disabled"@.len() != "Workspace"@.len()); } else if j == 4 { reveal_strlit("Auto"); assert(table[4].0 == "Auto"@); assert("Auto"@.len() != "Workspace"@.len()); } else if j == 5 { reveal_strlit("Always"); assert(table[5].0 == "Always"@); assert("Always"@.len() != "Workspace"@.len()); } else if j == 6 { reveal_strlit("Never"); assert(table[6].0 == "Never"@); assert("Never"@.len() != "Workspace"@.len()); } else if j == 7 { reveal_strlit("Left"); assert(table[7].0 == "Left"@); assert("Left"@.len() != "Workspace"@.len()); } else if j == 8 { reveal_strlit("Right"); assert(table[8].0 == "Right"@); assert("Right"@.len() != "Workspace"@.len()); } else if j == 9 { reveal_strlit("Top"); assert(table[9].0 == "Top"@); assert("Top"@.len() != "Workspace"@.len()); } else if j == 10 { reveal_strlit("Bottom"); assert(table[10].0 == "Bottom"@); assert("Bottom"@.len() != "Workspace"@.len()); } else if j == 11 { reveal_strlit("Center"); assert(table[11].0 == "Center"@); assert("Center"@.len() != "Workspace"@.len()); } else if j == 12 { reveal_strlit("Static"); assert(table[12].0 == "Static"@); assert("Static"@.len() != "Workspace"@.len()); } else if j == 13 { reveal_strlit("Dynamic"); assert(table[13].0 == "Dynamic"@); assert("Dynamic"@.len() != "Workspace"@.len()); } else if j == 14 { reveal_strlit("System"); assert(table[14].0 == "System"@); assert("System"@.len() != "Workspace"@.len()); } else if j == 15 { reveal_strlit("Light"); assert(table[15].0 == "Light"@); assert("Light"@.len() != "Workspace"@.len()); } else if j == 16 { reveal_strlit("Dark"); assert(table[16].0 == "Dark"@); assert("Dark"@.len() != "Workspace"@.len()); } else if j == 17 { reveal_strlit("Comfortable"); assert(table[17].0 == "Comfortable"@); assert("Comfortable"@.len() != "Workspace"@.len()); } else if j == 18 { reveal_strlit("Standard"); assert(table[18].0 == "Standard"@); assert("Standard"@.len() != "Workspace"@.len()); } else if j == 19 { reveal_strlit("Custom"); assert(table[19].0 == "Custom"@); assert("Custom"@.len() != "Workspace"@.len()); } else if j == 20 { reveal_strlit("AfterDelay"); assert(table[20].0 == "AfterDelay"@); assert("AfterDelay"@.len() != "Workspace"@.len()); } else if j == 21 { reveal_strlit("OnFocusChange"); assert(table[21].0 == "OnFocusChange"@); assert("OnFocusChange"@.len() != "Workspace"@.len()); } else if j == 22 { reveal_strlit("OnWindowChange"); assert(table[22].0 == "OnWindowChange"@); assert("OnWindowChange"@.len() != "Workspace"@.len()); } else if j == 23 { reveal_strlit("PrimaryScreen"); assert(table[23].0 == "PrimaryScreen"@); assert("PrimaryScreen"@.len() != "Workspace"@.len()); } else if j == 24 { reveal_strlit("AllScreens"); assert(table[24].0 == "AllScreens"@); assert("AllScreens"@.len() != "Workspace"@.len()); } else if j == 25 { reveal_strlit("CurrentScreen"); assert(table[25].0 == "CurrentScreen"@); assert("CurrentScreen"@.len() != "Workspace"@.len()); } else if j == 26 { reveal_strlit("ActiveScreen"); assert(table[26].0 == "ActiveScreen"@); assert("ActiveScreen"@.len() != "Workspace"@.len()); } else if j == 27 { reveal_strlit("PlatformNative"); assert(table[27].0 == "PlatformNative"@); assert("PlatformNative"@.len() != "Workspace"@.len()); } else if j == 28 { reveal_strlit("Code"); assert(table[28].0 == "Code"@); assert("Code"@.len() != "Workspace"@.len()); } else if j == 29 { reveal_strlit("File"); assert(table[29].0 == "File"@); assert("File"@.len() != "Workspace"@.len()); } else if j == 30 { reveal_strlit("Bar"); assert(table[30].0 == "Bar"@); assert("Bar"@.len() != "Workspace"@.len()); } else if j == 31 { reveal_strlit("Block"); assert(table[31].0 == "Block"@); assert("Block"@.len() != "Workspace"@.len()); } else if j == 32 { reveal_strlit("Underline"); assert(table[32].0 == "Underline"@); assert("Underline"@[0] != "Workspace"@[0]); } else if j == 33 { reveal_strlit("Hollow"); assert(table[33].0 == "Hollow"@); assert("Hollow"@.len() != "Workspace"@.len()); } else if j == 34 { reveal_strlit("All"); assert(table[34].0 == "All"@); assert("All"@.len() != "Workspace"@.len()); } else if j == 35 { reveal_strlit("None"); assert(table[35].0 == "None"@); assert("None"@.len() != "Workspace"@.len()); } else if j == 36 { reveal_strlit("Current"); assert(table[36].0 == "Current"@); assert("Current"@.len() != "Workspace"@.len()); } else if j == 37 { reveal_strlit("Directory"); assert(table[37].0 == "Directory"@); assert("Directory"@[0] != "Workspace"@[0]); } else if j == 38 { reveal_strlit("Project"); assert(table[38].0 == "Project"@); assert("Project"@.len() != "Workspace"@.len()); } else if j == 39 { reveal_strlit("Hidden"); assert(table[39].0 == "Hidden"@); assert("Hidden"@.len() != "Workspace"@.len()); } else if j == 40 { reveal_strlit("Visible"); assert(table[40].0 == "Visible"@); assert("Visible"@.len() != "Workspace"@.len()); } else if j == 41 { reveal_strlit("Vertical"); assert(table[41].0 == "Vertical"@); assert("Vertical"@.len() != "Workspace"@.len()); } else if j == 42 { reveal_strlit("Horizontal"); assert(table[42].0 == "Horizontal"@); assert("Horizontal"@.len() != "Workspace"@.len()); } else if j == 43 { reveal_strlit("Wrapped"); assert(table[43].0 == "Wrapped"@); assert("Wrapped"@.len() != "Workspace"@.len()); } else if j == 44 { reveal_strlit("Open"); assert(table[44].0 == "Open"@); assert("Open"@.len() != "Workspace"@.len()); } else if j == 45 { reveal_strlit("Closed"); assert(table[45].0 == "Closed"@); assert("Closed"@.len() != "Workspace"@.len()); } else if j == 46 { reveal_strlit("Docked"); assert(table[46].0 == "Docked"@); assert("Docked"@.len() != "Workspace"@.len()); } else if j == 47 { reveal_strlit("Fullscreen"); assert(table[47].0 == "Fullscreen"@); assert("Fullscreen"@.len() != "Workspace"@.len()); } else if j == 48 { reveal_strlit("Screen"); assert(table[48].0 == "Screen"@); assert("Screen"@.len() != "Workspace"@.len()); }
    }
    lemma_lookup_at(table, 49);
}

proof fn lemma_label_buffer()
    ensures
        localized_label("Buffer"@) == "缓冲区"@,
{
    reveal_strlit("Buffer");
    lemma_plain_name_normalized("Buffer"@);
    let table = variant_label_table();
    assert(table[50] == ("Buffer"@, "缓冲区"@));
    assert forall|j: int| 0 <= j < 50 implies #[trigger] table[j].0 != table[50].0 by {
        if j == 0 { reveal_strlit("On"); assert(table[0].0 == "On"@); assert("On"@.len() != "Buffer"@.len()); } else if j == 1 { reveal_strlit("Off"); assert(table[1].0 == "Off"@); assert("Off"@.len() != "Buffer"@.len()); } else if j == 2 { reveal_strlit("Enabled"); assert(table[2].0 == "Enabled"@); assert("Enabled"@.len() != "Buffer"@.len()); } else if j == 3 { reveal_strlit("Disabled"); assert(table[3].0 == "Disabled"@); assert("Disabled"@.len() != "Buffer"@.len()); } else if j == 4 { reveal_strlit("Auto"); assert(table[4].0 == "Auto"@); assert("Auto"@.len() != "Buffer"@.len()); } else if j == 5 { reveal_strlit("Always"); assert(table[5].0 == "Always"@); assert("Always"@[0] != "Buffer"@[0]); } else if j == 6 { reveal_strlit("Never"); assert(table[6].0 == "Never"@); assert("Never"@.len() != "Buffer"@.len()); } else if j == 7 { reveal_strlit("Left"); assert(table[7].0 == "Left"@); assert("Left"@.len() != "Buffer"@.len()); } else if j == 8 { reveal_strlit("Right"); assert(table[8].0 == "Right"@); assert("Right"@.len() != "Buffer"@.len()); } else if j == 9 { reveal_strlit("Top"); assert(table[9].0 == "Top"@); assert("Top"@.len() != "Buffer"@.len()); } else if j == 10 { reveal_strlit("Bottom"); assert(table[10].0 == "Bottom"@); assert("Bottom"@[1] != "Buffer"@[1]); } else if j == 11 { reveal_strlit("Center"); assert(table[11].0 == "Center"@); assert("Center"@[0] != "Buffer"@[0]); } else if j == 12 { reveal_strlit("Static"); assert(table[12].0 == "Static"@); assert("Static"@[0] != "Buffer"@[0]); } else if j == 13 { reveal_strlit("Dynamic"); assert(table[13].0 == "Dynamic"@); assert("Dynamic"@.len() != "Buffer"@.len()); } else if j == 14 { reveal_strlit("System"); assert(table[14].0 == "System"@); assert("System"@[0] != "Buffer"@[0]); } else if j == 15 { reveal_strlit("Light"); assert(table[15].0 == "Light"@); assert("Light"@.len() != "Buffer"@.len()); } else if j == 16 { reveal_strlit("Dark"); assert(table[16].0 == "Dark"@); assert("Dark"@.len() != "Buffer"@.len()); } else if j == 17 { reveal_strlit("Comfortable"); assert(table[17].0 == "Comfortable"@); assert("Comfortable"@.len() != "Buffer"@.len()); } else if j == 18 { reveal_strlit("Standard"); assert(table[18].0 == "Standard"@); assert("Standard"@.len() != "Buffer"@.len()); } else if j == 19 { reveal_strlit("Custom"); assert(table[19].0 == "Custom"@); assert("Custom"@[0] != "Buffer"@[0]); } else if j == 20 { reveal_strlit("AfterDelay"); assert(table[20].0 == "AfterDelay"@); assert("AfterDelay"@.len() != "Buffer"@.len()); } else if j == 21 { reveal_strlit("OnFocusChange"); assert(table[21].0 == "OnFocusChange"@); assert("OnFocusChange"@.len() != "Buffer"@.len()); } else if j == 22 { reveal_strlit("OnWindowChange"); assert(table[22].0 == "OnWindowChange"@); assert("OnWindowChange"@.len() != "Buffer"@.len()); } else if j == 23 { reveal_strlit("PrimaryScreen"); assert(table[23].0 == "PrimaryScreen"@); assert("PrimaryScreen"@.len() != "Buffer"@.len()); } else if j == 24 { reveal_strlit("AllScreens"); assert(table[24].0 == "AllScreens"@); assert("AllScreens"@.len() != "Buffer"@.len()); } else if j == 25 { reveal_strlit("CurrentScreen"); assert(table[25].0 == "CurrentScreen"@); assert("CurrentScreen"@.len() != "Buffer"@.len()); } else if j == 26 { reveal_strlit("ActiveScreen"); assert(table[26].0 == "ActiveScreen"@); assert("ActiveScreen"@.len() != "Buffer"@.len()); } else if j == 27 { reveal_strlit("PlatformNative"); assert(table[27].0 == "PlatformNative"@); assert("PlatformNative"@.len() != "Buffer"@.len()); } else if j == 28 { reveal_strlit("Code"); assert(table[28].0 == "Code"@); assert("Code"@.len() != "Buffer"@.len()); } else if j == 29 { reveal_strlit("File"); assert(table[29].0 == "File"@); assert("File"@.len() != "Buffer"@.len()); } else if j == 30 { reveal_strlit("Bar"); assert(table[30].0 == "Bar"@); assert("Bar"@.len() != "Buffer"@.len()); } else if j == 31 { reveal_strlit("Block"); assert(table[31].0 == "Block"@); assert("Block"@.len() != "Buffer"@.len()); } else if j == 32 { reveal_strlit("Underline"); assert(table[32].0 == "Underline"@); assert("Underline"@.len() != "Buffer"@.len()); } else if j == 33 { reveal_strlit("Hollow"); assert(table[33].0 == "Hollow"@); assert("Hollow"@[0] != "Buffer"@[0]); } else if j == 34 { reveal_strlit("All"); assert(table[34].0 == "All"@); assert("All"@.len() != "Buffer"@.len()); } else if j == 35 { reveal_strlit("None"); assert(table[35].0 == "None"@); assert("None"@.len() != "Buffer"@.len()); } else if j == 36 { reveal_strlit("Current"); assert(table[36].0 == "Current"@); assert("Current"@.len() != "Buffer"@.len()); } else if j == 37 { reveal_strlit("Directory"); assert(table[37].0 == "Directory"@); assert("Directory"@.len() != "Buffer"@.len()); } else if j == 38 { reveal_strlit("Project"); assert(table[38].0 == "Project"@); assert("Project"@.len() != "Buffer"@.len()); } else if j == 39 { reveal_strlit("Hidden"); assert(table[39].0 == "Hidden"@); assert("Hidden"@[0] != "Buffer"@[0]); } else if j == 40 { reveal_strlit("Visible"); assert(table[40].0 == "Visible"@); assert("Visible"@.len() != "Buffer"@.len()); } else if j == 41 { reveal_strlit("Vertical"); assert(table[41].0 == "Vertical"@); assert("Vertical"@.len() != "Buffer"@.len()); } else if j == 42 { reveal_strlit("Horizontal"); assert(table[42].0 == "Horizontal"@); assert("Horizontal"@.len() != "Buffer"@.len()); } else if j == 43 { reveal_strlit("Wrapped"); assert(table[43].0 == "Wrapped"@); assert("Wrapped"@.len() != "Buffer"@.len()); } else if j == 44 { reveal_strlit("Open"); assert(table[44].0 == "Open"@); assert("Open"@.len() != "Buffer"@.len()); } else if j == 45 { reveal_strlit("Closed"); assert(table[45].0 == "Closed"@); assert("Closed"@[0] != "Buffer"@[0]); } else if j == 46 { reveal_strlit("Docked"); assert(table[46].0 == "Docked"@); assert("Docked"@[0] != "Buffer"@[0]); } else if j == 47 { reveal_strlit("Fullscreen"); assert(table[47].0 == "Fullscreen"@); assert("Fullscreen"@.len() != "Buffer"@.len()); } else if j == 48 { reveal_strlit("Screen"); assert(table[48].0 == "Screen"@); assert("Screen"@[0] != "Buffer"@[0]); } else if j == 49 { reveal_strlit("Workspace"); assert(table[49].0 == "Workspace"@); assert("Workspace"@.len() != "Buffer"@.len()); }
    }
    lemma_lookup_at(table, 50);
}

proof fn lemma_label_replace()
    ensures
        localized_label("Replace"@) == "替换"@,
{
    reveal_strlit("Replace");
    lemma_plain_name_normalized("Replace"@);
    let table = variant_label_table();
    assert(table[51] == ("Replace"@, "替换"@));
    assert forall|j: int| 0 <= j < 51 implies #[trigger] table[j].0 != table[51].0 by {
        if j == 0 { reveal_strlit("On"); assert(table[0].0 == "On"@); assert("On"@.len() != "Replace"@.len()); } else if j == 1 { reveal_strlit("Off"); assert(table[1].0 == "Off"@); assert("Off"@.len() != "Replace"@.len()); } else if j == 2 { reveal_strlit("Enabled"); assert(table[2].0 == "Enabled"@); assert("Enabled"@[0] != "Replace"@[0]); } else if j == 3 { reveal_strlit("Disabled"); assert(table[3].0 == "Disabled"@); assert("Disabled"@.len() != "Replace"@.len()); } else if j == 4 { reveal_strlit("Auto"); assert(table[4].0 == "Auto"@); assert("Auto"@.len() != "Replace"@.len()); } else if j == 5 { reveal_strlit("Always"); assert(table[5].0 == "Always"@); assert("Always"@.len() != "Replace"@.len()); } else if j == 6 { reveal_strlit("Never"); assert(table[6].0 == "Never"@); assert("Never"@.len() != "Replace"@.len()); } else if j == 7 { reveal_strlit("Left"); assert(table[7].0 == "Left"@); assert("Left"@.len() != "Replace"@.len()); } else if j == 8 { reveal_strlit("Right"); assert(table[8].0 == "Right"@); assert("Right"@.len() != "Replace"@.len()); } else if j == 9 { reveal_strlit("Top"); assert(table[9].0 == "Top"@); assert("Top"@.len() != "Replace"@.len()); } else if j == 10 { reveal_strlit("Bottom"); assert(table[10].0 == "Bottom"@); assert("Bottom"@.len() != "Replace"@.len()); } else if j == 11 { reveal_strlit("Center"); assert(table[11].0 == "Center"@); assert("Center"@.len() != "Replace"@.len()); } else if j == 12 { reveal_strlit("Static"); assert(table[12].0 == "Static"@); assert("Static"@.len() != "Replace"@.len()); } else if j == 13 { reveal_strlit("Dynamic"); assert(table[13].0 == "Dynamic"@); assert("Dynamic"@[0] != "Replace"@[0]); } else if j == 14 { reveal_strlit("System"); assert(table[14].0 == "System"@); assert("System"@.len() != "Replace"@.len()); } else if j == 15 { reveal_strlit("Light"); assert(table[15].0 == "Light"@); assert("Light"@.len() != "Replace"@.len()); } else if j == 16 { reveal_strlit("Dark"); assert(table[16].0 == "Dark"@); assert("Dark"@.len() != "Replace"@.len()); } else if j == 17 { reveal_strlit("Comfortable"); assert(table[17].0 == "Comfortable"@); assert("Comfortable"@.len() != "Replace"@.len()); } else if j == 18 { reveal_strlit("Standard"); assert(table[18].0 == "Standard"@); assert("Standard"@.len() != "Replace"@.len()); } else if j == 19 { reveal_strlit("Custom"); assert(table[19].0 == "Custom"@); assert("Custom"@.len() != "Replace"@.len()); } else if j == 20 { reveal_strlit("AfterDelay"); assert(table[20].0 == "AfterDelay"@); assert("AfterDelay"@.len() != "Replace"@.len()); } else if j == 21 { reveal_strlit("OnFocusChange"); assert(table[21].0 == "OnFocusChange"@); assert("OnFocusChange"@.len() != "Replace"@.len()); } else if j == 22 { reveal_strlit("OnWindowChange"); assert(table[22].0 == "OnWindowChange"@); assert("OnWindowChange"@.len() != "Replace"@.len()); } else if j == 23 { reveal_strlit("PrimaryScreen"); assert(table[23].0 == "PrimaryScreen"@); assert("PrimaryScreen"@.len() != "Replace"@.len()); } else if j == 24 { reveal_strlit("AllScreens"); assert(table[24].0 == "AllScreens"@); assert("AllScreens"@.len() != "Replace"@.len()); } else if j == 25 { reveal_strlit("CurrentScreen"); assert(table[25].0 == "CurrentScreen"@); assert("CurrentScreen"@.len() != "Replace"@.len()); } else if j == 26 { reveal_strlit("ActiveScreen"); assert(table[26].0 == "ActiveScreen"@); assert("ActiveScreen"@.len() != "Replace"@.len()); } else if j == 27 { reveal_strlit("PlatformNative"); assert(table[27].0 == "PlatformNative"@); assert("PlatformNative"@.len() != "Replace"@.len()); } else if j == 28 { reveal_strlit("Code"); assert(table[28].0 == "Code"@); assert("Code"@.len() != "Replace"@.len()); } else if j == 29 { reveal_strlit("File"); assert(table[29].0 == "File"@); assert("File"@.len() != "Replace"@.len()); } else if j == 30 { reveal_strlit("Bar"); assert(table[30].0 == "Bar"@); assert("Bar"@.len() != "Replace"@.len()); } else if j == 31 { reveal_strlit("Block"); assert(table[31].0 == "Block"@); assert("Block"@.len() != "Replace"@.len()); } else if j == 32 { reveal_strlit("Underline"); assert(table[32].0 == "Underline"@); assert("Underline"@.len() != "Replace"@.len()); } else if j == 33 { reveal_strlit("Hollow"); assert(table[33].0 == "Hollow"@); assert("Hollow"@.len() != "Replace"@.len()); } else if j == 34 { reveal_strlit("All"); assert(table[34].0 == "All"@); assert("All"@.len() != "Replace"@.len()); } else if j == 35 { reveal_strlit("None"); assert(table[35].0 == "None"@); assert("None"@.len() != "Replace"@.len()); } else if j == 36 { reveal_strlit("Current"); assert(table[36].0 == "Current"@); assert("Current"@[0] != "Replace"@[0]); } else if j == 37 { reveal_strlit("Directory"); assert(table[37].0 == "Directory"@); assert("Directory"@.len() != "Replace"@.len()); } else if j == 38 { reveal_strlit("Project"); assert(table[38].0 == "Project"@); assert("Project"@[0] != "Replace"@[0]); } else if j == 39 { reveal_strlit("Hidden"); assert(table[39].0 == "Hidden"@); assert("Hidden"@.len() != "Replace"@.len()); } else if j == 40 { reveal_strlit("Visible"); assert(table[40].0 == "Visible"@); assert("Visible"@[0] != "Replace"@[0]); } else if j == 41 { reveal_strlit("Vertical"); assert(table[41].0 == "Vertical"@); assert("Vertical"@.len() != "Replace"@.len()); } else if j == 42 { reveal_strlit("Horizontal"); assert(table[42].0 == "Horizontal"@); assert("Horizontal"@.len() != "Replace"@.len()); } else if j == 43 { reveal_strlit("Wrapped"); assert(table[43].0 == "Wrapped"@); assert("Wrapped"@[0] != "Replace"@[0]); } else if j == 44 { reveal_strlit("Open"); assert(table[44].0 == "Open"@); assert("Open"@.len() != "Replace"@.len()); } else if j == 45 { reveal_strlit("Closed"); assert(table[45].0 == "Closed"@); assert("Closed"@.len() != "Replace"@.len()); } else if j == 46 { reveal_strlit("Docked"); assert(table[46].0 == "Docked"@); assert("Docked"@.len() != "Replace"@.len()); } else if j == 47 { reveal_strlit("Fullscreen"); assert(table[47].0 == "Fullscreen"@); assert("Fullscreen"@.len() != "Replace"@.len()); } else if j == 48 { reveal_strlit("Screen"); assert(table[48].0 == "Screen"@); assert("Screen"@.len() != "Replace"@.len()); } else if j == 49 { reveal_strlit("Workspace"); assert(table[49].0 == "Workspace"@); assert("Workspace"@.len() != "Replace"@.len()); } else if j == 50 { reveal_strlit("Buffer"); assert(table[50].0 == "Buffer"@); assert("Buffer"@.len() != "Replace"@.len()); }
    }
    lemma_lookup_at(table, 51);
}

proof fn lemma_label_visual()
    ensures
        localized_label("Visual"@) == "可视"@,
{
    reveal_strlit("Visual");
    lemma_plain_name_normalized("Visual"@);
    let table = variant_label_table();
    assert(table[52] == ("Visual"@, "可视"@));
    assert forall|j: int| 0 <= j < 52 implies #[trigger] table[j].0 != table[52].0 by {
        if j == 0 { reveal_strlit("On"); assert(table[0].0 == "On"@); assert("On"@.len() != "Visual"@.len()); } else if j == 1 { reveal_strlit("Off"); assert(table[1].0 == "Off"@); assert("Off"@.len() != "Visual"@.len()); } else if j == 2 { reveal_strlit("Enabled"); assert(table[2].0 == "Enabled"@); assert("Enabled"@.len() != "Visual"@.len()); } else if j == 3 { reveal_strlit("Disabled"); assert(table[3].0 == "Disabled"@); assert("Disabled"@.len() != "Visual"@.len()); } else if j == 4 { reveal_strlit("Auto"); assert(table[4].0 == "Auto"@); assert("Auto"@.len() != "Visual"@.len()); } else if j == 5 { reveal_strlit("Always"); assert(table[5].0 == "Always"@); assert("Always"@[0] != "Visual"@[0]); } else if j == 6 { reveal_strlit("Never"); assert(table[6].0 == "Never"@); assert("Never"@.len() != "Visual"@.len()); } else if j == 7 { reveal_strlit("Left"); assert(table[7].0 == "Left"@); assert("Left"@.len() != "Visual"@.len()); } else if j == 8 { reveal_strlit("Right"); assert(table[8].0 == "Right"@); assert("Right"@.len() != "Visual"@.len()); } else if j == 9 { reveal_strlit("Top"); assert(table[9].0 == "Top"@); assert("Top"@.len() != "Visual"@.len()); } else if j == 10 { reveal_strlit("Bottom"); assert(table[10].0 == "Bottom"@); assert("Bottom"@[0] != "Visual"@[0]); } else if j == 11 { reveal_strlit("Center"); assert(table[11].0 == "Center"@); assert("Center"@[0] != "Visual"@[0]); } else if j == 12 { reveal_strlit("Static"); assert(table[12].0 == "Static"@); assert("Static"@[0] != "Visual"@[0]); } else if j == 13 { reveal_strlit("Dynamic"); assert(table[13].0 == "Dynamic"@); assert("Dynamic"@.len() != "Visual"@.len()); } else if j == 14 { reveal_strlit("System"); assert(table[14].0 == "System"@); assert("System"@[0] != "Visual"@[0]); } else if j == 15 { reveal_strlit("Light"); assert(table[15].0 == "Light"@); assert("Light"@.len() != "Visual"@.len()); } else if j == 16 { reveal_strlit("Dark"); assert(table[16].0 == "Dark"@); assert("Dark"@.len() != "Visual"@.len()); } else if j == 17 { reveal_strlit("Comfortable"); assert(table[17].0 == "Comfortable"@); assert("Comfortable"@.len() != "Visual"@.len()); } else if j == 18 { reveal_strlit("Standard"); assert(table[18].0 == "Standard"@); assert("Standard"@.len() != "Visual"@.len()); } else if j == 19 { reveal_strlit("Custom"); assert(table[19].0 == "Custom"@); assert("Custom"@[0] != "Visual"@[0]); } else if j == 20 { reveal_strlit("AfterDelay"); assert(table[20].0 == "AfterDelay"@); assert("AfterDelay"@.len() != "Visual"@.len()); } else if j == 21 { reveal_strlit("OnFocusChange"); assert(table[21].0 == "OnFocusChange"@); assert("OnFocusChange"@.len() != "Visual"@.len()); } else if j == 22 { reveal_strlit("OnWindowChange"); assert(table[22].0 == "OnWindowChange"@); assert("OnWindowChange"@.len() != "Visual"@.len()); } else if j == 23 { reveal_strlit("PrimaryScreen"); assert(table[23].0 == "PrimaryScreen"@); assert("PrimaryScreen"@.len() != "Visual"@.len()); } else if j == 24 { reveal_strlit("AllScreens"); assert(table[24].0 == "AllScreens"@); assert("AllScreens"@.len() != "Visual"@.len()); } else if j == 25 { reveal_strlit("CurrentScreen"); assert(table[25].0 == "CurrentScreen"@); assert("CurrentScreen"@.len() != "Visual"@.len()); } else if j == 26 { reveal_strlit("ActiveScreen"); assert(table[26].0 == "ActiveScreen"@); assert("ActiveScreen"@.len() != "Visual"@.len()); } else if j == 27 { reveal_strlit("PlatformNative"); assert(table[27].0 == "PlatformNative"@); assert("PlatformNative"@.len() != "Visual"@.len()); } else if j == 28 { reveal_strlit("Code"); assert(table[28].0 == "Code"@); assert("Code"@.len() != "Visual"@.len()); } else if j == 29 { reveal_strlit("File"); assert(table[29].0 == "File"@); assert("File"@.len() != "Visual"@.len()); } else if j == 30 { reveal_strlit("Bar"); assert(table[30].0 == "Bar"@); assert("Bar"@.len() != "Visual"@.len()); } else if j == 31 { reveal_strlit("Block"); assert(table[31].0 == "Block"@); assert("Block"@.len() != "Visual"@.len()); } else if j == 32 { reveal_strlit("Underline"); assert(table[32].0 == "Underline"@); assert("Underline"@.len() != "Visual"@.len()); } else if j == 33 { reveal_strlit("Hollow"); assert(table[33].0 == "Hollow"@); assert("Hollow"@[0] != "Visual"@[0]); } else if j == 34 { reveal_strlit("All"); assert(table[34].0 == "All"@); assert("All"@.len() != "Visual"@.len()); } else if j == 35 { reveal_strlit("None"); assert(table[35].0 == "None"@); assert("None"@.len() != "Visual"@.len()); } else if j == 36 { reveal_strlit("Current"); assert(table[36].0 == "Current"@); assert("Current"@.len() != "Visual"@.len()); } else if j == 37 { reveal_strlit("Directory"); assert(table[37].0 == "Directory"@); assert("Directory"@.len() != "Visual"@.len()); } else if j == 38 { reveal_strlit("Project"); assert(table[38].0 == "Project"@); assert("Project"@.len() != "Visual"@.len()); } else if j == 39 { reveal_strlit("Hidden"); assert(table[39].0 == "Hidden"@); assert("Hidden"@[0] != "Visual"@[0]); } else if j == 40 { reveal_strlit("Visible"); assert(table[40].0 == "Visible"@); assert("Visible"@.len() != "Visual"@.len()); } else if j == 41 { reveal_strlit("Vertical"); assert(table[41].0 == "Vertical"@); assert("Vertical"@.len() != "Visual"@.len()); } else if j == 42 { reveal_strlit("Horizontal"); assert(table[42].0 == "Horizontal"@); assert("Horizontal"@.len() != "Visual"@.len()); } else if j == 43 { reveal_strlit("Wrapped"); assert(table[43].0 == "Wrapped"@); assert("Wrapped"@.len() != "Visual"@.len()); } else if j == 44 { reveal_strlit("Open"); assert(table[44].0 == "Open"@); assert("Open"@.len() != "Visual"@.len()); } else if j == 45 { reveal_strlit("Closed"); assert(table[45].0 == "Closed"@); assert("Closed"@[0] != "Visual"@[0]); } else if j == 46 { reveal_strlit("Docked"); assert(table[46].0 == "Docked"@); assert("Docked"@[0] != "Visual"@[0]); } else if j == 47 { reveal_strlit("Fullscreen"); assert(table[47].0 == "Fullscreen"@); assert("Fullscreen"@.len() != "Visual"@.len()); } else if j == 48 { reveal_strlit("Screen"); assert(table[48].0 == "Screen"@); assert("Screen"@[0] != "Visual"@[0]); } else if j == 49 { reveal_strlit("Workspace"); assert(table[49].0 == "Workspace"@); assert("Workspace"@.len() != "Visual"@.len()); } else if j == 50 { reveal_strlit("Buffer"); assert(table[50].0 == "Buffer"@); assert("Buffer"@[0] != "Visual"@[0]); } else if j == 51 { reveal_strlit("Replace"); assert(table[51].0 == "Replace"@); assert("Replace"@.len() != "Visual"@.len()); }
    }
    lemma_lookup_at(table, 52);
}

proof fn lemma_label_normal()
    ensures
        localized_label("Normal"@) == "普通"@,
{
    reveal_strlit("Normal");
    lemma_plain_name_normalized("Normal"@);
    let table = variant_label_table();
    assert(table[53] == ("Normal"@, "普通"@));
    assert forall|j: int| 0 <= j < 53 implies #[trigger] table[j].0 != table[53].0 by {
        if j == 0 { reveal_strlit("On"); assert(table[0].0 == "On"@); assert("On"@.len() != "Normal"@.len()); } else if j == 1 { reveal_strlit("Off"); assert(table[1].0 == "Off"@); assert("Off"@.len() != "Normal"@.len()); } else if j == 2 { reveal_strlit("Enabled"); assert(table[2].0 == "Enabled"@); assert("Enabled"@.len() != "Normal"@.len()); } else if j == 3 { reveal_strlit("Disabled"); assert(table[3].0 == "Disabled"@); assert("Disabled"@.len() != "Normal"@.len()); } else if j == 4 { reveal_strlit("Auto"); assert(table[4].0 == "Auto"@); assert("Auto"@.len() != "Normal"@.len()); } else if j == 5 { reveal_strlit("Always"); assert(table[5].0 == "Always"@); assert("Always"@[0] != "Normal"@[0]); } else if j == 6 { reveal_strlit("Never"); assert(table[6].0 == "Never"@); assert("Never"@.len() != "Normal"@.len()); } else if j == 7 { reveal_strlit("Left"); assert(table[7].0 == "Left"@); assert("Left"@.len() != "Normal"@.len()); } else if j == 8 { reveal_strlit("Right"); assert(table[8].0 == "Right"@); assert("Right"@.len() != "Normal"@.len()); } else if j == 9 { reveal_strlit("Top"); assert(table[9].0 == "Top"@); assert("Top"@.len() != "Normal"@.len()); } else if j == 10 { reveal_strlit("Bottom"); assert(table[10].0 == "Bottom"@); assert("Bottom"@[0] != "Normal"@[0]); } else if j == 11 { reveal_strlit("Center"); assert(table[11].0 == "Center"@); assert("Center"@[0] != "Normal"@[0]); } else if j == 12 { reveal_strlit("Static"); assert(table[12].0 == "Static"@); assert("Static"@[0] != "Normal"@[0]); } else if j == 13 { reveal_strlit("Dynamic"); assert(table[13].0 == "Dynamic"@); assert("Dynamic"@.len() != "Normal"@.len()); } else if j == 14 { reveal_strlit("System"); assert(table[14].0 == "System"@); assert("System"@[0] != "Normal"@[0]); } else if j == 15 { reveal_strlit("Light"); assert(table[15].0 == "Light"@); assert("Light"@.len() != "Normal"@.len()); } else if j == 16 { reveal_strlit("Dark"); assert(table[16].0 == "Dark"@); assert("Dark"@.len() != "Normal"@.len()); } else if j == 17 { reveal_strlit("Comfortable"); assert(table[17].0 == "Comfortable"@); assert("Comfortable"@.len() != "Normal"@.len()); } else if j == 18 { reveal_strlit("Standard"); assert(table[18].0 == "Standard"@); assert("Standard"@.len() != "Normal"@.len()); } else if j == 19 { reveal_strlit("Custom"); assert(table[19].0 == "Custom"@); assert("Custom"@[0] != "Normal"@[0]); } else if j == 20 { reveal_strlit("AfterDelay"); assert(table[20].0 == "AfterDelay"@); assert("AfterDelay"@.len() != "Normal"@.len()); } else if j == 21 { reveal_strlit("OnFocusChange"); assert(table[21].0 == "OnFocusChange"@); assert("OnFocusChange"@.len() != "Normal"@.len()); } else if j == 22 { reveal_strlit("OnWindowChange"); assert(table[22].0 == "OnWindowChange"@); assert("OnWindowChange"@.len() != "Normal"@.len()); } else if j == 23 { reveal_strlit("PrimaryScreen"); assert(table[23].0 == "PrimaryScreen"@); assert("PrimaryScreen"@.len() != "Normal"@.len()); } else if j == 24 { reveal_strlit("AllScreens"); assert(table[24].0 == "AllScreens"@); assert("AllScreens"@.len() != "Normal"@.len()); } else if j == 25 { reveal_strlit("CurrentScreen"); assert(table[25].0 == "CurrentScreen"@); assert("CurrentScreen"@.len() != "Normal"@.len()); } else if j == 26 { reveal_strlit("ActiveScreen"); assert(table[26].0 == "ActiveScreen"@); assert("ActiveScreen"@.len() != "Normal"@.len()); } else if j == 27 { reveal_strlit("PlatformNative"); assert(table[27].0 == "PlatformNative"@); assert("PlatformNative"@.len() != "Normal"@.len()); } else if j == 28 { reveal_strlit("Code"); assert(table[28].0 == "Code"@); assert("Code"@.len() != "Normal"@.len()); } else if j == 29 { reveal_strlit("File"); assert(table[29].0 == "File"@); assert("File"@.len() != "Normal"@.len()); } else if j == 30 { reveal_strlit("Bar"); assert(table[30].0 == "Bar"@); assert("Bar"@.len() != "Normal"@.len()); } else if j == 31 { reveal_strlit("Block"); assert(table[31].0 == "Block"@); assert("Block"@.len() != "Normal"@.len()); } else if j == 32 { reveal_strlit("Underline"); assert(table[32].0 == "Underline"@); assert("Underline"@.len() != "Normal"@.len()); } else if j == 33 { reveal_strlit("Hollow"); assert(table[33].0 == "Hollow"@); assert("Hollow"@[0] != "Normal"@[0]); } else if j == 34 { reveal_strlit("All"); assert(table[34].0 == "All"@); assert("All"@.len() != "Normal"@.len()); } else if j == 35 { reveal_strlit("None"); assert(table[35].0 == "None"@); assert("None"@.len() != "Normal"@.len()); } else if j == 36 { reveal_strlit("Current"); assert(table[36].0 == "Current"@); assert("Current"@.len() != "Normal"@.len()); } else if j == 37 { reveal_strlit("Directory"); assert(table[37].0 == "Directory"@); assert("Directory"@.len() != "Normal"@.len()); } else if j == 38 { reveal_strlit("Project"); assert(table[38].0 == "Project"@); assert("Project"@.len() != "Normal"@.len()); } else if j == 39 { reveal_strlit("Hidden"); assert(table[39].0 == "Hidden"@); assert("Hidden"@[0] != "Normal"@[0]); } else if j == 40 { reveal_strlit("Visible"); assert(table[40].0 == "Visible"@); assert("Visible"@.len() != "Normal"@.len()); } else if j == 41 { reveal_strlit("Vertical"); assert(table[41].0 == "Vertical"@); assert("Vertical"@.len() != "Normal"@.len()); } else if j == 42 { reveal_strlit("Horizontal"); assert(table[42].0 == "Horizontal"@); assert("Horizontal"@.len() != "Normal"@.len()); } else if j == 43 { reveal_strlit("Wrapped"); assert(table[43].0 == "Wrapped"@); assert("Wrapped"@.len() != "Normal"@.len()); } else if j == 44 { reveal_strlit("Open"); assert(table[44].0 == "Open"@); assert("Open"@.len() != "Normal"@.len()); } else if j == 45 { reveal_strlit("Closed"); assert(table[45].0 == "Closed"@); assert("Closed"@[0] != "Normal"@[0]); } else if j == 46 { reveal_strlit("Docked"); assert(table[46].0 == "Docked"@); assert("Docked"@[0] != "Normal"@[0]); } else if j == 47 { reveal_strlit("Fullscreen"); assert(table[47].0 == "Fullscreen"@); assert("Fullscreen"@.len() != "Normal"@.len()); } else if j == 48 { reveal_strlit("Screen"); assert(table[48].0 == "Screen"@); assert("Screen"@[0] != "Normal"@[0]); } else if j == 49 { reveal_strlit("Workspace"); assert(table[49].0 == "Workspace"@); assert("Workspace"@.len() != "Normal"@.len()); } else if j == 50 { reveal_strlit("Buffer"); assert(table[50].0 == "Buffer"@); assert("Buffer"@[0] != "Normal"@[0]); } else if j == 51 { reveal_strlit("Replace"); assert(table[51].0 == "Replace"@); assert("Replace"@.len() != "Normal"@.len()); } else if j == 52 { reveal_strlit("Visual"); assert(table[52].0 == "Visual"@); assert("Visual"@[0] != "Normal"@[0]); }
    }
    lemma_lookup_at(table, 53);
}

proof fn lemma_label_insert()
    ensures
        localized_label("Insert"@) == "插入"@,
{
    reveal_strlit("Insert");
    lemma_plain_name_normalized("Insert"@);
    let table = variant_label_table();
    assert(table[54] == ("Insert"@, "插入"@));
    assert forall|j: int| 0 <= j < 54 implies #[trigger] table[j].0 != table[54].0 by {
        if j == 0 { reveal_strlit("On"); assert(table[0].0 == "On"@); assert("On"@.len() != "Insert"@.len()); } else if j == 1 { reveal_strlit("Off"); assert(table[1].0 == "Off"@); assert("Off"@.len() != "Insert"@.len()); } else if j == 2 { reveal_strlit("Enabled"); assert(table[2].0 == "Enabled"@); assert("Enabled"@.len() != "Insert"@.len()); } else if j == 3 { reveal_strlit("Disabled"); assert(table[3].0 == "Disabled"@); assert("Disabled"@.len() != "Insert"@.len()); } else if j == 4 { reveal_strlit("Auto"); assert(table[4].0 == "Auto"@); assert("Auto"@.len() != "Insert"@.len()); } else if j == 5 { reveal_strlit("Always"); assert(table[5].0 == "Always"@); assert("Always"@[0] != "Insert"@[0]); } else if j == 6 { reveal_strlit("Never"); assert(table[6].0 == "Never"@); assert("Never"@.len() != "Insert"@.len()); } else if j == 7 { reveal_strlit("Left"); assert(table[7].0 == "Left"@); assert("Left"@.len() != "Insert"@.len()); } else if j == 8 { reveal_strlit("Right"); assert(table[8].0 == "Right"@); assert("Right"@.len() != "Insert"@.len()); } else if j == 9 { reveal_strlit("Top"); assert(table[9].0 == "Top"@); assert("Top"@.len() != "Insert"@.len()); } else if j == 10 { reveal_strlit("Bottom"); assert(table[10].0 == "Bottom"@); assert("Bottom"@[0] != "Insert"@[0]); } else if j == 11 { reveal_strlit("Center"); assert(table[11].0 == "Center"@); assert("Center"@[0] != "Insert"@[0]); } else if j == 12 { reveal_strlit("Static"); assert(table[12].0 == "Static"@); assert("Static"@[0] != "Insert"@[0]); } else if j == 13 { reveal_strlit("Dynamic"); assert(table[13].0 == "Dynamic"@); assert("Dynamic"@.len() != "Insert"@.len()); } else if j == 14 { reveal_strlit("System"); assert(table[14].0 == "System"@); assert("System"@[0] != "Insert"@[0]); } else if j == 15 { reveal_strlit("Light"); assert(table[15].0 == "Light"@); assert("Light"@.len() != "Insert"@.len()); } else if j == 16 { reveal_strlit("Dark"); assert(table[16].0 == "Dark"@); assert("Dark"@.len() != "Insert"@.len()); } else if j == 17 { reveal_strlit("Comfortable"); assert(table[17].0 == "Comfortable"@); assert("Comfortable"@.len() != "Insert"@.len()); } else if j == 18 { reveal_strlit("Standard"); assert(table[18].0 == "Standard"@); assert("Standard"@.len() != "Insert"@.len()); } else if j == 19 { reveal_strlit("Custom"); assert(table[19].0 == "Custom"@); assert("Custom"@[0] != "Insert"@[0]); } else if j == 20 { reveal_strlit("AfterDelay"); assert(table[20].0 == "AfterDelay"@); assert("AfterDelay"@.len() != "Insert"@.len()); } else if j == 21 { reveal_strlit("OnFocusChange"); assert(table[21].0 == "OnFocusChange"@); assert("OnFocusChange"@.len() != "Insert"@.len()); } else if j == 22 { reveal_strlit("OnWindowChange"); assert(table[22].0 == "OnWindowChange"@); assert("OnWindowChange"@.len() != "Insert"@.len()); } else if j == 23 { reveal_strlit("PrimaryScreen"); assert(table[23].0 == "PrimaryScreen"@); assert("PrimaryScreen"@.len() != "Insert"@.len()); } else if j == 24 { reveal_strlit("AllScreens"); assert(table[24].0 == "AllScreens"@); assert("AllScreens"@.len() != "Insert"@.len()); } else if j == 25 { reveal_strlit("CurrentScreen"); assert(table[25].0 == "CurrentScreen"@); assert("CurrentScreen"@.len() != "Insert"@.len()); } else if j == 26 { reveal_strlit("ActiveScreen"); assert(table[26].0 == "ActiveScreen"@); assert("ActiveScreen"@.len() != "Insert"@.len()); } else if j == 27 { reveal_strlit("PlatformNative"); assert(table[27].0 == "PlatformNative"@); assert("PlatformNative"@.len() != "Insert"@.len()); } else if j == 28 { reveal_strlit("Code"); assert(table[28].0 == "Code"@); assert("Code"@.len() != "Insert"@.len()); } else if j == 29 { reveal_strlit("File"); assert(table[29].0 == "File"@); assert("File"@.len() != "Insert"@.len()); } else if j == 30 { reveal_strlit("Bar"); assert(table[30].0 == "Bar"@); assert("Bar"@.len() != "Insert"@.len()); } else if j == 31 { reveal_strlit("Block"); assert(table[31].0 == "Block"@); assert("Block"@.len() != "Insert"@.len()); } else if j == 32 { reveal_strlit("Underline"); assert(table[32].0 == "Underline"@); assert("Underline"@.len() != "Insert"@.len()); } else if j == 33 { reveal_strlit("Hollow"); assert(table[33].0 == "Hollow"@); assert("Hollow"@[0] != "Insert"@[0]); } else if j == 34 { reveal_strlit("All"); assert(table[34].0 == "All"@); assert("All"@.len() != "Insert"@.len()); } else if j == 35 { reveal_strlit("None"); assert(table[35].0 == "None"@); assert("None"@.len() != "Insert"@.len()); } else if j == 36 { reveal_strlit("Current"); assert(table[36].0 == "Current"@); assert("Current"@.len() != "Insert"@.len()); } else if j == 37 { reveal_strlit("Directory"); assert(table[37].0 == "Directory"@); assert("Directory"@.len() != "Insert"@.len()); } else if j == 38 { reveal_strlit("Project"); assert(table[38].0 == "Project"@); assert("Project"@.len() != "Insert"@.len()); } else if j == 39 { reveal_strlit("Hidden"); assert(table[39].0 == "Hidden"@); assert("Hidden"@[0] != "Insert"@[0]); } else if j == 40 { reveal_strlit("Visible"); assert(table[40].0 == "Visible"@); assert("Visible"@.len() != "Insert"@.len()); } else if j == 41 { reveal_strlit("Vertical"); assert(table[41].0 == "Vertical"@); assert("Vertical"@.len() != "Insert"@.len()); } else if j == 42 { reveal_strlit("Horizontal"); assert(table[42].0 == "Horizontal"@); assert("Horizontal"@.len() != "Insert"@.len()); } else if j == 43 { reveal_strlit("Wrapped"); assert(table[43].0 == "Wrapped"@); assert("Wrapped"@.len() != "Insert"@.len()); } else if j == 44 { reveal_strlit("Open"); assert(table[44].0 == "Open"@); assert("Open"@.len() != "Insert"@.len()); } else if j == 45 { reveal_strlit("Closed"); assert(table[45].0 == "Closed"@); assert("Closed"@[0] != "Insert"@[0]); } else if j == 46 { reveal_strlit("Docked"); assert(table[46].0 == "Docked"@); assert("Docked"@[0] != "Insert"@[0]); } else if j == 47 { reveal_strlit("Fullscreen"); assert(table[47].0 == "Fullscreen"@); assert("Fullscreen"@.len() != "Insert"@.len()); } else if j == 48 { reveal_strlit("Screen"); assert(table[48].0 == "Screen"@); assert("Screen"@[0] != "Insert"@[0]); } else if j == 49 { reveal_strlit("Workspace"); assert(table[49].0 == "Workspace"@); assert("Workspace"@.len() != "Insert"@.len()); } else if j == 50 { reveal_strlit("Buffer"); assert(table[50].0 == "Buffer"@); assert("Buffer"@[0] != "Insert"@[0]); } else if j == 51 { reveal_strlit("Replace"); assert(table[51].0 == "Replace"@); assert("Replace"@.len() != "Insert"@.len()); } else if j == 52 { reveal_strlit("Visual"); assert(table[52].0 == "Visual"@); assert("Visual"@[0] != "Insert"@[0]); } else if j == 53 { reveal_strlit("Normal"); assert(table[53].0 == "Normal"@); assert("Normal"@[0] != "Insert"@[0]); }
    }
    lemma_lookup_at(table, 54);
}

proof fn lemma_label_local()
    ensures
        localized_label("Local"@) == "本地"@,
{
    reveal_strlit("Local");
    lemma_plain_name_normalized("Local"@);
    let table = variant_label_table();
    assert(table[55] == ("Local"@, "本地"@));
    assert forall|j: int| 0 <= j < 55 implies #[trigger] table[j].0 != table[55].0 by {
        if j == 0 { reveal_strlit("On"); assert(table[0].0 == "On"@); assert("On"@.len() != "Local"@.len()); } else if j == 1 { reveal_strlit("Off"); assert(table[1].0 == "Off"@); assert("Off"@.len() != "Local"@.len()); } else if j == 2 { reveal_strlit("Enabled"); assert(table[2].0 == "Enabled"@); assert("Enabled"@.len() != "Local"@.len()); } else if j == 3 { reveal_strlit("Disabled"); assert(table[3].0 == "Disabled"@); assert("Disabled"@.len() != "Local"@.len()); } else if j == 4 { reveal_strlit("Auto"); assert(table[4].0 == "Auto"@); assert("Auto"@.len() != "Local"@.len()); } else if j == 5 { reveal_strlit("Always"); assert(table[5].0 == "Always"@); assert("Always"@.len() != "Local"@.len()); } else if j == 6 { reveal_strlit("Never"); assert(table[6].0 == "Never"@); assert("Never"@[0] != "Local"@[0]); } else if j == 7 { reveal_strlit("Left"); assert(table[7].0 == "Left"@); assert("Left"@.len() != "Local"@.len()); } else if j == 8 { reveal_strlit("Right"); assert(table[8].0 == "Right"@); assert("Right"@[0] != "Local"@[0]); } else if j == 9 { reveal_strlit("Top"); assert(table[9].0 == "Top"@); assert("Top"@.len() != "Local"@.len()); } else if j == 10 { reveal_strlit("Bottom"); assert(table[10].0 == "Bottom"@); assert("Bottom"@.len() != "Local"@.len()); } else if j == 11 { reveal_strlit("Center"); assert(table[11].0 == "Center"@); assert("Center"@.len() != "Local"@.len()); } else if j == 12 { reveal_strlit("Static"); assert(table[12].0 == "Static"@); assert("Static"@.len() != "Local"@.len()); } else if j == 13 { reveal_strlit("Dynamic"); assert(table[13].0 == "Dynamic"@); assert("Dynamic"@.len() != "Local"@.len()); } else if j == 14 { reveal_strlit("System"); assert(table[14].0 == "System"@); assert("System"@.len() != "Local"@.len()); } else if j == 15 { reveal_strlit("Light"); assert(table[15].0 == "Light"@); assert("Light"@[1] != "Local"@[1]); } else if j == 16 { reveal_strlit("Dark"); assert(table[16].0 == "Dark"@); assert("Dark"@.len() != "Local"@.len()); } else if j == 17 { reveal_strlit("Comfortable"); assert(table[17].0 == "Comfortable"@); assert("Comfortable"@.len() != "Local"@.len()); } else if j == 18 { reveal_strlit("Standard"); assert(table[18].0 == "Standard"@); assert("Standard"@.len() != "Local"@.len()); } else if j == 19 { reveal_strlit("Custom"); assert(table[19].0 == "Custom"@); assert("Custom"@.len() != "Local"@.len()); } else if j == 20 { reveal_strlit("AfterDelay"); assert(table[20].0 == "AfterDelay"@); assert("AfterDelay"@.len() != "Local"@.len()); } else if j == 21 { reveal_strlit("OnFocusChange"); assert(table[21].0 == "OnFocusChange"@); assert("OnFocusChange"@.len() != "Local"@.len()); } else if j == 22 { reveal_strlit("OnWindowChange"); assert(table[22].0 == "OnWindowChange"@); assert("OnWindowChange"@.len() != "Local"@.len()); } else if j == 23 { reveal_strlit("PrimaryScreen"); assert(table[23].0 == "PrimaryScreen"@); assert("PrimaryScreen"@.len() != "Local"@.len()); } else if j == 24 { reveal_strlit("AllScreens"); assert(table[24].0 == "AllScreens"@); assert("AllScreens"@.len() != "Local"@.len()); } else if j == 25 { reveal_strlit("CurrentScreen"); assert(table[25].0 == "CurrentScreen"@); assert("CurrentScreen"@.len() != "Local"@.len()); } else if j == 26 { reveal_strlit("ActiveScreen"); assert(table[26].0 == "ActiveScreen"@); assert("ActiveScreen"@.len() != "Local"@.len()); } else if j == 27 { reveal_strlit("PlatformNative"); assert(table[27].0 == "PlatformNative"@); assert("PlatformNative"@.len() != "Local"@.len()); } else if j == 28 { reveal_strlit("Code"); assert(table[28].0 == "Code"@); assert("Code"@.len() != "Local"@.len()); } else if j == 29 { reveal_strlit("File"); assert(table[29].0 == "File"@); assert("File"@.len() != "Local"@.len()); } else if j == 30 { reveal_strlit("Bar"); assert(table[30].0 == "Bar"@); assert("Bar"@.len() != "Local"@.len()); } else if j == 31 { reveal_strlit("Block"); assert(table[31].0 == "Block"@); assert("Block"@[0] != "Local"@[0]); } else if j == 32 { reveal_strlit("Underline"); assert(table[32].0 == "Underline"@); assert("Underline"@.len() != "Local"@.len()); } else if j == 33 { reveal_strlit("Hollow"); assert(table[33].0 == "Hollow"@); assert("Hollow"@.len() != "Local"@.len()); } else if j == 34 { reveal_strlit("All"); assert(table[34].0 == "All"@); assert("All"@.len() != "Local"@.len()); } else if j == 35 { reveal_strlit("None"); assert(table[35].0 == "None"@); assert("None"@.len() != "Local"@.len()); } else if j == 36 { reveal_strlit("Current"); assert(table[36].0 == "Current"@); assert("Current"@.len() != "Local"@.len()); } else if j == 37 { reveal_strlit("Directory"); assert(table[37].0 == "Directory"@); assert("Directory"@.len() != "Local"@.len()); } else if j == 38 { reveal_strlit("Project"); assert(table[38].0 == "Project"@); assert("Project"@.len() != "Local"@.len()); } else if j == 39 { reveal_strlit("Hidden"); assert(table[39].0 == "Hidden"@); assert("Hidden"@.len() != "Local"@.len()); } else if j == 40 { reveal_strlit("Visible"); assert(table[40].0 == "Visible"@); assert("Visible"@.len() != "Local"@.len()); } else if j == 41 { reveal_strlit("Vertical"); assert(table[41].0 == "Vertical"@); assert("Vertical"@.len() != "Local"@.len()); } else if j == 42 { reveal_strlit("Horizontal"); assert(table[42].0 == "Horizontal"@); assert("Horizontal"@.len() != "Local"@.len()); } else if j == 43 { reveal_strlit("Wrapped"); assert(table[43].0 == "Wrapped"@); assert("Wrapped"@.len() != "Local"@.len()); } else if j == 44 { reveal_strlit("Open"); assert(table[44].0 == "Open"@); assert("Open"@.len() != "Local"@.len()); } else if j == 45 { reveal_strlit("Closed"); assert(table[45].0 == "Closed"@); assert("Closed"@.len() != "Local"@.len()); } else if j == 46 { reveal_strlit("Docked"); assert(table[46].0 == "Docked"@); assert("Docked"@.len() != "Local"@.len()); } else if j == 47 { reveal_strlit("Fullscreen"); assert(table[47].0 == "Fullscreen"@); assert("Fullscreen"@.len() != "Local"@.len()); } else if j == 48 { reveal_strlit("Screen"); assert(table[48].0 == "Screen"@); assert("Screen"@.len() != "Local"@.len()); } else if j == 49 { reveal_strlit("Workspace"); assert(table[49].0 == "Workspace"@); assert("Workspace"@.len() != "Local"@.len()); } else if j == 50 { reveal_strlit("Buffer"); assert(table[50].0 == "Buffer"@); assert("Buffer"@.len() != "Local"@.len()); } else if j == 51 { reveal_strlit("Replace"); assert(table[51].0 == "Replace"@); assert("Replace"@.len() != "Local"@.len()); } else if j == 52 { reveal_strlit("Visual"); assert(table[52].0 == "Visual"@); assert("Visual"@.len() != "Local"@.len()); } else if j == 53 { reveal_strlit("Normal"); assert(table[53].0 == "Normal"@); assert("Normal"@.len() != "Local"@.len()); } else if j == 54 { reveal_strlit("Insert"); assert(table[54].0 == "Insert"@); assert("Insert"@.len() != "Local"@.len()); }
    }
    lemma_lookup_at(table, 55);
}

proof fn lemma_label_global()
    ensures
        localized_label("Global"@) == "全局"@,
{
    reveal_strlit("Global");
    lemma_plain_name_normalized("Global"@);
    let table = variant_label_table();
    assert(table[56] == ("Global"@, "全局"@));
    assert forall|j: int| 0 <= j < 56 implies #[trigger] table[j].0 != table[56].0 by {
        if j == 0 { reveal_strlit("On"); assert(table[0].0 == "On"@); assert("On"@.len() != "Global"@.len()); } else if j == 1 { reveal_strlit("Off"); assert(table[1].0 == "Off"@); assert("Off"@.len() != "Global"@.len()); } else if j == 2 { reveal_strlit("Enabled"); assert(table[2].0 == "Enabled"@); assert("Enabled"@.len() != "Global"@.len()); } else if j == 3 { reveal_strlit("Disabled"); assert(table[3].0 == "Disabled"@); assert("Disabled"@.len() != "Global"@.len()); } else if j == 4 { reveal_strlit("Auto"); assert(table[4].0 == "Auto"@); assert("Auto"@.len() != "Global"@.len()); } else if j == 5 { reveal_strlit("Always"); assert(table[5].0 == "Always"@); assert("Always"@[0] != "Global"@[0]); } else if j == 6 { reveal_strlit("Never"); assert(table[6].0 == "Never"@); assert("Never"@.len() != "Global"@.len()); } else if j == 7 { reveal_strlit("Left"); assert(table[7].0 == "Left"@); assert("Left"@.len() != "Global"@.len()); } else if j == 8 { reveal_strlit("Right"); assert(table[8].0 == "Right"@); assert("Right"@.len() != "Global"@.len()); } else if j == 9 { reveal_strlit("Top"); assert(table[9].0 == "Top"@); assert("Top"@.len() != "Global"@.len()); } else if j == 10 { reveal_strlit("Bottom"); assert(table[10].0 == "Bottom"@); assert("Bottom"@[0] != "Global"@[0]); } else if j == 11 { reveal_strlit("Center"); assert(table[11].0 == "Center"@); assert("Center"@[0] != "Global"@[0]); } else if j == 12 { reveal_strlit("Static"); assert(table[12].0 == "Static"@); assert("Static"@[0] != "Global"@[0]); } else if j == 13 { reveal_strlit("Dynamic"); assert(table[13].0 == "Dynamic"@); assert("Dynamic"@.len() != "Global"@.len()); } else if j == 14 { reveal_strlit("System"); assert(table[14].0 == "System"@); assert("System"@[0] != "Global"@[0]); } else if j == 15 { reveal_strlit("Light"); assert(table[15].0 == "Light"@); assert("Light"@.len() != "Global"@.len()); } else if j == 16 { reveal_strlit("Dark"); assert(table[16].0 == "Dark"@); assert("Dark"@.len() != "Global"@.len()); } else if j == 17 { reveal_strlit("Comfortable"); assert(table[17].0 == "Comfortable"@); assert("Comfortable"@.len() != "Global"@.len()); } else if j == 18 { reveal_strlit("Standard"); assert(table[18].0 == "Standard"@); assert("Standard"@.len() != "Global"@.len()); } else if j == 19 { reveal_strlit("Custom"); assert(table[19].0 == "Custom"@); assert("Custom"@[0] != "Global"@[0]); } else if j == 20 { reveal_strlit("AfterDelay"); assert(table[20].0 == "AfterDelay"@); assert("AfterDelay"@.len() != "Global"@.len()); } else if j == 21 { reveal_strlit("OnFocusChange"); assert(table[21].0 == "OnFocusChange"@); assert("OnFocusChange"@.len() != "Global"@.len()); } else if j == 22 { reveal_strlit("OnWindowChange"); assert(table[22].0 == "OnWindowChange"@); assert("OnWindowChange"@.len() != "Global"@.len()); } else if j == 23 { reveal_strlit("PrimaryScreen"); assert(table[23].0 == "PrimaryScreen"@); assert("PrimaryScreen"@.len() != "Global"@.len()); } else if j == 24 { reveal_strlit("AllScreens"); assert(table[24].0 == "AllScreens"@); assert("AllScreens"@.len() != "Global"@.len()); } else if j == 25 { reveal_strlit("CurrentScreen"); assert(table[25].0 == "CurrentScreen"@); assert("CurrentScreen"@.len() != "Global"@.len()); } else if j == 26 { reveal_strlit("ActiveScreen"); assert(table[26].0 == "ActiveScreen"@); assert("ActiveScreen"@.len() != "Global"@.len()); } else if j == 27 { reveal_strlit("PlatformNative"); assert(table[27].0 == "PlatformNative"@); assert("PlatformNative"@.len() != "Global"@.len()); } else if j == 28 { reveal_strlit("Code"); assert(table[28].0 == "Code"@); assert("Code"@.len() != "Global"@.len()); } else if j == 29 { reveal_strlit("File"); assert(table[29].0 == "File"@); assert("File"@.len() != "Global"@.len()); } else if j == 30 { reveal_strlit("Bar"); assert(table[30].0 == "Bar"@); assert("Bar"@.len() != "Global"@.len()); } else if j == 31 { reveal_strlit("Block"); assert(table[31].0 == "Block"@); assert("Block"@.len() != "Global"@.len()); } else if j == 32 { reveal_strlit("Underline"); assert(table[32].0 == "Underline"@); assert("Underline"@.len() != "Global"@.len()); } else if j == 33 { reveal_strlit("Hollow"); assert(table[33].0 == "Hollow"@); assert("Hollow"@[0] != "Global"@[0]); } else if j == 34 { reveal_strlit("All"); assert(table[34].0 == "All"@); assert("All"@.len() != "Global"@.len()); } else if j == 35 { reveal_strlit("None"); assert(table[35].0 == "None"@); assert("None"@.len() != "Global"@.len()); } else if j == 36 { reveal_strlit("Current"); assert(table[36].0 == "Current"@); assert("Current"@.len() != "Global"@.len()); } else if j == 37 { reveal_strlit("Directory"); assert(table[37].0 == "Directory"@); assert("Directory"@.len() != "Global"@.len()); } else if j == 38 { reveal_strlit("Project"); assert(table[38].0 == "Project"@); assert("Project"@.len() != "Global"@.len()); } else if j == 39 { reveal_strlit("Hidden"); assert(table[39].0 == "Hidden"@); assert("Hidden"@[0] != "Global"@[0]); } else if j == 40 { reveal_strlit("Visible"); assert(table[40].0 == "Visible"@); assert("Visible"@.len() != "Global"@.len()); } else if j == 41 { reveal_strlit("Vertical"); assert(table[41].0 == "Vertical"@); assert("Vertical"@.len() != "Global"@.len()); } else if j == 42 { reveal_strlit("Horizontal"); assert(table[42].0 == "Horizontal"@); assert("Horizontal"@.len() != "Global"@.len()); } else if j == 43 { reveal_strlit("Wrapped"); assert(table[43].0 == "Wrapped"@); assert("Wrapped"@.len() != "Global"@.len()); } else if j == 44 { reveal_strlit("Open"); assert(table[44].0 == "Open"@); assert("Open"@.len() != "Global"@.len()); } else if j == 45 { reveal_strlit("Closed"); assert(table[45].0 == "Closed"@); assert("Closed"@[0] != "Global"@[0]); } else if j == 46 { reveal_strlit("Docked"); assert(table[46].0 == "Docked"@); assert("Docked"@[0] != "Global"@[0]); } else if j == 47 { reveal_strlit("Fullscreen"); assert(table[47].0 == "Fullscreen"@); assert("Fullscreen"@.len() != "Global"@.len()); } else if j == 48 { reveal_strlit("Screen"); assert(table[48].0 == "Screen"@); assert("Screen"@[0] != "Global"@[0]); } else if j == 49 { reveal_strlit("Workspace"); assert(table[49].0 == "Workspace"@); assert("Workspace"@.len() != "Global"@.len()); } else if j == 50 { reveal_strlit("Buffer"); assert(table[50].0 == "Buffer"@); assert("Buffer"@[0] != "Global"@[0]); } else if j == 51 { reveal_strlit("Replace"); assert(table[51].0 == "Replace"@); assert("Replace"@.len() != "Global"@.len()); } else if j == 52 { reveal_strlit("Visual"); assert(table[52].0 == "Visual"@); assert("Visual"@[0] != "Global"@[0]); } else if j == 53 { reveal_strlit("Normal"); assert(table[53].0 == "Normal"@); assert("Normal"@[0] != "Global"@[0]); } else if j == 54 { reveal_strlit("Insert"); assert(table[54].0 == "Insert"@); assert("Insert"@[0] != "Global"@[0]); } else if j == 55 { reveal_strlit("Local"); assert(table[55].0 == "Local"@); assert("Local"@.len() != "Global"@.len()); }
    }
    lemma_lookup_at(table, 56);
}

proof fn lemma_label_manual()
    ensures
        localized_label("Manual"@) == "手动"@,
{
    reveal_strlit("Manual");
    lemma_plain_name_normalized("Manual"@);
    let table = variant_label_table();
    assert(table[57] == ("Manual"@, "手动"@));
    assert forall|j: int| 0 <= j < 57 implies #[trigger] table[j].0 != table[57].0 by {
        if j == 0 { reveal_strlit("On"); assert(table[0].0 == "On"@); assert("On"@.len() != "Manual"@.len()); } else if j == 1 { reveal_strlit("Off"); assert(table[1].0 == "Off"@); assert("Off"@.len() != "Manual"@.len()); } else if j == 2 { reveal_strlit("Enabled"); assert(table[2].0 == "Enabled"@); assert("Enabled"@.len() != "Manual"@.len()); } else if j == 3 { reveal_strlit("Disabled"); assert(table[3].0 == "Disabled"@); assert("Disabled"@.len() != "Manual"@.len()); } else if j == 4 { reveal_strlit("Auto"); assert(table[4].0 == "Auto"@); assert("Auto"@.len() != "Manual"@.len()); } else if j == 5 { reveal_strlit("Always"); assert(table[5].0 == "Always"@); assert("Always"@[0] != "Manual"@[0]); } else if j == 6 { reveal_strlit("Never"); assert(table[6].0 == "Never"@); assert("Never"@.len() != "Manual"@.len()); } else if j == 7 { reveal_strlit("Left"); assert(table[7].0 == "Left"@); assert("Left"@.len() != "Manual"@.len()); } else if j == 8 { reveal_strlit("Right"); assert(table[8].0 == "Right"@); assert("Right"@.len() != "Manual"@.len()); } else if j == 9 { reveal_strlit("Top"); assert(table[9].0 == "Top"@); assert("Top"@.len() != "Manual"@.len()); } else if j == 10 { reveal_strlit("Bottom"); assert(table[10].0 == "Bottom"@); assert("Bottom"@[0] != "Manual"@[0]); } else if j == 11 { reveal_strlit("Center"); assert(table[11].0 == "Center"@); assert("Center"@[0] != "Manual"@[0]); } else if j == 12 { reveal_strlit("Static"); assert(table[12].0 == "Static"@); assert("Static"@[0] != "Manual"@[0]); } else if j == 13 { reveal_strlit("Dynamic"); assert(table[13].0 == "Dynamic"@); assert("Dynamic"@.len() != "Manual"@.len()); } else if j == 14 { reveal_strlit("System"); assert(table[14].0 == "System"@); assert("System"@[0] != "Manual"@[0]); } else if j == 15 { reveal_strlit("Light"); assert(table[15].0 == "Light"@); assert("Light"@.len() != "Manual"@.len()); } else if j == 16 { reveal_strlit("Dark"); assert(table[16].0 == "Dark"@); assert("Dark"@.len() != "Manual"@.len()); } else if j == 17 { reveal_strlit("Comfortable"); assert(table[17].0 == "Comfortable"@); assert("Comfortable"@.len() != "Manual"@.len()); } else if j == 18 { reveal_strlit("Standard"); assert(table[18].0 == "Standard"@); assert("Standard"@.len() != "Manual"@.len()); } else if j == 19 { reveal_strlit("Custom"); assert(table[19].0 == "Custom"@); assert("Custom"@[0] != "Manual"@[0]); } else if j == 20 { reveal_strlit("AfterDelay"); assert(table[20].0 == "AfterDelay"@); assert("AfterDelay"@.len() != "Manual"@.len()); } else if j == 21 { reveal_strlit("OnFocusChange"); assert(table[21].0 == "OnFocusChange"@); assert("OnFocusChange"@.len() != "Manual"@.len()); } else if j == 22 { reveal_strlit("OnWindowChange"); assert(table[22].0 == "OnWindowChange"@); assert("OnWindowChange"@.len() != "Manual"@.len()); } else if j == 23 { reveal_strlit("PrimaryScreen"); assert(table[23].0 == "PrimaryScreen"@); assert("PrimaryScreen"@.len() != "Manual"@.len()); } else if j == 24 { reveal_strlit("AllScreens"); assert(table[24].0 == "AllScreens"@); assert("AllScreens"@.len() != "Manual"@.len()); } else if j == 25 { reveal_strlit("CurrentScreen"); assert(table[25].0 == "CurrentScreen"@); assert("CurrentScreen"@.len() != "Manual"@.len()); } else if j == 26 { reveal_strlit("ActiveScreen"); assert(table[26].0 == "ActiveScreen"@); assert("ActiveScreen"@.len() != "Manual"@.len()); } else if j == 27 { reveal_strlit("PlatformNative"); assert(table[27].0 == "PlatformNative"@); assert("PlatformNative"@.len() != "Manual"@.len()); } else if j == 28 { reveal_strlit("Code"); assert(table[28].0 == "Code"@); assert("Code"@.len() != "Manual"@.len()); } else if j == 29 { reveal_strlit("File"); assert(table[29].0 == "File"@); assert("File"@.len() != "Manual"@.len()); } else if j == 30 { reveal_strlit("Bar"); assert(table[30].0 == "Bar"@); assert("Bar"@.len() != "Manual"@.len()); } else if j == 31 { reveal_strlit("Block"); assert(table[31].0 == "Block"@); assert("Block"@.len() != "Manual"@.len()); } else if j == 32 { reveal_strlit("Underline"); assert(table[32].0 == "Underline"@); assert("Underline"@.len() != "Manual"@.len()); } else if j == 33 { reveal_strlit("Hollow"); assert(table[33].0 == "Hollow"@); assert("Hollow"@[0] != "Manual"@[0]); } else if j == 34 { reveal_strlit("All"); assert(table[34].0 == "All"@); assert("All"@.len() != "Manual"@.len()); } else if j == 35 { reveal_strlit("None"); assert(table[35].0 == "None"@); assert("None"@.len() != "Manual"@.len()); } else if j == 36 { reveal_strlit("Current"); assert(table[36].0 == "Current"@); assert("Current"@.len() != "Manual"@.len()); } else if j == 37 { reveal_strlit("Directory"); assert(table[37].0 == "Directory"@); assert("Directory"@.len() != "Manual"@.len()); } else if j == 38 { reveal_strlit("Project"); assert(table[38].0 == "Project"@); assert("Project"@.len() != "Manual"@.len()); } else if j == 39 { reveal_strlit("Hidden"); assert(table[39].0 == "Hidden"@); assert("Hidden"@[0] != "Manual"@[0]); } else if j == 40 { reveal_strlit("Visible"); assert(table[40].0 == "Visible"@); assert("Visible"@.len() != "Manual"@.len()); } else if j == 41 { reveal_strlit("Vertical"); assert(table[41].0 == "Vertical"@); assert("Vertical"@.len() != "Manual"@.len()); } else if j == 42 { reveal_strlit("Horizontal"); assert(table[42].0 == "Horizontal"@); assert("Horizontal"@.len() != "Manual"@.len()); } else if j == 43 { reveal_strlit("Wrapped"); assert(table[43].0 == "Wrapped"@); assert("Wrapped"@.len() != "Manual"@.len()); } else if j == 44 { reveal_strlit("Open"); assert(table[44].0 == "Open"@); assert("Open"@.len() != "Manual"@.len()); } else if j == 45 { reveal_strlit("Closed"); assert(table[45].0 == "Closed"@); assert("Closed"@[0] != "Manual"@[0]); } else if j == 46 { reveal_strlit("Docked"); assert(table[46].0 == "Docked"@); assert("Docked"@[0] != "Manual"@[0]); } else if j == 47 { reveal_strlit("Fullscreen"); assert(table[47].0 == "Fullscreen"@); assert("Fullscreen"@.len() != "Manual"@.len()); } else if j == 48 { reveal_strlit("Screen"); assert(table[48].0 == "Screen"@); assert("Screen"@[0] != "Manual"@[0]); } else if j == 49 { reveal_strlit("Workspace"); assert(table[49].0 == "Workspace"@); assert("Workspace"@.len() != "Manual"@.len()); } else if j == 50 { reveal_strlit("Buffer"); assert(table[50].0 == "Buffer"@); assert("Buffer"@[0] != "Manual"@[0]); } else if j == 51 { reveal_strlit("Replace"); assert(table[51].0 == "Replace"@); assert("Replace"@.len() != "Manual"@.len()); } else if j == 52 { reveal_strlit("Visual"); assert(table[52].0 == "Visual"@); assert("Visual"@[0] != "Manual"@[0]); } else if j == 53 { reveal_strlit("Normal"); assert(table[53].0 == "Normal"@); assert("Normal"@[0] != "Manual"@[0]); } else if j == 54 { reveal_strlit("Insert"); assert(table[54].0 == "Insert"@); assert("Insert"@[0] != "Manual"@[0]); } else if j == 55 { reveal_strlit("Local"); assert(table[55].0 == "Local"@); assert("Local"@.len() != "Manual"@.len()); } else if j == 56 { reveal_strlit("Global"); assert(table[56].0 == "Global"@); assert("Global"@[0] != "Manual"@[0]); }
    }
    lemma_lookup_at(table, 57);
}

proof fn lemma_label_click()
    ensures
        localized_label("Click"@) == "点击"@,
{
    reveal_strlit("Click");
    lemma_plain_name_normalized("Click"@);
    let table = variant_label_table();
    assert(table[58] == ("Click"@, "点击"@));
    assert forall|j: int| 0 <= j < 58 implies #[trigger] table[j].0 != table[58].0 by {
        if j == 0 { reveal_strlit("On"); assert(table[0].0 == "On"@); assert("On"@.len() != "Click"@.len()); } else if j == 1 { reveal_strlit("Off"); assert(table[1].0 == "Off"@); assert("Off"@.len() != "Click"@.len()); } else if j == 2 { reveal_strlit("Enabled"); assert(table[2].0 == "Enabled"@); assert("Enabled"@.len() != "Click"@.len()); } else if j == 3 { reveal_strlit("Disabled"); assert(table[3].0 == "Disabled"@); assert("Disabled"@.len() != "Click"@.len()); } else if j == 4 { reveal_strlit("Auto"); assert(table[4].0 == "Auto"@); assert("Auto"@.len() != "Click"@.len()); } else if j == 5 { reveal_strlit("Always"); assert(table[5].0 == "Always"@); assert("Always"@.len() != "Click"@.len()); } else if j == 6 { reveal_strlit("Never"); assert(table[6].0 == "Never"@); assert("Never"@[0] != "Click"@[0]); } else if j == 7 { reveal_strlit("Left"); assert(table[7].0 == "Left"@); assert("Left"@.len() != "Click"@.len()); } else if j == 8 { reveal_strlit("Right"); assert(table[8].0 == "Right"@); assert("Right"@[0] != "Click"@[0]); } else if j == 9 { reveal_strlit("Top"); assert(table[9].0 == "Top"@); assert("Top"@.len() != "Click"@.len()); } else if j == 10 { reveal_strlit("Bottom"); assert(table[10].0 == "Bottom"@); assert("Bottom"@.len() != "Click"@.len()); } else if j == 11 { reveal_strlit("Center"); assert(table[11].0 == "Center"@); assert("Center"@.len() != "Click"@.len()); } else if j == 12 { reveal_strlit("Static"); assert(table[12].0 == "Static"@); assert("Static"@.len() != "Click"@.len()); } else if j == 13 { reveal_strlit("Dynamic"); assert(table[13].0 == "Dynamic"@); assert("Dynamic"@.len() != "Click"@.len()); } else if j == 14 { reveal_strlit("System"); assert(table[14].0 == "System"@); assert("System"@.len() != "Click"@.len()); } else if j == 15 { reveal_strlit("Light"); assert(table[15].0 == "Light"@); assert("Light"@[0] != "Click"@[0]); } else if j == 16 { reveal_strlit("Dark"); assert(table[16].0 == "Dark"@); assert("Dark"@.len() != "Click"@.len()); } else if j == 17 { reveal_strlit("Comfortable"); assert(table[17].0 == "Comfortable"@); assert("Comfortable"@.len() != "Click"@.len()); } else if j == 18 { reveal_strlit("Standard"); assert(table[18].0 == "Standard"@); assert("Standard"@.len() != "Click"@.len()); } else if j == 19 { reveal_strlit("Custom"); assert(table[19].0 == "Custom"@); assert("Custom"@.len() != "Click"@.len()); } else if j == 20 { reveal_strlit("AfterDelay"); assert(table[20].0 == "AfterDelay"@); assert("AfterDelay"@.len() != "Click"@.len()); } else if j == 21 { reveal_strlit("OnFocusChange"); assert(table[21].0 == "OnFocusChange"@); assert("OnFocusChange"@.len() != "Click"@.len()); } else if j == 22 { reveal_strlit("OnWindowChange"); assert(table[22].0 == "OnWindowChange"@); assert("OnWindowChange"@.len() != "Click"@.len()); } else if j == 23 { reveal_strlit("PrimaryScreen"); assert(table[23].0 == "PrimaryScreen"@); assert("PrimaryScreen"@.len() != "Click"@.len()); } else if j == 24 { reveal_strlit("AllScreens"); assert(table[24].0 == "AllScreens"@); assert("AllScreens"@.len() != "Click"@.len()); } else if j == 25 { reveal_strlit("CurrentScreen"); assert(table[25].0 == "CurrentScreen"@); assert("CurrentScreen"@.len() != "Click"@.len()); } else if j == 26 { reveal_strlit("ActiveScreen"); assert(table[26].0 == "ActiveScreen"@); assert("ActiveScreen"@.len() != "Click"@.len()); } else if j == 27 { reveal_strlit("PlatformNative"); assert(table[27].0 == "PlatformNative"@); assert("PlatformNative"@.len() != "Click"@.len()); } else if j == 28 { reveal_strlit("Code"); assert(table[28].0 == "Code"@); assert("Code"@.len() != "Click"@.len()); } else if j == 29 { reveal_strlit("File"); assert(table[29].0 == "File"@); assert("File"@.len() != "Click"@.len()); } else if j == 30 { reveal_strlit("Bar"); assert(table[30].0 == "Bar"@); assert("Bar"@.len() != "Click"@.len()); } else if j == 31 { reveal_strlit("Block"); assert(table[31].0 == "Block"@); assert("Block"@[0] != "Click"@[0]); } else if j == 32 { reveal_strlit("Underline"); assert(table[32].0 == "Underline"@); assert("Underline"@.len() != "Click"@.len()); } else if j == 33 { reveal_strlit("Hollow"); assert(table[33].0 == "Hollow"@); assert("Hollow"@.len() != "Click"@.len()); } else if j == 34 { reveal_strlit("All"); assert(table[34].0 == "All"@); assert("All"@.len() != "Click"@.len()); } else if j == 35 { reveal_strlit("None"); assert(table[35].0 == "None"@); assert("None"@.len() != "Click"@.len()); } else if j == 36 { reveal_strlit("Current"); assert(table[36].0 == "Current"@); assert("Current"@.len() != "Click"@.len()); } else if j == 37 { reveal_strlit("Directory"); assert(table[37].0 == "Directory"@); assert("Directory"@.len() != "Click"@.len()); } else if j == 38 { reveal_strlit("Project"); assert(table[38].0 == "Project"@); assert("Project"@.len() != "Click"@.len()); } else if j == 39 { reveal_strlit("Hidden"); assert(table[39].0 == "Hidden"@); assert("Hidden"@.len() != "Click"@.len()); } else if j == 40 { reveal_strlit("Visible"); assert(table[40].0 == "Visible"@); assert("Visible"@.len() != "Click"@.len()); } else if j == 41 { reveal_strlit("Vertical"); assert(table[41].0 == "Vertical"@); assert("Vertical"@.len() != "Click"@.len()); } else if j == 42 { reveal_strlit("Horizontal"); assert(table[42].0 == "Horizontal"@); assert("Horizontal"@.len() != "Click"@.len()); } else if j == 43 { reveal_strlit("Wrapped"); assert(table[43].0 == "Wrapped"@); assert("Wrapped"@.len() != "Click"@.len()); } else if j == 44 { reveal_strlit("Open"); assert(table[44].0 == "Open"@); assert("Open"@.len() != "Click"@.len()); } else if j == 45 { reveal_strlit("Closed"); assert(table[45].0 == "Closed"@); assert("Closed"@.len() != "Click"@.len()); } else if j == 46 { reveal_strlit("Docked"); assert(table[46].0 == "Docked"@); assert("Docked"@.len() != "Click"@.len()); } else if j == 47 { reveal_strlit("Fullscreen"); assert(table[47].0 == "Fullscreen"@); assert("Fullscreen"@.len() != "Click"@.len()); } else if j == 48 { reveal_strlit("Screen"); assert(table[48].0 == "Screen"@); assert("Screen"@.len() != "Click"@.len()); } else if j == 49 { reveal_strlit("Workspace"); assert(table[49].0 == "Workspace"@); assert("Workspace"@.len() != "Click"@.len()); } else if j == 50 { reveal_strlit("Buffer"); assert(table[50].0 == "Buffer"@); assert("Buffer"@.len() != "Click"@.len()); } else if j == 51 { reveal_strlit("Replace"); assert(table[51].0 == "Replace"@); assert("Replace"@.len() != "Click"@.len()); } else if j == 52 { reveal_strlit("Visual"); assert(table[52].0 == "Visual"@); assert("Visual"@.len() != "Click"@.len()); } else if j == 53 { reveal_strlit("Normal"); assert(table[53].0 == "Normal"@); assert("Normal"@.len() != "Click"@.len()); } else if j == 54 { reveal_strlit("Insert"); assert(table[54].0 == "Insert"@); assert("Insert"@.len() != "Click"@.len()); } else if j == 55 { reveal_strlit("Local"); assert(table[55].0 == "Local"@); assert("Local"@[0] != "Click"@[0]); } else if j == 56 { reveal_strlit("Global"); assert(table[56].0 == "Global"@); assert("Global"@.len() != "Click"@.len()); } else if j == 57 { reveal_strlit("Manual"); assert(table[57].0 == "Manual"@); assert("Manual"@.len() != "Click"@.len()); }
    }
    lemma_lookup_at(table, 58);
}

proof fn lemma_label_double_click()
    ensures
        localized_label("DoubleClick"@) == "双击"@,
{
    reveal_strlit("DoubleClick");
    lemma_plain_name_normalized("DoubleClick"@);
    let table = variant_label_table();
    assert(table[59] == ("DoubleClick"@, "双击"@));
    assert forall|j: int| 0 <= j < 59 implies #[trigger] table[j].0 != table[59].0 by {
        if j == 0 { reveal_strlit("On"); assert(table[0].0 == "On"@); assert("On"@.len() != "DoubleClick"@.len()); } else if j == 1 { reveal_strlit("Off"); assert(table[1].0 == "Off"@); assert("Off"@.len() != "DoubleClick"@.len()); } else if j == 2 { reveal_strlit("Enabled"); assert(table[2].0 == "Enabled"@); assert("Enabled"@.len() != "DoubleClick"@.len()); } else if j == 3 { reveal_strlit("Disabled"); assert(table[3].0 == "Disabled"@); assert("Disabled"@.len() != "DoubleClick"@.len()); } else if j == 4 { reveal_strlit("Auto"); assert(table[4].0 == "Auto"@); assert("Auto"@.len() != "DoubleClick"@.len()); } else if j == 5 { reveal_strlit("Always"); assert(table[5].0 == "Always"@); assert("Always"@.len() != "DoubleClick"@.len()); } else if j == 6 { reveal_strlit("Never"); assert(table[6].0 == "Never"@); assert("Never"@.len() != "DoubleClick"@.len()); } else if j == 7 { reveal_strlit("Left"); assert(table[7].0 == "Left"@); assert("Left"@.len() != "DoubleClick"@.len()); } else if j == 8 { reveal_strlit("Right"); assert(table[8].0 == "Right"@); assert("Right"@.len() != "DoubleClick"@.len()); } else if j == 9 { reveal_strlit("Top"); assert(table[9].0 == "Top"@); assert("Top"@.len() != "DoubleClick"@.len()); } else if j == 10 { reveal_strlit("Bottom"); assert(table[10].0 == "Bottom"@); assert("Bottom"@.len() != "DoubleClick"@.len()); } else if j == 11 { reveal_strlit("Center"); assert(table[11].0 == "Center"@); assert("Center"@.len() != "DoubleClick"@.len()); } else if j == 12 { reveal_strlit("Static"); assert(table[12].0 == "Static"@); assert("Static"@.len() != "DoubleClick"@.len()); } else if j == 13 { reveal_strlit("Dynamic"); assert(table[13].0 == "Dynamic"@); assert("Dynamic"@.len() != "DoubleClick"@.len()); } else if j == 14 { reveal_strlit("System"); assert(table[14].0 == "System"@); assert("System"@.len() != "DoubleClick"@.len()); } else if j == 15 { reveal_strlit("Light"); assert(table[15].0 == "Light"@); assert("Light"@.len() != "DoubleClick"@.len()); } else if j == 16 { reveal_strlit("Dark"); assert(table[16].0 == "Dark"@); assert("Dark"@.len() != "DoubleClick"@.len()); } else if j == 17 { reveal_strlit("Comfortable"); assert(table[17].0 == "Comfortable"@); assert("Comfortable"@[0] != "DoubleClick"@[0]); } else if j == 18 { reveal_strlit("Standard"); assert(table[18].0 == "Standard"@); assert("Standard"@.len() != "DoubleClick"@.len()); } else if j == 19 { reveal_strlit("Custom"); assert(table[19].0 == "Custom"@); assert("Custom"@.len() != "DoubleClick"@.len()); } else if j == 20 { reveal_strlit("AfterDelay"); assert(table[20].0 == "AfterDelay"@); assert("AfterDelay"@.len() != "DoubleClick"@.len()); } else if j == 21 { reveal_strlit("OnFocusChange"); assert(table[21].0 == "OnFocusChange"@); assert("OnFocusChange"@.len() != "DoubleClick"@.len()); } else if j == 22 { reveal_strlit("OnWindowChange"); assert(table[22].0 == "OnWindowChange"@); assert("OnWindowChange"@.len() != "DoubleClick"@.len()); } else if j == 23 { reveal_strlit("PrimaryScreen"); assert(table[23].0 == "PrimaryScreen"@); assert("PrimaryScreen"@.len() != "DoubleClick"@.len()); } else if j == 24 { reveal_strlit("AllScreens"); assert(table[24].0 == "AllScreens"@); assert("AllScreens"@.len() != "DoubleClick"@.len()); } else if j == 25 { reveal_strlit("CurrentScreen"); assert(table[25].0 == "CurrentScreen"@); assert("CurrentScreen"@.len() != "DoubleClick"@.len()); } else if j == 26 { reveal_strlit("ActiveScreen"); assert(table[26].0 == "ActiveScreen"@); assert("ActiveScreen"@.len() != "DoubleClick"@.len()); } else if j == 27 { reveal_strlit("PlatformNative"); assert(table[27].0 == "PlatformNative"@); assert("PlatformNative"@.len() != "DoubleClick"@.len()); } else if j == 28 { reveal_strlit("Code"); assert(table[28].0 == "Code"@); assert("Code"@.len() != "DoubleClick"@.len()); } else if j == 29 { reveal_strlit("File"); assert(table[29].0 == "File"@); assert("File"@.len() != "DoubleClick"@.len()); } else if j == 30 { reveal_strlit("Bar"); assert(table[30].0 == "Bar"@); assert("Bar"@.len() != "DoubleClick"@.len()); } else if j == 31 { reveal_strlit("Block"); assert(table[31].0 == "Block"@); assert("Block"@.len() != "DoubleClick"@.len()); } else if j == 32 { reveal_strlit("Underline"); assert(table[32].0 == "Underline"@); assert("Underline"@.len() != "DoubleClick"@.len()); } else if j == 33 { reveal_strlit("Hollow"); assert(table[33].0 == "Hollow"@); assert("Hollow"@.len() != "DoubleClick"@.len()); } else if j == 34 { reveal_strlit("All"); assert(table[34].0 == "All"@); assert("All"@.len() != "DoubleClick"@.len()); } else if j == 35 { reveal_strlit("None"); assert(table[35].0 == "None"@); assert("None"@.len() != "DoubleClick"@.len()); } else if j == 36 { reveal_strlit("Current"); assert(table[36].0 == "Current"@); assert("Current"@.len() != "DoubleClick"@.len()); } else if j == 37 { reveal_strlit("Directory"); assert(table[37].0 == "Directory"@); assert("Directory"@.len() != "DoubleClick"@.len()); } else if j == 38 { reveal_strlit("Project"); assert(table[38].0 == "Project"@); assert("Project"@.len() != "DoubleClick"@.len()); } else if j == 39 { reveal_strlit("Hidden"); assert(table[39].0 == "Hidden"@); assert("Hidden"@.len() != "DoubleClick"@.len()); } else if j == 40 { reveal_strlit("Visible"); assert(table[40].0 == "Visible"@); assert("Visible"@.len() != "DoubleClick"@.len()); } else if j == 41 { reveal_strlit("Vertical"); assert(table[41].0 == "Vertical"@); assert("Vertical"@.len() != "DoubleClick"@.len()); } else if j == 42 { reveal_strlit("Horizontal"); assert(table[42].0 == "Horizontal"@); assert("Horizontal"@.len() != "DoubleClick"@.len()); } else if j == 43 { reveal_strlit("Wrapped"); assert(table[43].0 == "Wrapped"@); assert("Wrapped"@.len() != "DoubleClick"@.len()); } else if j == 44 { reveal_strlit("Open"); assert(table[44].0 == "Open"@); assert("Open"@.len() != "DoubleClick"@.len()); } else if j == 45 { reveal_strlit("Closed"); assert(table[45].0 == "Closed"@); assert("Closed"@.len() != "DoubleClick"@.len()); } else if j == 46 { reveal_strlit("Docked"); assert(table[46].0 == "Docked"@); assert("Docked"@.len() != "DoubleClick"@.len()); } else if j == 47 { reveal_strlit("Fullscreen"); assert(table[47].0 == "Fullscreen"@); assert("Fullscreen"@.len() != "DoubleClick"@.len()); } else if j == 48 { reveal_strlit("Screen"); assert(table[48].0 == "Screen"@); assert("Screen"@.len() != "DoubleClick"@.len()); } else if j == 49 { reveal_strlit("Workspace"); assert(table[49].0 == "Workspace"@); assert("Workspace"@.len() != "DoubleClick"@.len()); } else if j == 50 { reveal_strlit("Buffer"); assert(table[50].0 == "Buffer"@); assert("Buffer"@.len() != "DoubleClick"@.len()); } else if j == 51 { reveal_strlit("Replace"); assert(table[51].0 == "Replace"@); assert("Replace"@.len() != "DoubleClick"@.len()); } else if j == 52 { reveal_strlit("Visual"); assert(table[52].0 == "Visual"@); assert("Visual"@.len() != "DoubleClick"@.len()); } else if j == 53 { reveal_strlit("Normal"); assert(table[53].0 == "Normal"@); assert("Normal"@.len() != "DoubleClick"@.len()); } else if j == 54 { reveal_strlit("Insert"); assert(table[54].0 == "Insert"@); assert("Insert"@.len() != "DoubleClick"@.len()); } else if j == 55 { reveal_strlit("Local"); assert(table[55].0 == "Local"@); assert("Local"@.len() != "DoubleClick"@.len()); } else if j == 56 { reveal_strlit("Global"); assert(table[56].0 == "Global"@); assert("Global"@.len() != "DoubleClick"@.len()); } else if j == 57 { reveal_strlit("Manual"); assert(table[57].0 == "Manual"@); assert("Manual"@.len() != "DoubleClick"@.len()); } else if j == 58 { reveal_strlit("Click"); assert(table[58].0 == "Click"@); assert("Click"@.len() != "DoubleClick"@.len()); }
    }
    lemma_lookup_at(table, 59);
}

proof fn lemma_label_selection()
    ensures
        localized_label("Selection"@) == "选区"@,
{
    reveal_strlit("Selection");
    lemma_plain_name_normalized("Selection"@);
    let table = variant_label_table();
    assert(table[60] == ("Selection"@, "选区"@));
    assert forall|j: int| 0 <= j < 60 implies #[trigger] table[j].0 != table[60].0 by {
        if j == 0 { reveal_strlit("On"); assert(table[0].0 == "On"@); assert("On"@.len() != "Selection"@.len()); } else if j == 1 { reveal_strlit("Off"); assert(table[1].0 == "Off"@); assert("Off"@.len() != "Selection"@.len()); } else if j == 2 { reveal_strlit("Enabled"); assert(table[2].0 == "Enabled"@); assert("Enabled"@.len() != "Selection"@.len()); } else if j == 3 { reveal_strlit("Disabled"); assert(table[3].0 == "Disabled"@); assert("Disabled"@.len() != "Selection"@.len()); } else if j == 4 { reveal_strlit("Auto"); assert(table[4].0 == "Auto"@); assert("Auto"@.len() != "Selection"@.len()); } else if j == 5 { reveal_strlit("Always"); assert(table[5].0 == "Always"@); assert("Always"@.len() != "Selection"@.len()); } else if j == 6 { reveal_strlit("Never"); assert(table[6].0 == "Never"@); assert("Never"@.len() != "Selection"@.len()); } else if j == 7 { reveal_strlit("Left"); assert(table[7].0 == "Left"@); assert("Left"@.len() != "Selection"@.len()); } else if j == 8 { reveal_strlit("Right"); assert(table[8].0 == "Right"@); assert("Right"@.len() != "Selection"@.len()); } else if j == 9 { reveal_strlit("Top"); assert(table[9].0 == "Top"@); assert("Top"@.len() != "Selection"@.len()); } else if j == 10 { reveal_strlit("Bottom"); assert(table[10].0 == "Bottom"@); assert("Bottom"@.len() != "Selection"@.len()); } else if j == 11 { reveal_strlit("Center"); assert(table[11].0 == "Center"@); assert("Center"@.len() != "Selection"@.len()); } else if j == 12 { reveal_strlit("Static"); assert(table[12].0 == "Static"@); assert("Static"@.len() != "Selection"@.len()); } else if j == 13 { reveal_strlit("Dynamic"); assert(table[13].0 == "Dynamic"@); assert("Dynamic"@.len() != "Selection"@.len()); } else if j == 14 { reveal_strlit("System"); assert(table[14].0 == "System"@); assert("System"@.len() != "Selection"@.len()); } else if j == 15 { reveal_strlit("Light"); assert(table[15].0 == "Light"@); assert("Light"@.len() != "Selection"@.len()); } else if j == 16 { reveal_strlit("Dark"); assert(table[16].0 == "Dark"@); assert("Dark"@.len() != "Selection"@.len()); } else if j == 17 { reveal_strlit("Comfortable"); assert(table[17].0 == "Comfortable"@); assert("Comfortable"@.len() != "Selection"@.len()); } else if j == 18 { reveal_strlit("Standard"); assert(table[18].0 == "Standard"@); assert("Standard"@.len() != "Selection"@.len()); } else if j == 19 { reveal_strlit("Custom"); assert(table[19].0 == "Custom"@); assert("Custom"@.len() != "Selection"@.len()); } else if j == 20 { reveal_strlit("AfterDelay"); assert(table[20].0 == "AfterDelay"@); assert("AfterDelay"@.len() != "Selection"@.len()); } else if j == 21 { reveal_strlit("OnFocusChange"); assert(table[21].0 == "OnFocusChange"@); assert("OnFocusChange"@.len() != "Selection"@.len()); } else if j == 22 { reveal_strlit("OnWindowChange"); assert(table[22].0 == "OnWindowChange"@); assert("OnWindowChange"@.len() != "Selection"@.len()); } else if j == 23 { reveal_strlit("PrimaryScreen"); assert(table[23].0 == "PrimaryScreen"@); assert("PrimaryScreen"@.len() != "Selection"@.len()); } else if j == 24 { reveal_strlit("AllScreens"); assert(table[24].0 == "AllScreens"@); assert("AllScreens"@.len() != "Selection"@.len()); } else if j == 25 { reveal_strlit("CurrentScreen"); assert(table[25].0 == "CurrentScreen"@); assert("CurrentScreen"@.len() != "Selection"@.len()); } else if j == 26 { reveal_strlit("ActiveScreen"); assert(table[26].0 == "ActiveScreen"@); assert("ActiveScreen"@.len() != "Selection"@.len()); } else if j == 27 { reveal_strlit("PlatformNative"); assert(table[27].0 == "PlatformNative"@); assert("PlatformNative"@.len() != "Selection"@.len()); } else if j == 28 { reveal_strlit("Code"); assert(table[28].0 == "Code"@); assert("Code"@.len() != "Selection"@.len()); } else if j == 29 { reveal_strlit("File"); assert(table[29].0 == "File"@); assert("File"@.len() != "Selection"@.len()); } else if j == 30 { reveal_strlit("Bar"); assert(table[30].0 == "Bar"@); assert("Bar"@.len() != "Selection"@.len()); } else if j == 31 { reveal_strlit("Block"); assert(table[31].0 == "Block"@); assert("Block"@.len() != "Selection"@.len()); } else if j == 32 { reveal_strlit("Underline"); assert(table[32].0 == "Underline"@); assert("Underline"@[0] != "Selection"@[0]); } else if j == 33 { reveal_strlit("Hollow"); assert(table[33].0 == "Hollow"@); assert("Hollow"@.len() != "Selection"@.len()); } else if j == 34 { reveal_strlit("All"); assert(table[34].0 == "All"@); assert("All"@.len() != "Selection"@.len()); } else if j == 35 { reveal_strlit("None"); assert(table[35].0 == "None"@); assert("None"@.len() != "Selection"@.len()); } else if j == 36 { reveal_strlit("Current"); assert(table[36].0 == "Current"@); assert("Current"@.len() != "Selection"@.len()); } else if j == 37 { reveal_strlit("Directory"); assert(table[37].0 == "Directory"@); assert("Directory"@[0] != "Selection"@[0]); } else if j == 38 { reveal_strlit("Project"); assert(table[38].0 == "Project"@); assert("Project"@.len() != "Selection"@.len()); } else if j == 39 { reveal_strlit("Hidden"); assert(table[39].0 == "Hidden"@); assert("Hidden"@.len() != "Selection"@.len()); } else if j == 40 { reveal_strlit("Visible"); assert(table[40].0 == "Visible"@); assert("Visible"@.len() != "Selection"@.len()); } else if j == 41 { reveal_strlit("Vertical"); assert(table[41].0 == "Vertical"@); assert("Vertical"@.len() != "Selection"@.len()); } else if j == 42 { reveal_strlit("Horizontal"); assert(table[42].0 == "Horizontal"@); assert("Horizontal"@.len() != "Selection"@.len()); } else if j == 43 { reveal_strlit("Wrapped"); assert(table[43].0 == "Wrapped"@); assert("Wrapped"@.len() != "Selection"@.len()); } else if j == 44 { reveal_strlit("Open"); assert(table[44].0 == "Open"@); assert("Open"@.len() != "Selection"@.len()); } else if j == 45 { reveal_strlit("Closed"); assert(table[45].0 == "Closed"@); assert("Closed"@.len() != "Selection"@.len()); } else if j == 46 { reveal_strlit("Docked"); assert(table[46].0 == "Docked"@); assert("Docked"@.len() != "Selection"@.len()); } else if j == 47 { reveal_strlit("Fullscreen"); assert(table[47].0 == "Fullscreen"@); assert("Fullscreen"@.len() != "Selection"@.len()); } else if j == 48 { reveal_strlit("Screen"); assert(table[48].0 == "Screen"@); assert("Screen"@.len() != "Selection"@.len()); } else if j == 49 { reveal_strlit("Workspace"); assert(table[49].0 == "Workspace"@); assert("Workspace"@[0] != "Selection"@[0]); } else if j == 50 { reveal_strlit("Buffer"); assert(table[50].0 == "Buffer"@); assert("Buffer"@.len() != "Selection"@.len()); } else if j == 51 { reveal_strlit("Replace"); assert(table[51].0 == "Replace"@); assert("Replace"@.len() != "Selection"@.len()); } else if j == 52 { reveal_strlit("Visual"); assert(table[52].0 == "Visual"@); assert("Visual"@.len() != "Selection"@.len()); } else if j == 53 { reveal_strlit("Normal"); assert(table[53].0 == "Normal"@); assert("Normal"@.len() != "Selection"@.len()); } else if j == 54 { reveal_strlit("Insert"); assert(table[54].0 == "Insert"@); assert("Insert"@.len() != "Selection"@.len()); } else if j == 55 { reveal_strlit("Local"); assert(table[55].0 == "Local"@); assert("Local"@.len() != "Selection"@.len()); } else if j == 56 { reveal_strlit("Global"); assert(table[56].0 == "Global"@); assert("Global"@.len() != "Selection"@.len()); } else if j == 57 { reveal_strlit("Manual"); assert(table[57].0 == "Manual"@); assert("Manual"@.len() != "Selection"@.len()); } else if j == 58 { reveal_strlit("Click"); assert(table[58].0 == "Click"@); assert("Click"@.len() != "Selection"@.len()); } else if j == 59 { reveal_strlit("DoubleClick"); assert(table[59].0 == "DoubleClick"@); assert("DoubleClick"@.len() != "Selection"@.len()); }
    }
    lemma_lookup_at(table, 60);
}

proof fn lemma_label_first()
    ensures
        localized_label("First"@) == "第一个"@,
{
    reveal_strlit("First");
    lemma_plain_name_normalized("First"@);
    let table = variant_label_table();
    assert(table[61] == ("First"@, "第一个"@));
    assert forall|j: int| 0 <= j < 61 implies #[trigger] table[j].0 != table[61].0 by {
        if j == 0 { reveal_strlit("On"); assert(table[0].0 == "On"@); assert("On"@.len() != "First"@.len()); } else if j == 1 { reveal_strlit("Off"); assert(table[1].0 == "Off"@); assert("Off"@.len() != "First"@.len()); } else if j == 2 { reveal_strlit("Enabled"); assert(table[2].0 == "Enabled"@); assert("Enabled"@.len() != "First"@.len()); } else if j == 3 { reveal_strlit("Disabled"); assert(table[3].0 == "Disabled"@); assert("Disabled"@.len() != "First"@.len()); } else if j == 4 { reveal_strlit("Auto"); assert(table[4].0 == "Auto"@); assert("Auto"@.len() != "First"@.len()); } else if j == 5 { reveal_strlit("Always"); assert(table[5].0 == "Always"@); assert("Always"@.len() != "First"@.len()); } else if j == 6 { reveal_strlit("Never"); assert(table[6].0 == "Never"@); assert("Never"@[0] != "First"@[0]); } else if j == 7 { reveal_strlit("Left"); assert(table[7].0 == "Left"@); assert("Left"@.len() != "First"@.len()); } else if j == 8 { reveal_strlit("Right"); assert(table[8].0 == "Right"@); assert("Right"@[0] != "First"@[0]); } else if j == 9 { reveal_strlit("Top"); assert(table[9].0 == "Top"@); assert("Top"@.len() != "First"@.len()); } else if j == 10 { reveal_strlit("Bottom"); assert(table[10].0 == "Bottom"@); assert("Bottom"@.len() != "First"@.len()); } else if j == 11 { reveal_strlit("Center"); assert(table[11].0 == "Center"@); assert("Center"@.len() != "First"@.len()); } else if j == 12 { reveal_strlit("Static"); assert(table[12].0 == "Static"@); assert("Static"@.len() != "First"@.len()); } else if j == 13 { reveal_strlit("Dynamic"); assert(table[13].0 == "Dynamic"@); assert("Dynamic"@.len() != "First"@.len()); } else if j == 14 { reveal_strlit("System"); assert(table[14].0 == "System"@); assert("System"@.len() != "First"@.len()); } else if j == 15 { reveal_strlit("Light"); assert(table[15].0 == "Light"@); assert("Light"@[0] != "First"@[0]); } else if j == 16 { reveal_strlit("Dark"); assert(table[16].0 == "Dark"@); assert("Dark"@.len() != "First"@.len()); } else if j == 17 { reveal_strlit("Comfortable"); assert(table[17].0 == "Comfortable"@); assert("Comfortable"@.len() != "First"@.len()); } else if j == 18 { reveal_strlit("Standard"); assert(table[18].0 == "Standard"@); assert("Standard"@.len() != "First"@.len()); } else if j == 19 { reveal_strlit("Custom"); assert(table[19].0 == "Custom"@); assert("Custom"@.len() != "First"@.len()); } else if j == 20 { reveal_strlit("AfterDelay"); assert(table[20].0 == "AfterDelay"@); assert("AfterDelay"@.len() != "First"@.len()); } else if j == 21 { reveal_strlit("OnFocusChange"); assert(table[21].0 == "OnFocusChange"@); assert("OnFocusChange"@.len() != "First"@.len()); } else if j == 22 { reveal_strlit("OnWindowChange"); assert(table[22].0 == "OnWindowChange"@); assert("OnWindowChange"@.len() != "First"@.len()); } else if j == 23 { reveal_strlit("PrimaryScreen"); assert(table[23].0 == "PrimaryScreen"@); assert("PrimaryScreen"@.len() != "First"@.len()); } else if j == 24 { reveal_strlit("AllScreens"); assert(table[24].0 == "AllScreens"@); assert("AllScreens"@.len() != "First"@.len()); } else if j == 25 { reveal_strlit("CurrentScreen"); assert(table[25].0 == "CurrentScreen"@); assert("CurrentScreen"@.len() != "First"@.len()); } else if j == 26 { reveal_strlit("ActiveScreen"); assert(table[26].0 == "ActiveScreen"@); assert("ActiveScreen"@.len() != "First"@.len()); } else if j == 27 { reveal_strlit("PlatformNative"); assert(table[27].0 == "PlatformNative"@); assert("PlatformNative"@.len() != "First"@.len()); } else if j == 28 { reveal_strlit("Code"); assert(table[28].0 == "Code"@); assert("Code"@.len() != "First"@.len()); } else if j == 29 { reveal_strlit("File"); assert(table[29].0 == "File"@); assert("File"@.len() != "First"@.len()); } else if j == 30 { reveal_strlit("Bar"); assert(table[30].0 == "Bar"@); assert("Bar"@.len() != "First"@.len()); } else if j == 31 { reveal_strlit("Block"); assert(table[31].0 == "Block"@); assert("Block"@[0] != "First"@[0]); } else if j == 32 { reveal_strlit("Underline"); assert(table[32].0 == "Underline"@); assert("Underline"@.len() != "First"@.len()); } else if j == 33 { reveal_strlit("Hollow"); assert(table[33].0 == "Hollow"@); assert("Hollow"@.len() != "First"@.len()); } else if j == 34 { reveal_strlit("All"); assert(table[34].0 == "All"@); assert("All"@.len() != "First"@.len()); } else if j == 35 { reveal_strlit("None"); assert(table[35].0 == "None"@); assert("None"@.len() != "First"@.len()); } else if j == 36 { reveal_strlit("Current"); assert(table[36].0 == "Current"@); assert("Current"@.len() != "First"@.len()); } else if j == 37 { reveal_strlit("Directory"); assert(table[37].0 == "Directory"@); assert("Directory"@.len() != "First"@.len()); } else if j == 38 { reveal_strlit("Project"); assert(table[38].0 == "Project"@); assert("Project"@.len() != "First"@.len()); } else if j == 39 { reveal_strlit("Hidden"); assert(table[39].0 == "Hidden"@); assert("Hidden"@.len() != "First"@.len()); } else if j == 40 { reveal_strlit("Visible"); assert(table[40].0 == "Visible"@); assert("Visible"@.len() != "First"@.len()); } else if j == 41 { reveal_strlit("Vertical"); assert(table[41].0 == "Vertical"@); assert("Vertical"@.len() != "First"@.len()); } else if j == 42 { reveal_strlit("Horizontal"); assert(table[42].0 == "Horizontal"@); assert("Horizontal"@.len() != "First"@.len()); } else if j == 43 { reveal_strlit("Wrapped"); assert(table[43].0 == "Wrapped"@); assert("Wrapped"@.len() != "First"@.len()); } else if j == 44 { reveal_strlit("Open"); assert(table[44].0 == "Open"@); assert("Open"@.len() != "First"@.len()); } else if j == 45 { reveal_strlit("Closed"); assert(table[45].0 == "Closed"@); assert("Closed"@.len() != "First"@.len()); } else if j == 46 { reveal_strlit("Docked"); assert(table[46].0 == "Docked"@); assert("Docked"@.len() != "First"@.len()); } else if j == 47 { reveal_strlit("Fullscreen"); assert(table[47].0 == "Fullscreen"@); assert("Fullscreen"@.len() != "First"@.len()); } else if j == 48 { reveal_strlit("Screen"); assert(table[48].0 == "Screen"@); assert("Screen"@.len() != "First"@.len()); } else if j == 49 { reveal_strlit("Workspace"); assert(table[49].0 == "Workspace"@); assert("Workspace"@.len() != "First"@.len()); } else if j == 50 { reveal_strlit("Buffer"); assert(table[50].0 == "Buffer"@); assert("Buffer"@.len() != "First"@.len()); } else if j == 51 { reveal_strlit("Replace"); assert(table[51].0 == "Replace"@); assert("Replace"@.len() != "First"@.len()); } else if j == 52 { reveal_strlit("Visual"); assert(table[52].0 == "Visual"@); assert("Visual"@.len() != "First"@.len()); } else if j == 53 { reveal_strlit("Normal"); assert(table[53].0 == "Normal"@); assert("Normal"@.len() != "First"@.len()); } else if j == 54 { reveal_strlit("Insert"); assert(table[54].0 == "Insert"@); assert("Insert"@.len() != "First"@.len()); } else if j == 55 { reveal_strlit("Local"); assert(table[55].0 == "Local"@); assert("Local"@[0] != "First"@[0]); } else if j == 56 { reveal_strlit("Global"); assert(table[56].0 == "Global"@); assert("Global"@.len() != "First"@.len()); } else if j == 57 { reveal_strlit("Manual"); assert(table[57].0 == "Manual"@); assert("Manual"@.len() != "First"@.len()); } else if j == 58 { reveal_strlit("Click"); assert(table[58].0 == "Click"@); assert("Click"@[0] != "First"@[0]); } else if j == 59 { reveal_strlit("DoubleClick"); assert(table[59].0 == "DoubleClick"@); assert("DoubleClick"@.len() != "First"@.len()); } else if j == 60 { reveal_strlit("Selection"); assert(table[60].0 == "Selection"@); assert("Selection"@.len() != "First"@.len()); }
    }
    lemma_lookup_at(table, 61);
}

proof fn lemma_label_last()
    ensures
        localized_label("Last"@) == "最后一个"@,
{
    reveal_strlit("Last");
    lemma_plain_name_normalized("Last"@);
    let table = variant_label_table();
    assert(table[62] == ("Last"@, "最后一个"@));
    assert forall|j: int| 0 <= j < 62 implies #[trigger] table[j].0 != table[62].0 by {
        if j == 0 { reveal_strlit("On"); assert(table[0].0 == "On"@); assert("On"@.len() != "Last"@.len()); } else if j == 1 { reveal_strlit("Off"); assert(table[1].0 == "Off"@); assert("Off"@.len() != "Last"@.len()); } else if j == 2 { reveal_strlit("Enabled"); assert(table[2].0 == "Enabled"@); assert("Enabled"@.len() != "Last"@.len()); } else if j == 3 { reveal_strlit("Disabled"); assert(table[3].0 == "Disabled"@); assert("Disabled"@.len() != "Last"@.len()); } else if j == 4 { reveal_strlit("Auto"); assert(table[4].0 == "Auto"@); assert("Auto"@[0] != "Last"@[0]); } else if j == 5 { reveal_strlit("Always"); assert(table[5].0 == "Always"@); assert("Always"@.len() != "Last"@.len()); } else if j == 6 { reveal_strlit("Never"); assert(table[6].0 == "Never"@); assert("Never"@.len() != "Last"@.len()); } else if j == 7 { reveal_strlit("Left"); assert(table[7].0 == "Left"@); assert("Left"@[1] != "Last"@[1]); } else if j == 8 { reveal_strlit("Right"); assert(table[8].0 == "Right"@); assert("Right"@.len() != "Last"@.len()); } else if j == 9 { reveal_strlit("Top"); assert(table[9].0 == "Top"@); assert("Top"@.len() != "Last"@.len()); } else if j == 10 { reveal_strlit("Bottom"); assert(table[10].0 == "Bottom"@); assert("Bottom"@.len() != "Last"@.len()); } else if j == 11 { reveal_strlit("Center"); assert(table[11].0 == "Center"@); assert("Center"@.len() != "Last"@.len()); } else if j == 12 { reveal_strlit("Static"); assert(table[12].0 == "Static"@); assert("Static"@.len() != "Last"@.len()); } else if j == 13 { reveal_strlit("Dynamic"); assert(table[13].0 == "Dynamic"@); assert("Dynamic"@.len() != "Last"@.len()); } else if j == 14 { reveal_strlit("System"); assert(table[14].0 == "System"@); assert("System"@.len() != "Last"@.len()); } else if j == 15 { reveal_strlit("Light"); assert(table[15].0 == "Light"@); assert("Light"@.len() != "Last"@.len()); } else if j == 16 { reveal_strlit("Dark"); assert(table[16].0 == "Dark"@); assert("Dark"@[0] != "Last"@[0]); } else if j == 17 { reveal_strlit("Comfortable"); assert(table[17].0 == "Comfortable"@); assert("Comfortable"@.len() != "Last"@.len()); } else if j == 18 { reveal_strlit("Standard"); assert(table[18].0 == "Standard"@); assert("Standard"@.len() != "Last"@.len()); } else if j == 19 { reveal_strlit("Custom"); assert(table[19].0 == "Custom"@); assert("Custom"@.len() != "Last"@.len()); } else if j == 20 { reveal_strlit("AfterDelay"); assert(table[20].0 == "AfterDelay"@); assert("AfterDelay"@.len() != "Last"@.len()); } else if j == 21 { reveal_strlit("OnFocusChange"); assert(table[21].0 == "OnFocusChange"@); assert("OnFocusChange"@.len() != "Last"@.len()); } else if j == 22 { reveal_strlit("OnWindowChange"); assert(table[22].0 == "OnWindowChange"@); assert("OnWindowChange"@.len() != "Last"@.len()); } else if j == 23 { reveal_strlit("PrimaryScreen"); assert(table[23].0 == "PrimaryScreen"@); assert("PrimaryScreen"@.len() != "Last"@.len()); } else if j == 24 { reveal_strlit("AllScreens"); assert(table[24].0 == "AllScreens"@); assert("AllScreens"@.len() != "Last"@.len()); } else if j == 25 { reveal_strlit("CurrentScreen"); assert(table[25].0 == "CurrentScreen"@); assert("CurrentScreen"@.len() != "Last"@.len()); } else if j == 26 { reveal_strlit("ActiveScreen"); assert(table[26].0 == "ActiveScreen"@); assert("ActiveScreen"@.len() != "Last"@.len()); } else if j == 27 { reveal_strlit("PlatformNative"); assert(table[27].0 == "PlatformNative"@); assert("PlatformNative"@.len() != "Last"@.len()); } else if j == 28 { reveal_strlit("Code"); assert(table[28].0 == "Code"@); assert("Code"@[0] != "Last"@[0]); } else if j == 29 { reveal_strlit("File"); assert(table[29].0 == "File"@); assert("File"@[0] != "Last"@[0]); } else if j == 30 { reveal_strlit("Bar"); assert(table[30].0 == "Bar"@); assert("Bar"@.len() != "Last"@.len()); } else if j == 31 { reveal_strlit("Block"); assert(table[31].0 == "Block"@); assert("Block"@.len() != "Last"@.len()); } else if j == 32 { reveal_strlit("Underline"); assert(table[32].0 == "Underline"@); assert("Underline"@.len() != "Last"@.len()); } else if j == 33 { reveal_strlit("Hollow"); assert(table[33].0 == "Hollow"@); assert("Hollow"@.len() != "Last"@.len()); } else if j == 34 { reveal_strlit("All"); assert(table[34].0 == "All"@); assert("All"@.len() != "Last"@.len()); } else if j == 35 { reveal_strlit("None"); assert(table[35].0 == "None"@); assert("None"@[0] != "Last"@[0]); } else if j == 36 { reveal_strlit("Current"); assert(table[36].0 == "Current"@); assert("Current"@.len() != "Last"@.len()); } else if j == 37 { reveal_strlit("Directory"); assert(table[37].0 == "Directory"@); assert("Directory"@.len() != "Last"@.len()); } else if j == 38 { reveal_strlit("Project"); assert(table[38].0 == "Project"@); assert("Project"@.len() != "Last"@.len()); } else if j == 39 { reveal_strlit("Hidden"); assert(table[39].0 == "Hidden"@); assert("Hidden"@.len() != "Last"@.len()); } else if j == 40 { reveal_strlit("Visible"); assert(table[40].0 == "Visible"@); assert("Visible"@.len() != "Last"@.len()); } else if j == 41 { reveal_strlit("Vertical"); assert(table[41].0 == "Vertical"@); assert("Vertical"@.len() != "Last"@.len()); } else if j == 42 { reveal_strlit("Horizontal"); assert(table[42].0 == "Horizontal"@); assert("Horizontal"@.len() != "Last"@.len()); } else if j == 43 { reveal_strlit("Wrapped"); assert(table[43].0 == "Wrapped"@); assert("Wrapped"@.len() != "Last"@.len()); } else if j == 44 { reveal_strlit("Open"); assert(table[44].0 == "Open"@); assert("Open"@[0] != "Last"@[0]); } else if j == 45 { reveal_strlit("Closed"); assert(table[45].0 == "Closed"@); assert("Closed"@.len() != "Last"@.len()); } else if j == 46 { reveal_strlit("Docked"); assert(table[46].0 == "Docked"@); assert("Docked"@.len() != "Last"@.len()); } else if j == 47 { reveal_strlit("Fullscreen"); assert(table[47].0 == "Fullscreen"@); assert("Fullscreen"@.len() != "Last"@.len()); } else if j == 48 { reveal_strlit("Screen"); assert(table[48].0 == "Screen"@); assert("Screen"@.len() != "Last"@.len()); } else if j == 49 { reveal_strlit("Workspace"); assert(table[49].0 == "Workspace"@); assert("Workspace"@.len() != "Last"@.len()); } else if j == 50 { reveal_strlit("Buffer"); assert(table[50].0 == "Buffer"@); assert("Buffer"@.len() != "Last"@.len()); } else if j == 51 { reveal_strlit("Replace"); assert(table[51].0 == "Replace"@); assert("Replace"@.len() != "Last"@.len()); } else if j == 52 { reveal_strlit("Visual"); assert(table[52].0 == "Visual"@); assert("Visual"@.len() != "Last"@.len()); } else if j == 53 { reveal_strlit("Normal"); assert(table[53].0 == "Normal"@); assert("Normal"@.len() != "Last"@.len()); } else if j == 54 { reveal_strlit("Insert"); assert(table[54].0 == "Insert"@); assert("Insert"@.len() != "Last"@.len()); } else if j == 55 { reveal_strlit("Local"); assert(table[55].0 == "Local"@); assert("Local"@.len() != "Last"@.len()); } else if j == 56 { reveal_strlit("Global"); assert(table[56].0 == "Global"@); assert("Global"@.len() != "Last"@.len()); } else if j == 57 { reveal_strlit("Manual"); assert(table[57].0 == "Manual"@); assert("Manual"@.len() != "Last"@.len()); } else if j == 58 { reveal_strlit("Click"); assert(table[58].0 == "Click"@); assert("Click"@.len() != "Last"@.len()); } else if j == 59 { reveal_strlit("DoubleClick"); assert(table[59].0 == "DoubleClick"@); assert("DoubleClick"@.len() != "Last"@.len()); } else if j == 60 { reveal_strlit("Selection"); assert(table[60].0 == "Selection"@); assert("Selection"@.len() != "Last"@.len()); } else if j == 61 { reveal_strlit("First"); assert(table[61].0 == "First"@); assert("First"@.len() != "Last"@.len()); }
    }
    lemma_lookup_at(table, 62);
}

proof fn lemma_label_previous()
    ensures
        localized_label("Previous"@) == "上一个"@,
{
    reveal_strlit("Previous");
    lemma_plain_name_normalized("Previous"@);
    let table = variant_label_table();
    assert(table[63] == ("Previous"@, "上一个"@));
    assert forall|j: int| 0 <= j < 63 implies #[trigger] table[j].0 != table[63].0 by {
        if j == 0 { reveal_strlit("On"); assert(table[0].0 == "On"@); assert("On"@.len() != "Previous"@.len()); } else if j == 1 { reveal_strlit("Off"); assert(table[1].0 == "Off"@); assert("Off"@.len() != "Previous"@.len()); } else if j == 2 { reveal_strlit("Enabled"); assert(table[2].0 == "Enabled"@); assert("Enabled"@.len() != "Previous"@.len()); } else if j == 3 { reveal_strlit("Disabled"); assert(table[3].0 == "Disabled"@); assert("Disabled"@[0] != "Previous"@[0]); } else if j == 4 { reveal_strlit("Auto"); assert(table[4].0 == "Auto"@); assert("Auto"@.len() != "Previous"@.len()); } else if j == 5 { reveal_strlit("Always"); assert(table[5].0 == "Always"@); assert("Always"@.len() != "Previous"@.len()); } else if j == 6 { reveal_strlit("Never"); assert(table[6].0 == "Never"@); assert("Never"@.len() != "Previous"@.len()); } else if j == 7 { reveal_strlit("Left"); assert(table[7].0 == "Left"@); assert("Left"@.len() != "Previous"@.len()); } else if j == 8 { reveal_strlit("Right"); assert(table[8].0 == "Right"@); assert("Right"@.len() != "Previous"@.len()); } else if j == 9 { reveal_strlit("Top"); assert(table[9].0 == "Top"@); assert("Top"@.len() != "Previous"@.len()); } else if j == 10 { reveal_strlit("Bottom"); assert(table[10].0 == "Bottom"@); assert("Bottom"@.len() != "Previous"@.len()); } else if j == 11 { reveal_strlit("Center"); assert(table[11].0 == "Center"@); assert("Center"@.len() != "Previous"@.len()); } else if j == 12 { reveal_strlit("Static"); assert(table[12].0 == "Static"@); assert("Static"@.len() != "Previous"@.len()); } else if j == 13 { reveal_strlit("Dynamic"); assert(table[13].0 == "Dynamic"@); assert("Dynamic"@.len() != "Previous"@.len()); } else if j == 14 { reveal_strlit("System"); assert(table[14].0 == "System"@); assert("System"@.len() != "Previous"@.len()); } else if j == 15 { reveal_strlit("Light"); assert(table[15].0 == "Light"@); assert("Light"@.len() != "Previous"@.len()); } else if j == 16 { reveal_strlit("Dark"); assert(table[16].0 == "Dark"@); assert("Dark"@.len() != "Previous"@.len()); } else if j == 17 { reveal_strlit("Comfortable"); assert(table[17].0 == "Comfortable"@); assert("Comfortable"@.len() != "Previous"@.len()); } else if j == 18 { reveal_strlit("Standard"); assert(table[18].0 == "Standard"@); assert("Standard"@[0] != "Previous"@[0]); } else if j == 19 { reveal_strlit("Custom"); assert(table[19].0 == "Custom"@); assert("Custom"@.len() != "Previous"@.len()); } else if j == 20 { reveal_strlit("AfterDelay"); assert(table[20].0 == "AfterDelay"@); assert("AfterDelay"@.len() != "Previous"@.len()); } else if j == 21 { reveal_strlit("OnFocusChange"); assert(table[21].0 == "OnFocusChange"@); assert("OnFocusChange"@.len() != "Previous"@.len()); } else if j == 22 { reveal_strlit("OnWindowChange"); assert(table[22].0 == "OnWindowChange"@); assert("OnWindowChange"@.len() != "Previous"@.len()); } else if j == 23 { reveal_strlit("PrimaryScreen"); assert(table[23].0 == "PrimaryScreen"@); assert("PrimaryScreen"@.len() != "Previous"@.len()); } else if j == 24 { reveal_strlit("AllScreens"); assert(table[24].0 == "AllScreens"@); assert("AllScreens"@.len() != "Previous"@.len()); } else if j == 25 { reveal_strlit("CurrentScreen"); assert(table[25].0 == "CurrentScreen"@); assert("CurrentScreen"@.len() != "Previous"@.len()); } else if j == 26 { reveal_strlit("ActiveScreen"); assert(table[26].0 == "ActiveScreen"@); assert("ActiveScreen"@.len() != "Previous"@.len()); } else if j == 27 { reveal_strlit("PlatformNative"); assert(table[27].0 == "PlatformNative"@); assert("PlatformNative"@.len() != "Previous"@.len()); } else if j == 28 { reveal_strlit("Code"); assert(table[28].0 == "Code"@); assert("Code"@.len() != "Previous"@.len()); } else if j == 29 { reveal_strlit("File"); assert(table[29].0 == "File"@); assert("File"@.len() != "Previous"@.len()); } else if j == 30 { reveal_strlit("Bar"); assert(table[30].0 == "Bar"@); assert("Bar"@.len() != "Previous"@.len()); } else if j == 31 { reveal_strlit("Block"); assert(table[31].0 == "Block"@); assert("Block"@.len() != "Previous"@.len()); } else if j == 32 { reveal_strlit("Underline"); assert(table[32].0 == "Underline"@); assert("Underline"@.len() != "Previous"@.len()); } else if j == 33 { reveal_strlit("Hollow"); assert(table[33].0 == "Hollow"@); assert("Hollow"@.len() != "Previous"@.len()); } else if j == 34 { reveal_strlit("All"); assert(table[34].0 == "All"@); assert("All"@.len() != "Previous"@.len()); } else if j == 35 { reveal_strlit("None"); assert(table[35].0 == "None"@); assert("None"@.len() != "Previous"@.len()); } else if j == 36 { reveal_strlit("Current"); assert(table[36].0 == "Current"@); assert("Current"@.len() != "Previous"@.len()); } else if j == 37 { reveal_strlit("Directory"); assert(table[37].0 == "Directory"@); assert("Directory"@.len() != "Previous"@.len()); } else if j == 38 { reveal_strlit("Project"); assert(table[38].0 == "Project"@); assert("Project"@.len() != "Previous"@.len()); } else if j == 39 { reveal_strlit("Hidden"); assert(table[39].0 == "Hidden"@); assert("Hidden"@.len() != "Previous"@.len()); } else if j == 40 { reveal_strlit("Visible"); assert(table[40].0 == "Visible"@); assert("Visible"@.len() != "Previous"@.len()); } else if j == 41 { reveal_strlit("Vertical"); assert(table[41].0 == "Vertical"@); assert("Vertical"@[0] != "Previous"@[0]); } else if j == 42 { reveal_strlit("Horizontal"); assert(table[42].0 == "Horizontal"@); assert("Horizontal"@.len() != "Previous"@.len()); } else if j == 43 { reveal_strlit("Wrapped"); assert(table[43].0 == "Wrapped"@); assert("Wrapped"@.len() != "Previous"@.len()); } else if j == 44 { reveal_strlit("Open"); assert(table[44].0 == "Open"@); assert("Open"@.len() != "Previous"@.len()); } else if j == 45 { reveal_strlit("Closed"); assert(table[45].0 == "Closed"@); assert("Closed"@.len() != "Previous"@.len()); } else if j == 46 { reveal_strlit("Docked"); assert(table[46].0 == "Docked"@); assert("Docked"@.len() != "Previous"@.len()); } else if j == 47 { reveal_strlit("Fullscreen"); assert(table[47].0 == "Fullscreen"@); assert("Fullscreen"@.len() != "Previous"@.len()); } else if j == 48 { reveal_strlit("Screen"); assert(table[48].0 == "Screen"@); assert("Screen"@.len() != "Previous"@.len()); } else if j == 49 { reveal_strlit("Workspace"); assert(table[49].0 == "Workspace"@); assert("Workspace"@.len() != "Previous"@.len()); } else if j == 50 { reveal_strlit("Buffer"); assert(table[50].0 == "Buffer"@); assert("Buffer"@.len() != "Previous"@.len()); } else if j == 51 { reveal_strlit("Replace"); assert(table[51].0 == "Replace"@); assert("Replace"@.len() != "Previous"@.len()); } else if j == 52 { reveal_strlit("Visual"); assert(table[52].0 == "Visual"@); assert("Visual"@.len() != "Previous"@.len()); } else if j == 53 { reveal_strlit("Normal"); assert(table[53].0 == "Normal"@); assert("Normal"@.len() != "Previous"@.len()); } else if j == 54 { reveal_strlit("Insert"); assert(table[54].0 == "Insert"@); assert("Insert"@.len() != "Previous"@.len()); } else if j == 55 { reveal_strlit("Local"); assert(table[55].0 == "Local"@); assert("Local"@.len() != "Previous"@.len()); } else if j == 56 { reveal_strlit("Global"); assert(table[56].0 == "Global"@); assert("Global"@.len() != "Previous"@.len()); } else if j == 57 { reveal_strlit("Manual"); assert(table[57].0 == "Manual"@); assert("Manual"@.len() != "Previous"@.len()); } else if j == 58 { reveal_strlit("Click"); assert(table[58].0 == "Click"@); assert("Click"@.len() != "Previous"@.len()); } else if j == 59 { reveal_strlit("DoubleClick"); assert(table[59].0 == "DoubleClick"@); assert("DoubleClick"@.len() != "Previous"@.len()); } else if j == 60 { reveal_strlit("Selection"); assert(table[60].0 == "Selection"@); assert("Selection"@.len() != "Previous"@.len()); } else if j == 61 { reveal_strlit("First"); assert(table[61].0 == "First"@); assert("First"@.len() != "Previous"@.len()); } else if j == 62 { reveal_strlit("Last"); assert(table[62].0 == "Last"@); assert("Last"@.len() != "Previous"@.len()); }
    }
    lemma_lookup_at(table, 63);
}

proof fn lemma_label_next()
    ensures
        localized_label("Next"@) == "下一个"@,
{
    reveal_strlit("Next");
    lemma_plain_name_normalized("Next"@);
    let table = variant_label_table();
    assert(table[64] == ("Next"@, "下一个"@));
    assert forall|j: int| 0 <= j < 64 implies #[trigger] table[j].0 != table[64].0 by {
        if j == 0 { reveal_strlit("On"); assert(table[0].0 == "On"@); assert("On"@.len() != "Next"@.len()); } else if j == 1 { reveal_strlit("Off"); assert(table[1].0 == "Off"@); assert("Off"@.len() != "Next"@.len()); } else if j == 2 { reveal_strlit("Enabled"); assert(table[2].0 == "Enabled"@); assert("Enabled"@.len() != "Next"@.len()); } else if j == 3 { reveal_strlit("Disabled"); assert(table[3].0 == "Disabled"@); assert("Disabled"@.len() != "Next"@.len()); } else if j == 4 { reveal_strlit("Auto"); assert(table[4].0 == "Auto"@); assert("Auto"@[0] != "Next"@[0]); } else if j == 5 { reveal_strlit("Always"); assert(table[5].0 == "Always"@); assert("Always"@.len() != "Next"@.len()); } else if j == 6 { reveal_strlit("Never"); assert(table[6].0 == "Never"@); assert("Never"@.len() != "Next"@.len()); } else if j == 7 { reveal_strlit("Left"); assert(table[7].0 == "Left"@); assert("Left"@[0] != "Next"@[0]); } else if j == 8 { reveal_strlit("Right"); assert(table[8].0 == "Right"@); assert("Right"@.len() != "Next"@.len()); } else if j == 9 { reveal_strlit("Top"); assert(table[9].0 == "Top"@); assert("Top"@.len() != "Next"@.len()); } else if j == 10 { reveal_strlit("Bottom"); assert(table[10].0 == "Bottom"@); assert("Bottom"@.len() != "Next"@.len()); } else if j == 11 { reveal_strlit("Center"); assert(table[11].0 == "Center"@); assert("Center"@.len() != "Next"@.len()); } else if j == 12 { reveal_strlit("Static"); assert(table[12].0 == "Static"@); assert("Static"@.len() != "Next"@.len()); } else if j == 13 { reveal_strlit("Dynamic"); assert(table[13].0 == "Dynamic"@); assert("Dynamic"@.len() != "Next"@.len()); } else if j == 14 { reveal_strlit("System"); assert(table[14].0 == "System"@); assert("System"@.len() != "Next"@.len()); } else if j == 15 { reveal_strlit("Light"); assert(table[15].0 == "Light"@); assert("Light"@.len() != "Next"@.len()); } else if j == 16 { reveal_strlit("Dark"); assert(table[16].0 == "Dark"@); assert("Dark"@[0] != "Next"@[0]); } else if j == 17 { reveal_strlit("Comfortable"); assert(table[17].0 == "Comfortable"@); assert("Comfortable"@.len() != "Next"@.len()); } else if j == 18 { reveal_strlit("Standard"); assert(table[18].0 == "Standard"@); assert("Standard"@.len() != "Next"@.len()); } else if j == 19 { reveal_strlit("Custom"); assert(table[19].0 == "Custom"@); assert("Custom"@.len() != "Next"@.len()); } else if j == 20 { reveal_strlit("AfterDelay"); assert(table[20].0 == "AfterDelay"@); assert("AfterDelay"@.len() != "Next"@.len()); } else if j == 21 { reveal_strlit("OnFocusChange"); assert(table[21].0 == "OnFocusChange"@); assert("OnFocusChange"@.len() != "Next"@.len()); } else if j == 22 { reveal_strlit("OnWindowChange"); assert(table[22].0 == "OnWindowChange"@); assert("OnWindowChange"@.len() != "Next"@.len()); } else if j == 23 { reveal_strlit("PrimaryScreen"); assert(table[23].0 == "PrimaryScreen"@); assert("PrimaryScreen"@.len() != "Next"@.len()); } else if j == 24 { reveal_strlit("AllScreens"); assert(table[24].0 == "AllScreens"@); assert("AllScreens"@.len() != "Next"@.len()); } else if j == 25 { reveal_strlit("CurrentScreen"); assert(table[25].0 == "CurrentScreen"@); assert("CurrentScreen"@.len() != "Next"@.len()); } else if j == 26 { reveal_strlit("ActiveScreen"); assert(table[26].0 == "ActiveScreen"@); assert("ActiveScreen"@.len() != "Next"@.len()); } else if j == 27 { reveal_strlit("PlatformNative"); assert(table[27].0 == "PlatformNative"@); assert("PlatformNative"@.len() != "Next"@.len()); } else if j == 28 { reveal_strlit("Code"); assert(table[28].0 == "Code"@); assert("Code"@[0] != "Next"@[0]); } else if j == 29 { reveal_strlit("File"); assert(table[29].0 == "File"@); assert("File"@[0] != "Next"@[0]); } else if j == 30 { reveal_strlit("Bar"); assert(table[30].0 == "Bar"@); assert("Bar"@.len() != "Next"@.len()); } else if j == 31 { reveal_strlit("Block"); assert(table[31].0 == "Block"@); assert("Block"@.len() != "Next"@.len()); } else if j == 32 { reveal_strlit("Underline"); assert(table[32].0 == "Underline"@); assert("Underline"@.len() != "Next"@.len()); } else if j == 33 { reveal_strlit("Hollow"); assert(table[33].0 == "Hollow"@); assert("Hollow"@.len() != "Next"@.len()); } else if j == 34 { reveal_strlit("All"); assert(table[34].0 == "All"@); assert("All"@.len() != "Next"@.len()); } else if j == 35 { reveal_strlit("None"); assert(table[35].0 == "None"@); assert("None"@[1] != "Next"@[1]); } else if j == 36 { reveal_strlit("Current"); assert(table[36].0 == "Current"@); assert("Current"@.len() != "Next"@.len()); } else if j == 37 { reveal_strlit("Directory"); assert(table[37].0 == "Directory"@); assert("Directory"@.len() != "Next"@.len()); } else if j == 38 { reveal_strlit("Project"); assert(table[38].0 == "Project"@); assert("Project"@.len() != "Next"@.len()); } else if j == 39 { reveal_strlit("Hidden"); assert(table[39].0 == "Hidden"@); assert("Hidden"@.len() != "Next"@.len()); } else if j == 40 { reveal_strlit("Visible"); assert(table[40].0 == "Visible"@); assert("Visible"@.len() != "Next"@.len()); } else if j == 41 { reveal_strlit("Vertical"); assert(table[41].0 == "Vertical"@); assert("Vertical"@.len() != "Next"@.len()); } else if j == 42 { reveal_strlit("Horizontal"); assert(table[42].0 == "Horizontal"@); assert("Horizontal"@.len() != "Next"@.len()); } else if j == 43 { reveal_strlit("Wrapped"); assert(table[43].0 == "Wrapped"@); assert("Wrapped"@.len() != "Next"@.len()); } else if j == 44 { reveal_strlit("Open"); assert(table[44].0 == "Open"@); assert("Open"@[0] != "Next"@[0]); } else if j == 45 { reveal_strlit("Closed"); assert(table[45].0 == "Closed"@); assert("Closed"@.len() != "Next"@.len()); } else if j == 46 { reveal_strlit("Docked"); assert(table[46].0 == "Docked"@); assert("Docked"@.len() != "Next"@.len()); } else if j == 47 { reveal_strlit("Fullscreen"); assert(table[47].0 == "Fullscreen"@); assert("Fullscreen"@.len() != "Next"@.len()); } else if j == 48 { reveal_strlit("Screen"); assert(table[48].0 == "Screen"@); assert("Screen"@.len() != "Next"@.len()); } else if j == 49 { reveal_strlit("Workspace"); assert(table[49].0 == "Workspace"@); assert("Workspace"@.len() != "Next"@.len()); } else if j == 50 { reveal_strlit("Buffer"); assert(table[50].0 == "Buffer"@); assert("Buffer"@.len() != "Next"@.len()); } else if j == 51 { reveal_strlit("Replace"); assert(table[51].0 == "Replace"@); assert("Replace"@.len() != "Next"@.len()); } else if j == 52 { reveal_strlit("Visual"); assert(table[52].0 == "Visual"@); assert("Visual"@.len() != "Next"@.len()); } else if j == 53 { reveal_strlit("Normal"); assert(table[53].0 == "Normal"@); assert("Normal"@.len() != "Next"@.len()); } else if j == 54 { reveal_strlit("Insert"); assert(table[54].0 == "Insert"@); assert("Insert"@.len() != "Next"@.len()); } else if j == 55 { reveal_strlit("Local"); assert(table[55].0 == "Local"@); assert("Local"@.len() != "Next"@.len()); } else if j == 56 { reveal_strlit("Global"); assert(table[56].0 == "Global"@); assert("Global"@.len() != "Next"@.len()); } else if j == 57 { reveal_strlit("Manual"); assert(table[57].0 == "Manual"@); assert("Manual"@.len() != "Next"@.len()); } else if j == 58 { reveal_strlit("Click"); assert(table[58].0 == "Click"@); assert("Click"@.len() != "Next"@.len()); } else if j == 59 { reveal_strlit("DoubleClick"); assert(table[59].0 == "DoubleClick"@); assert("DoubleClick"@.len() != "Next"@.len()); } else if j == 60 { reveal_strlit("Selection"); assert(table[60].0 == "Selection"@); assert("Selection"@.len() != "Next"@.len()); } else if j == 61 { reveal_strlit("First"); assert(table[61].0 == "First"@); assert("First"@.len() != "Next"@.len()); } else if j == 62 { reveal_strlit("Last"); assert(table[62].0 == "Last"@); assert("Last"@[0] != "Next"@[0]); } else if j == 63 { reveal_strlit("Previous"); assert(table[63].0 == "Previous"@); assert("Previous"@.len() != "Next"@.len()); }
    }
    lemma_lookup_at(table, 64);
}

proof fn lemma_label_true()
    ensures
        localized_label("true"@) == "是"@,
{
    reveal_strlit("true");
    lemma_plain_name_normalized("true"@);
    let table = variant_label_table();
    assert(table[65] == ("true"@, "是"@));
    assert forall|j: int| 0 <= j < 65 implies #[trigger] table[j].0 != table[65].0 by {
        if j == 0 { reveal_strlit("On"); assert(table[0].0 == "On"@); assert("On"@.len() != "true"@.len()); } else if j == 1 { reveal_strlit("Off"); assert(table[1].0 == "Off"@); assert("Off"@.len() != "true"@.len()); } else if j == 2 { reveal_strlit("Enabled"); assert(table[2].0 == "Enabled"@); assert("Enabled"@.len() != "true"@.len()); } else if j == 3 { reveal_strlit("Disabled"); assert(table[3].0 == "Disabled"@); assert("Disabled"@.len() != "true"@.len()); } else if j == 4 { reveal_strlit("Auto"); assert(table[4].0 == "Auto"@); assert("Auto"@[0] != "true"@[0]); } else if j == 5 { reveal_strlit("Always"); assert(table[5].0 == "Always"@); assert("Always"@.len() != "true"@.len()); } else if j == 6 { reveal_strlit("Never"); assert(table[6].0 == "Never"@); assert("Never"@.len() != "true"@.len()); } else if j == 7 { reveal_strlit("Left"); assert(table[7].0 == "Left"@); assert("Left"@[0] != "true"@[0]); } else if j == 8 { reveal_strlit("Right"); assert(table[8].0 == "Right"@); assert("Right"@.len() != "true"@.len()); } else if j == 9 { reveal_strlit("Top"); assert(table[9].0 == "Top"@); assert("Top"@.len() != "true"@.len()); } else if j == 10 { reveal_strlit("Bottom"); assert(table[10].0 == "Bottom"@); assert("Bottom"@.len() != "true"@.len()); } else if j == 11 { reveal_strlit("Center"); assert(table[11].0 == "Center"@); assert("Center"@.len() != "true"@.len()); } else if j == 12 { reveal_strlit("Static"); assert(table[12].0 == "Static"@); assert("Static"@.len() != "true"@.len()); } else if j == 13 { reveal_strlit("Dynamic"); assert(table[13].0 == "Dynamic"@); assert("Dynamic"@.len() != "true"@.len()); } else if j == 14 { reveal_strlit("System"); assert(table[14].0 == "System"@); assert("System"@.len() != "true"@.len()); } else if j == 15 { reveal_strlit("Light"); assert(table[15].0 == "Light"@); assert("Light"@.len() != "true"@.len()); } else if j == 16 { reveal_strlit("Dark"); assert(table[16].0 == "Dark"@); assert("Dark"@[0] != "true"@[0]); } else if j == 17 { reveal_strlit("Comfortable"); assert(table[17].0 == "Comfortable"@); assert("Comfortable"@.len() != "true"@.len()); } else if j == 18 { reveal_strlit("Standard"); assert(table[18].0 == "Standard"@); assert("Standard"@.len() != "true"@.len()); } else if j == 19 { reveal_strlit("Custom"); assert(table[19].0 == "Custom"@); assert("Custom"@.len() != "true"@.len()); } else if j == 20 { reveal_strlit("AfterDelay"); assert(table[20].0 == "AfterDelay"@); assert("AfterDelay"@.len() != "true"@.len()); } else if j == 21 { reveal_strlit("OnFocusChange"); assert(table[21].0 == "OnFocusChange"@); assert("OnFocusChange"@.len() != "true"@.len()); } else if j == 22 { reveal_strlit("OnWindowChange"); assert(table[22].0 == "OnWindowChange"@); assert("OnWindowChange"@.len() != "true"@.len()); } else if j == 23 { reveal_strlit("PrimaryScreen"); assert(table[23].0 == "PrimaryScreen"@); assert("PrimaryScreen"@.len() != "true"@.len()); } else if j == 24 { reveal_strlit("AllScreens"); assert(table[24].0 == "AllScreens"@); assert("AllScreens"@.len() != "true"@.len()); } else if j == 25 { reveal_strlit("CurrentScreen"); assert(table[25].0 == "CurrentScreen"@); assert("CurrentScreen"@.len() != "true"@.len()); } else if j == 26 { reveal_strlit("ActiveScreen"); assert(table[26].0 == "ActiveScreen"@); assert("ActiveScreen"@.len() != "true"@.len()); } else if j == 27 { reveal_strlit("PlatformNative"); assert(table[27].0 == "PlatformNative"@); assert("PlatformNative"@.len() != "true"@.len()); } else if j == 28 { reveal_strlit("Code"); assert(table[28].0 == "Code"@); assert("Code"@[0] != "true"@[0]); } else if j == 29 { reveal_strlit("File"); assert(table[29].0 == "File"@); assert("File"@[0] != "true"@[0]); } else if j == 30 { reveal_strlit("Bar"); assert(table[30].0 == "Bar"@); assert("Bar"@.len() != "true"@.len()); } else if j == 31 { reveal_strlit("Block"); assert(table[31].0 == "Block"@); assert("Block"@.len() != "true"@.len()); } else if j == 32 { reveal_strlit("Underline"); assert(table[32].0 == "Underline"@); assert("Underline"@.len() != "true"@.len()); } else if j == 33 { reveal_strlit("Hollow"); assert(table[33].0 == "Hollow"@); assert("Hollow"@.len() != "true"@.len()); } else if j == 34 { reveal_strlit("All"); assert(table[34].0 == "All"@); assert("All"@.len() != "true"@.len()); } else if j == 35 { reveal_strlit("None"); assert(table[35].0 == "None"@); assert("None"@[0] != "true"@[0]); } else if j == 36 { reveal_strlit("Current"); assert(table[36].0 == "Current"@); assert("Current"@.len() != "true"@.len()); } else if j == 37 { reveal_strlit("Directory"); assert(table[37].0 == "Directory"@); assert("Directory"@.len() != "true"@.len()); } else if j == 38 { reveal_strlit("Project"); assert(table[38].0 == "Project"@); assert("Project"@.len() != "true"@.len()); } else if j == 39 { reveal_strlit("Hidden"); assert(table[39].0 == "Hidden"@); assert("Hidden"@.len() != "true"@.len()); } else if j == 40 { reveal_strlit("Visible"); assert(table[40].0 == "Visible"@); assert("Visible"@.len() != "true"@.len()); } else if j == 41 { reveal_strlit("Vertical"); assert(table[41].0 == "Vertical"@); assert("Vertical"@.len() != "true"@.len()); } else if j == 42 { reveal_strlit("Horizontal"); assert(table[42].0 == "Horizontal"@); assert("Horizontal"@.len() != "true"@.len()); } else if j == 43 { reveal_strlit("Wrapped"); assert(table[43].0 == "Wrapped"@); assert("Wrapped"@.len() != "true"@.len()); } else if j == 44 { reveal_strlit("Open"); assert(table[44].0 == "Open"@); assert("Open"@[0] != "true"@[0]); } else if j == 45 { reveal_strlit("Closed"); assert(table[45].0 == "Closed"@); assert("Closed"@.len() != "true"@.len()); } else if j == 46 { reveal_strlit("Docked"); assert(table[46].0 == "Docked"@); assert("Docked"@.len() != "true"@.len()); } else if j == 47 { reveal_strlit("Fullscreen"); assert(table[47].0 == "Fullscreen"@); assert("Fullscreen"@.len() != "true"@.len()); } else if j == 48 { reveal_strlit("Screen"); assert(table[48].0 == "Screen"@); assert("Screen"@.len() != "true"@.len()); } else if j == 49 { reveal_strlit("Workspace"); assert(table[49].0 == "Workspace"@); assert("Workspace"@.len() != "true"@.len()); } else if j == 50 { reveal_strlit("Buffer"); assert(table[50].0 == "Buffer"@); assert("Buffer"@.len() != "true"@.len()); } else if j == 51 { reveal_strlit("Replace"); assert(table[51].0 == "Replace"@); assert("Replace"@.len() != "true"@.len()); } else if j == 52 { reveal_strlit("Visual"); assert(table[52].0 == "Visual"@); assert("Visual"@.len() != "true"@.len()); } else if j == 53 { reveal_strlit("Normal"); assert(table[53].0 == "Normal"@); assert("Normal"@.len() != "true"@.len()); } else if j == 54 { reveal_strlit("Insert"); assert(table[54].0 == "Insert"@); assert("Insert"@.len() != "true"@.len()); } else if j == 55 { reveal_strlit("Local"); assert(table[55].0 == "Local"@); assert("Local"@.len() != "true"@.len()); } else if j == 56 { reveal_strlit("Global"); assert(table[56].0 == "Global"@); assert("Global"@.len() != "true"@.len()); } else if j == 57 { reveal_strlit("Manual"); assert(table[57].0 == "Manual"@); assert("Manual"@.len() != "true"@.len()); } else if j == 58 { reveal_strlit("Click"); assert(table[58].0 == "Click"@); assert("Click"@.len() != "true"@.len()); } else if j == 59 { reveal_strlit("DoubleClick"); assert(table[59].0 == "DoubleClick"@); assert("DoubleClick"@.len() != "true"@.len()); } else if j == 60 { reveal_strlit("Selection"); assert(table[60].0 == "Selection"@); assert("Selection"@.len() != "true"@.len()); } else if j == 61 { reveal_strlit("First"); assert(table[61].0 == "First"@); assert("First"@.len() != "true"@.len()); } else if j == 62 { reveal_strlit("Last"); assert(table[62].0 == "Last"@); assert("Last"@[0] != "true"@[0]); } else if j == 63 { reveal_strlit("Previous"); assert(table[63].0 == "Previous"@); assert("Previous"@.len() != "true"@.len()); } else if j == 64 { reveal_strlit("Next"); assert(table[64].0 == "Next"@); assert("Next"@[0] != "true"@[0]); }
    }
    lemma_lookup_at(table, 65);
}

proof fn lemma_label_false()
    ensures
        localized_label("false"@) == "否"@,
{
    reveal_strlit("false");
    lemma_plain_name_normalized("false"@);
    let table = variant_label_table();
    assert(table[66] == ("false"@, "否"@));
    assert forall|j: int| 0 <= j < 66 implies #[trigger] table[j].0 != table[66].0 by {
        if j == 0 { reveal_strlit("On"); assert(table[0].0 == "On"@); assert("On"@.len() != "false"@.len()); } else if j == 1 { reveal_strlit("Off"); assert(table[1].0 == "Off"@); assert("Off"@.len() != "false"@.len()); } else if j == 2 { reveal_strlit("Enabled"); assert(table[2].0 == "Enabled"@); assert("Enabled"@.len() != "false"@.len()); } else if j == 3 { reveal_strlit("Disabled"); assert(table[3].0 == "Disabled"@); assert("Disabled"@.len() != "false"@.len()); } else if j == 4 { reveal_strlit("Auto"); assert(table[4].0 == "Auto"@); assert("Auto"@.len() != "false"@.len()); } else if j == 5 { reveal_strlit("Always"); assert(table[5].0 == "Always"@); assert("Always"@.len() != "false"@.len()); } else if j == 6 { reveal_strlit("Never"); assert(table[6].0 == "Never"@); assert("Never"@[0] != "false"@[0]); } else if j == 7 { reveal_strlit("Left"); assert(table[7].0 == "Left"@); assert("Left"@.len() != "false"@.len()); } else if j == 8 { reveal_strlit("Right"); assert(table[8].0 == "Right"@); assert("Right"@[0] != "false"@[0]); } else if j == 9 { reveal_strlit("Top"); assert(table[9].0 == "Top"@); assert("Top"@.len() != "false"@.len()); } else if j == 10 { reveal_strlit("Bottom"); assert(table[10].0 == "Bottom"@); assert("Bottom"@.len() != "false"@.len()); } else if j == 11 { reveal_strlit("Center"); assert(table[11].0 == "Center"@); assert("Center"@.len() != "false"@.len()); } else if j == 12 { reveal_strlit("Static"); assert(table[12].0 == "Static"@); assert("Static"@.len() != "false"@.len()); } else if j == 13 { reveal_strlit("Dynamic"); assert(table[13].0 == "Dynamic"@); assert("Dynamic"@.len() != "false"@.len()); } else if j == 14 { reveal_strlit("System"); assert(table[14].0 == "System"@); assert("System"@.len() != "false"@.len()); } else if j == 15 { reveal_strlit("Light"); assert(table[15].0 == "Light"@); assert("Light"@[0] != "false"@[0]); } else if j == 16 { reveal_strlit("Dark"); assert(table[16].0 == "Dark"@); assert("Dark"@.len() != "false"@.len()); } else if j == 17 { reveal_strlit("Comfortable"); assert(table[17].0 == "Comfortable"@); assert("Comfortable"@.len() != "false"@.len()); } else if j == 18 { reveal_strlit("Standard"); assert(table[18].0 == "Standard"@); assert("Standard"@.len() != "false"@.len()); } else if j == 19 { reveal_strlit("Custom"); assert(table[19].0 == "Custom"@); assert("Custom"@.len() != "false"@.len()); } else if j == 20 { reveal_strlit("AfterDelay"); assert(table[20].0 == "AfterDelay"@); assert("AfterDelay"@.len() != "false"@.len()); } else if j == 21 { reveal_strlit("OnFocusChange"); assert(table[21].0 == "OnFocusChange"@); assert("OnFocusChange"@.len() != "false"@.len()); } else if j == 22 { reveal_strlit("OnWindowChange"); assert(table[22].0 == "OnWindowChange"@); assert("OnWindowChange"@.len() != "false"@.len()); } else if j == 23 { reveal_strlit("PrimaryScreen"); assert(table[23].0 == "PrimaryScreen"@); assert("PrimaryScreen"@.len() != "false"@.len()); } else if j == 24 { reveal_strlit("AllScreens"); assert(table[24].0 == "AllScreens"@); assert("AllScreens"@.len() != "false"@.len()); } else if j == 25 { reveal_strlit("CurrentScreen"); assert(table[25].0 == "CurrentScreen"@); assert("CurrentScreen"@.len() != "false"@.len()); } else if j == 26 { reveal_strlit("ActiveScreen"); assert(table[26].0 == "ActiveScreen"@); assert("ActiveScreen"@.len() != "false"@.len()); } else if j == 27 { reveal_strlit("PlatformNative"); assert(table[27].0 == "PlatformNative"@); assert("PlatformNative"@.len() != "false"@.len()); } else if j == 28 { reveal_strlit("Code"); assert(table[28].0 == "Code"@); assert("Code"@.len() != "false"@.len()); } else if j == 29 { reveal_strlit("File"); assert(table[29].0 == "File"@); assert("File"@.len() != "false"@.len()); } else if j == 30 { reveal_strlit("Bar"); assert(table[30].0 == "Bar"@); assert("Bar"@.len() != "false"@.len()); } else if j == 31 { reveal_strlit("Block"); assert(table[31].0 == "Block"@); assert("Block"@[0] != "false"@[0]); } else if j == 32 { reveal_strlit("Underline"); assert(table[32].0 == "Underline"@); assert("Underline"@.len() != "false"@.len()); } else if j == 33 { reveal_strlit("Hollow"); assert(table[33].0 == "Hollow"@); assert("Hollow"@.len() != "false"@.len()); } else if j == 34 { reveal_strlit("All"); assert(table[34].0 == "All"@); assert("All"@.len() != "false"@.len()); } else if j == 35 { reveal_strlit("None"); assert(table[35].0 == "None"@); assert("None"@.len() != "false"@.len()); } else if j == 36 { reveal_strlit("Current"); assert(table[36].0 == "Current"@); assert("Current"@.len() != "false"@.len()); } else if j == 37 { reveal_strlit("Directory"); assert(table[37].0 == "Directory"@); assert("Directory"@.len() != "false"@.len()); } else if j == 38 { reveal_strlit("Project"); assert(table[38].0 == "Project"@); assert("Project"@.len() != "false"@.len()); } else if j == 39 { reveal_strlit("Hidden"); assert(table[39].0 == "Hidden"@); assert("Hidden"@.len() != "false"@.len()); } else if j == 40 { reveal_strlit("Visible"); assert(table[40].0 == "Visible"@); assert("Visible"@.len() != "false"@.len()); } else if j == 41 { reveal_strlit("Vertical"); assert(table[41].0 == "Vertical"@); assert("Vertical"@.len() != "false"@.len()); } else if j == 42 { reveal_strlit("Horizontal"); assert(table[42].0 == "Horizontal"@); assert("Horizontal"@.len() != "false"@.len()); } else if j == 43 { reveal_strlit("Wrapped"); assert(table[43].0 == "Wrapped"@); assert("Wrapped"@.len() != "false"@.len()); } else if j == 44 { reveal_strlit("Open"); assert(table[44].0 == "Open"@); assert("Open"@.len() != "false"@.len()); } else if j == 45 { reveal_strlit("Closed"); assert(table[45].0 == "Closed"@); assert("Closed"@.len() != "false"@.len()); } else if j == 46 { reveal_strlit("Docked"); assert(table[46].0 == "Docked"@); assert("Docked"@.len() != "false"@.len()); } else if j == 47 { reveal_strlit("Fullscreen"); assert(table[47].0 == "Fullscreen"@); assert("Fullscreen"@.len() != "false"@.len()); } else if j == 48 { reveal_strlit("Screen"); assert(table[48].0 == "Screen"@); assert("Screen"@.len() != "false"@.len()); } else if j == 49 { reveal_strlit("Workspace"); assert(table[49].0 == "Workspace"@); assert("Workspace"@.len() != "false"@.len()); } else if j == 50 { reveal_strlit("Buffer"); assert(table[50].0 == "Buffer"@); assert("Buffer"@.len() != "false"@.len()); } else if j == 51 { reveal_strlit("Replace"); assert(table[51].0 == "Replace"@); assert("Replace"@.len() != "false"@.len()); } else if j == 52 { reveal_strlit("Visual"); assert(table[52].0 == "Visual"@); assert("Visual"@.len() != "false"@.len()); } else if j == 53 { reveal_strlit("Normal"); assert(table[53].0 == "Normal"@); assert("Normal"@.len() != "false"@.len()); } else if j == 54 { reveal_strlit("Insert"); assert(table[54].0 == "Insert"@); assert("Insert"@.len() != "false"@.len()); } else if j == 55 { reveal_strlit("Local"); assert(table[55].0 == "Local"@); assert("Local"@[0] != "false"@[0]); } else if j == 56 { reveal_strlit("Global"); assert(table[56].0 == "Global"@); assert("Global"@.len() != "false"@.len()); } else if j == 57 { reveal_strlit("Manual"); assert(table[57].0 == "Manual"@); assert("Manual"@.len() != "false"@.len()); } else if j == 58 { reveal_strlit("Click"); assert(table[58].0 == "Click"@); assert("Click"@[0] != "false"@[0]); } else if j == 59 { reveal_strlit("DoubleClick"); assert(table[59].0 == "DoubleClick"@); assert("DoubleClick"@.len() != "false"@.len()); } else if j == 60 { reveal_strlit("Selection"); assert(table[60].0 == "Selection"@); assert("Selection"@.len() != "false"@.len()); } else if j == 61 { reveal_strlit("First"); assert(table[61].0 == "First"@); assert("First"@[0] != "false"@[0]); } else if j == 62 { reveal_strlit("Last"); assert(table[62].0 == "Last"@); assert("Last"@.len() != "false"@.len()); } else if j == 63 { reveal_strlit("Previous"); assert(table[63].0 == "Previous"@); assert("Previous"@.len() != "false"@.len()); } else if j == 64 { reveal_strlit("Next"); assert(table[64].0 == "Next"@); assert("Next"@.len() != "false"@.len()); } else if j == 65 { reveal_strlit("true"); assert(table[65].0 == "true"@); assert("true"@.len() != "false"@.len()); }
    }
    lemma_lookup_at(table, 66);
}

/// Each variant name of the label table is shown as its own translation (separators
/// such as spaces and underscores aside, see `localized_label`).
pub proof fn law_label_table()
    ensures
        localized_label("On"@) == "开启"@,
        localized_label("Off"@) == "关闭"@,
        localized_label("Enabled"@) == "启用"@,
        localized_label("Disabled"@) == "禁用"@,
        localized_label("Auto"@) == "自动"@,
        localized_label("Always"@) == "始终"@,
        localized_label("Never"@) == "从不"@,
        localized_label("Left"@) == "左侧"@,
        localized_label("Right"@) == "右侧"@,
        localized_label("Top"@) == "顶部"@,
        localized_label("Bottom"@) == "底部"@,
        localized_label("Center"@) == "居中"@,
        localized_label("Static"@) == "固定"@,
        localized_label("Dynamic"@) == "动态"@,
        localized_label("System"@) == "跟随系统"@,
        localized_label("Light"@) == "浅色"@,
        localized_label("Dark"@) == "深色"@,
        localized_label("Comfortable"@) == "舒适"@,
        localized_label("Standard"@) == "标准"@,
        localized_label("Custom"@) == "自定义"@,
        localized_label("AfterDelay"@) == "延迟后"@,
        localized_label("OnFocusChange"@) == "失去焦点时"@,
        localized_label("OnWindowChange"@) == "窗口变化时"@,
        localized_label("PrimaryScreen"@) == "主屏幕"@,
        localized_label("AllScreens"@) == "所有屏幕"@,
        localized_label("CurrentScreen"@) == "当前屏幕"@,
        localized_label("ActiveScreen"@) == "活动屏幕"@,
        localized_label("PlatformNative"@) == "系统原生"@,
        localized_label("Code"@) == "代码"@,
        localized_label("File"@) == "文件"@,
        localized_label("Bar"@) == "条形"@,
        localized_label("Block"@) == "方块"@,
        localized_label("Underline"@) == "下划线"@,
        localized_label("Hollow"@) == "空心"@,
        localized_label("All"@) == "全部"@,
        localized_label("None"@) == "无"@,
        localized_label("Current"@) == "当前项"@,
        localized_label("Directory"@) == "目录"@,
        localized_label("Project"@) == "项目"@,
        localized_label("Hidden"@) == "隐藏"@,
        localized_label("Visible"@) == "可见"@,
        localized_label("Vertical"@) == "垂直"@,
        localized_label("Horizontal"@) == "水平"@,
        localized_label("Wrapped"@) == "按折行"@,
        localized_label("Open"@) == "打开"@,
        localized_label("Closed"@) == "关闭"@,
        localized_label("Docked"@) == "停靠"@,
        localized_label("Fullscreen"@) == "全屏"@,
        localized_label("Screen"@) == "屏幕"@,
        localized_label("Workspace"@) == "工作区"@,
        localized_label("Buffer"@) == "缓冲区"@,
        localized_label("Replace"@) == "替换"@,
        localized_label("Visual"@) == "可视"@,
        localized_label("Normal"@) == "普通"@,
        localized_label("Insert"@) == "插入"@,
        localized_label("Local"@) == "本地"@,
        localized_label("Global"@) == "全局"@,
        localized_label("Manual"@) == "手动"@,
        localized_label("Click"@) == "点击"@,
        localized_label("DoubleClick"@) == "双击"@,
        localized_label("Selection"@) == "选区"@,
        localized_label("First"@) == "第一个"@,
        localized_label("Last"@) == "最后一个"@,
        localized_label("Previous"@) == "上一个"@,
        localized_label("Next"@) == "下一个"@,
        localized_label("true"@) == "是"@,
        localized_label("false"@) == "否"@,
{
    lemma_label_on();
    lemma_label_off();
    lemma_label_enabled();
    lemma_label_disabled();
    lemma_label_auto();
    lemma_label_always();
    lemma_label_never();
    lemma_label_left();
    lemma_label_right();
    lemma_label_top();
    lemma_label_bottom();
    lemma_label_center();
    lemma_label_static();
    lemma_label_dynamic();
    lemma_label_system();
    lemma_label_light();
    lemma_label_dark();
    lemma_label_comfortable();
    lemma_label_standard();
    lemma_label_custom();
    lemma_label_after_delay();
    lemma_label_on_focus_change();
    lemma_label_on_window_change();
    lemma_label_primary_screen();
    lemma_label_all_screens();
    lemma_label_current_screen();
    lemma_label_active_screen();
    lemma_label_platform_native();
    lemma_label_code();
    lemma_label_file();
    lemma_label_bar();
    lemma_label_block();
    lemma_label_underline();
    lemma_label_hollow();
    lemma_label_all();
    lemma_label_none();
    lemma_label_current();
    lemma_label_directory();
    lemma_label_project();
    lemma_label_hidden();
    lemma_label_visible();
    lemma_label_vertical();
    lemma_label_horizontal();
    lemma_label_wrapped();
    lemma_label_open();
    lemma_label_closed();
    lemma_label_docked();
    lemma_label_fullscreen();
    lemma_label_screen();
    lemma_label_workspace();
    lemma_label_buffer();
    lemma_label_replace();
    lemma_label_visual();
    lemma_label_normal();
    lemma_label_insert();
    lemma_label_local();
    lemma_label_global();
    lemma_label_manual();
    lemma_label_click();
    lemma_label_double_click();
    lemma_label_selection();
    lemma_label_first();
    lemma_label_last();
    lemma_label_previous();
    lemma_label_next();
    lemma_label_true();
    lemma_label_false();
}

} // verus!
