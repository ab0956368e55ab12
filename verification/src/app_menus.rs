//! The application menus of the menu bar.

use vstd::prelude::*;

verus! {

/// A command that a menu entry runs.
pub enum MenuCommand {
    About,
    AddFolderToProject,
    AddSelectionAbove { skip_soft_wrap: bool },
    AddSelectionBelow { skip_soft_wrap: bool },
    CloseActiveItem { close_pinned: bool },
    CloseProject,
    CloseWindow,
    Copy,
    CopyAndTrim,
    Cut,
    DecreaseBufferFontSize { persist: bool },
    DeployBufferSearch,
    DeployProjectSearch,
    DuplicateLineDown,
    GoBack,
    GoForward,
    Hide,
    HideOthers,
    IncreaseBufferFontSize { persist: bool },
    Minimize,
    MoveLineDown,
    MoveLineUp,
    NewFile,
    NewWindow,
    Open,
    OpenBrowser { url: &'static str },
    OpenDefaultSettings,
    OpenFiles,
    OpenLicenses,
    OpenMarkdownPreview,
    OpenProjectSettings,
    OpenProjectSettingsFile,
    OpenRecent { create_new_window: bool },
    OpenSettings,
    OpenSettingsFile,
    Paste,
    Quit,
    Redo,
    ResetAllZoom { persist: bool },
    ResetBufferFontSize { persist: bool },
    Save,
    SaveAll,
    SaveAs,
    SelectAll,
    SelectAllMatches,
    SelectLargerSyntaxNode,
    SelectNext { replace_newest: bool },
    SelectNextSyntaxNode,
    SelectPrevious { replace_newest: bool },
    SelectPreviousSyntaxNode,
    SelectSmallerSyntaxNode,
    ShowAll,
    SplitDown,
    SplitLeft,
    SplitRight,
    SplitUp,
    ToggleAllDocks,
    ToggleBottomDock,
    ToggleCommandPalette,
    ToggleFileFinder,
    ToggleGoToLine,
    ToggleIconThemeSelector,
    ToggleLeftDock,
    ToggleOutline,
    ToggleOutlinePanelFocus,
    ToggleProjectPanelFocus,
    ToggleRightDock,
    ToggleThemeSelector,
    Undo,
    Zoom,
}

/// The operating system's own editing command that an entry stands for.
pub enum OsAction {
    Cut,
    Copy,
    Paste,
    SelectAll,
    Undo,
    Redo,
}

/// A menu the operating system fills.
pub enum SystemMenuType {
    Services,
}

/// A menu of the menu bar, or a submenu.
pub struct Menu {
    pub name: &'static str,
    pub items: Vec<MenuItem>,
}

/// An entry of a menu.
pub enum MenuItem {
    Separator,
    Action { name: &'static str, command: MenuCommand, os_action: Option<OsAction> },
    Submenu(Menu),
    SystemSubmenu { name: &'static str, kind: SystemMenuType },
}

impl MenuItem {
    /// An entry that runs `command`.
    pub fn action(name: &'static str, command: MenuCommand) -> (item: MenuItem)
        ensures
            item == (MenuItem::Action { name, command, os_action: None }),
    {
        MenuItem::Action { name, command, os_action: None }
    }

    /// An entry that runs `command` and stands for the system's `os_action`.
    pub fn os_action(name: &'static str, command: MenuCommand, os_action: OsAction) -> (item: MenuItem)
        ensures
            item == (MenuItem::Action { name, command, os_action: Some(os_action) }),
    {
        MenuItem::Action { name, command, os_action: Some(os_action) }
    }
}

/// What identifies an entry of a menu.
pub enum MenuItemOutline {
    Separator,
    Action(Seq<char>, MenuCommand, Option<OsAction>),
    SystemSubmenu(Seq<char>),
    /// A submenu, by its name and the entries it holds.
    Submenu(Seq<char>, Seq<MenuItemOutline>),
}

/// What identifies an entry inside a submenu.
pub open spec fn leaf_outline(item: MenuItem) -> MenuItemOutline {
    match item {
        MenuItem::Separator => MenuItemOutline::Separator,
        MenuItem::Action { name, command, os_action } => MenuItemOutline::Action(name@, command, os_action),
        MenuItem::Submenu(menu) => MenuItemOutline::Submenu(menu.name@, Seq::empty()),
        MenuItem::SystemSubmenu { name, .. } => MenuItemOutline::SystemSubmenu(name@),
    }
}

/// What identifies an entry of a menu, with the entries of a submenu.
pub open spec fn item_outline(item: MenuItem) -> MenuItemOutline {
    match item {
        MenuItem::Submenu(menu) => MenuItemOutline::Submenu(
            menu.name@,
            menu.items@.map_values(|i: MenuItem| leaf_outline(i)),
        ),
        _ => leaf_outline(item),
    }
}

/// What identifies each entry of `items`.
pub open spec fn items_outline(items: Seq<MenuItem>) -> Seq<MenuItemOutline> {
    items.map_values(|i: MenuItem| item_outline(i))
}

/// The entries of the submenu "编辑器布局".
pub open spec fn editor_layout_outline() -> Seq<MenuItemOutline> {
    seq![MenuItemOutline::Action("向上拆分"@, MenuCommand::SplitUp, None), MenuItemOutline::Action("向下拆分"@, MenuCommand::SplitDown, None), MenuItemOutline::Action("向左拆分"@, MenuCommand::SplitLeft, None), MenuItemOutline::Action("向右拆分"@, MenuCommand::SplitRight, None)]
}

fn editor_layout_menu() -> (menu: Menu)
    ensures
        menu.name@ == "编辑器布局"@,
        menu.items@.map_values(|i: MenuItem| leaf_outline(i)) == editor_layout_outline(),
{
    let mut items: Vec<MenuItem> = Vec::new();
    items.push(MenuItem::action("向上拆分", MenuCommand::SplitUp));
    items.push(MenuItem::action("向下拆分", MenuCommand::SplitDown));
    items.push(MenuItem::action("向左拆分", MenuCommand::SplitLeft));
    items.push(MenuItem::action("向右拆分", MenuCommand::SplitRight));
    assert(items@.map_values(|i: MenuItem| leaf_outline(i)) =~= editor_layout_outline());
    Menu { name: "编辑器布局", items }
}

/// The entries of the submenu "设置".
pub open spec fn settings_outline() -> Seq<MenuItemOutline> {
    seq![MenuItemOutline::Action("打开设置"@, MenuCommand::OpenSettings, None), MenuItemOutline::Action("打开设置文件"@, MenuCommand::OpenSettingsFile, None), MenuItemOutline::Action("打开项目设置"@, MenuCommand::OpenProjectSettings, None), MenuItemOutline::Action("打开项目设置文件"@, MenuCommand::OpenProjectSettingsFile, None), MenuItemOutline::Action("打开默认设置"@, MenuCommand::OpenDefaultSettings, None), MenuItemOutline::Separator, MenuItemOutline::Action("选择主题..."@, MenuCommand::ToggleThemeSelector, None), MenuItemOutline::Action("选择图标主题..."@, MenuCommand::ToggleIconThemeSelector, None)]
}

fn settings_menu() -> (menu: Menu)
    ensures
        menu.name@ == "设置"@,
        menu.items@.map_values(|i: MenuItem| leaf_outline(i)) == settings_outline(),
{
    let mut items: Vec<MenuItem> = Vec::new();
    items.push(MenuItem::action("打开设置", MenuCommand::OpenSettings));
    items.push(MenuItem::action("打开设置文件", MenuCommand::OpenSettingsFile));
    items.push(MenuItem::action("打开项目设置", MenuCommand::OpenProjectSettings));
    items.push(MenuItem::action("打开项目设置文件", MenuCommand::OpenProjectSettingsFile));
    items.push(MenuItem::action("打开默认设置", MenuCommand::OpenDefaultSettings));
    items.push(MenuItem::Separator);
    items.push(MenuItem::action("选择主题...", MenuCommand::ToggleThemeSelector));
    items.push(MenuItem::action("选择图标主题...", MenuCommand::ToggleIconThemeSelector));
    assert(items@.map_values(|i: MenuItem| leaf_outline(i)) =~= settings_outline());
    Menu { name: "设置", items }
}

/// The entries of the menu "Prism" on macOS or elsewhere.
pub open spec fn prism_menu_outline(is_macos: bool) -> Seq<MenuItemOutline> {
    seq![MenuItemOutline::Action("关于 Prism"@, MenuCommand::About, None), MenuItemOutline::Separator, MenuItemOutline::Submenu("设置"@, settings_outline()), MenuItemOutline::Separator]
        + (if is_macos { seq![MenuItemOutline::SystemSubmenu("服务"@)] } else { seq![] })
        + seq![MenuItemOutline::Separator]
        + (if is_macos { seq![MenuItemOutline::Action("隐藏 Prism"@, MenuCommand::Hide, None)] } else { seq![] })
        + (if is_macos { seq![MenuItemOutline::Action("隐藏其他应用"@, MenuCommand::HideOthers, None)] } else { seq![] })
        + (if is_macos { seq![MenuItemOutline::Action("显示全部"@, MenuCommand::ShowAll, None)] } else { seq![] })
        + seq![MenuItemOutline::Separator, MenuItemOutline::Action("退出 Prism"@, MenuCommand::Quit, None)]
}

fn prism_menu(is_macos: bool) -> (menu: Menu)
    ensures
        menu.name@ == "Prism"@,
        items_outline(menu.items@) == prism_menu_outline(is_macos),
{
    let mut items: Vec<MenuItem> = Vec::new();
    items.push(MenuItem::action("关于 Prism", MenuCommand::About));
    items.push(MenuItem::Separator);
    items.push(MenuItem::Submenu(settings_menu()));
    items.push(MenuItem::Separator);
    if is_macos {
        items.push(MenuItem::SystemSubmenu { name: "服务", kind: SystemMenuType::Services });
    }
    items.push(MenuItem::Separator);
    if is_macos {
        items.push(MenuItem::action("隐藏 Prism", MenuCommand::Hide));
    }
    if is_macos {
        items.push(MenuItem::action("隐藏其他应用", MenuCommand::HideOthers));
    }
    if is_macos {
        items.push(MenuItem::action("显示全部", MenuCommand::ShowAll));
    }
    items.push(MenuItem::Separator);
    items.push(MenuItem::action("退出 Prism", MenuCommand::Quit));
    assert(items_outline(items@) =~= prism_menu_outline(is_macos));
    Menu { name: "Prism", items }
}

/// The entries of the menu "文件" on macOS or elsewhere.
pub open spec fn file_menu_outline(is_macos: bool) -> Seq<MenuItemOutline> {
    seq![MenuItemOutline::Action("新建"@, MenuCommand::NewFile, None), MenuItemOutline::Action("新建窗口"@, MenuCommand::NewWindow, None), MenuItemOutline::Separator]
        + (if !is_macos { seq![MenuItemOutline::Action("打开文件..."@, MenuCommand::OpenFiles, None)] } else { seq![] })
        + (if !is_macos { seq![MenuItemOutline::Action("打开文件夹..."@, MenuCommand::Open, None)] } else { seq![] })
        + (if is_macos { seq![MenuItemOutline::Action("打开…"@, MenuCommand::Open, None)] } else { seq![] })
        + seq![MenuItemOutline::Action("打开最近项目..."@, MenuCommand::OpenRecent { create_new_window: false }, None), MenuItemOutline::Separator, MenuItemOutline::Action("将文件夹添加到项目…"@, MenuCommand::AddFolderToProject, None), MenuItemOutline::Separator, MenuItemOutline::Action("保存"@, MenuCommand::Save, None), MenuItemOutline::Action("另存为…"@, MenuCommand::SaveAs, None), MenuItemOutline::Action("全部保存"@, MenuCommand::SaveAll, None), MenuItemOutline::Separator, MenuItemOutline::Action("关闭编辑器"@, MenuCommand::CloseActiveItem { close_pinned: true }, None), MenuItemOutline::Action("关闭项目"@, MenuCommand::CloseProject, None), MenuItemOutline::Action("关闭窗口"@, MenuCommand::CloseWindow, None)]
}

fn file_menu(is_macos: bool) -> (menu: Menu)
    ensures
        menu.name@ == "文件"@,
        items_outline(menu.items@) == file_menu_outline(is_macos),
{
    let mut items: Vec<MenuItem> = Vec::new();
    items.push(MenuItem::action("新建", MenuCommand::NewFile));
    items.push(MenuItem::action("新建窗口", MenuCommand::NewWindow));
    items.push(MenuItem::Separator);
    if !is_macos {
        items.push(MenuItem::action("打开文件...", MenuCommand::OpenFiles));
    }
    if !is_macos {
        items.push(MenuItem::action("打开文件夹...", MenuCommand::Open));
    }
    if is_macos {
        items.push(MenuItem::action("打开…", MenuCommand::Open));
    }
    items.push(MenuItem::action("打开最近项目...", MenuCommand::OpenRecent { create_new_window: false }));
    items.push(MenuItem::Separator);
    items.push(MenuItem::action("将文件夹添加到项目…", MenuCommand::AddFolderToProject));
    items.push(MenuItem::Separator);
    items.push(MenuItem::action("保存", MenuCommand::Save));
    items.push(MenuItem::action("另存为…", MenuCommand::SaveAs));
    items.push(MenuItem::action("全部保存", MenuCommand::SaveAll));
    items.push(MenuItem::Separator);
    items.push(MenuItem::action("关闭编辑器", MenuCommand::CloseActiveItem { close_pinned: true }));
    items.push(MenuItem::action("关闭项目", MenuCommand::CloseProject));
    items.push(MenuItem::action("关闭窗口", MenuCommand::CloseWindow));
    assert(items_outline(items@) =~= file_menu_outline(is_macos));
    Menu { name: "文件", items }
}

/// The entries of the menu "编辑".
pub open spec fn edit_menu_outline() -> Seq<MenuItemOutline> {
    seq![MenuItemOutline::Action("撤销"@, MenuCommand::Undo, Some(OsAction::Undo)), MenuItemOutline::Action("重做"@, MenuCommand::Redo, Some(OsAction::Redo)), MenuItemOutline::Separator, MenuItemOutline::Action("剪切"@, MenuCommand::Cut, Some(OsAction::Cut)), MenuItemOutline::Action("复制"@, MenuCommand::Copy, Some(OsAction::Copy)), MenuItemOutline::Action("复制并裁剪"@, MenuCommand::CopyAndTrim, None), MenuItemOutline::Action("粘贴"@, MenuCommand::Paste, Some(OsAction::Paste)), MenuItemOutline::Separator, MenuItemOutline::Action("查找"@, MenuCommand::DeployBufferSearch, None), MenuItemOutline::Action("在项目中查找"@, MenuCommand::DeployProjectSearch, None)]
}

fn edit_menu() -> (menu: Menu)
    ensures
        menu.name@ == "编辑"@,
        items_outline(menu.items@) == edit_menu_outline(),
{
    let mut items: Vec<MenuItem> = Vec::new();
    items.push(MenuItem::os_action("撤销", MenuCommand::Undo, OsAction::Undo));
    items.push(MenuItem::os_action("重做", MenuCommand::Redo, OsAction::Redo));
    items.push(MenuItem::Separator);
    items.push(MenuItem::os_action("剪切", MenuCommand::Cut, OsAction::Cut));
    items.push(MenuItem::os_action("复制", MenuCommand::Copy, OsAction::Copy));
    items.push(MenuItem::action("复制并裁剪", MenuCommand::CopyAndTrim));
    items.push(MenuItem::os_action("粘贴", MenuCommand::Paste, OsAction::Paste));
    items.push(MenuItem::Separator);
    items.push(MenuItem::action("查找", MenuCommand::DeployBufferSearch));
    items.push(MenuItem::action("在项目中查找", MenuCommand::DeployProjectSearch));
    assert(items_outline(items@) =~= edit_menu_outline());
    Menu { name: "编辑", items }
}

/// The entries of the menu "选择".
pub open spec fn selection_menu_outline() -> Seq<MenuItemOutline> {
    seq![MenuItemOutline::Action("全选"@, MenuCommand::SelectAll, Some(OsAction::SelectAll)), MenuItemOutline::Action("扩大选区"@, MenuCommand::SelectLargerSyntaxNode, None), MenuItemOutline::Action("缩小选区"@, MenuCommand::SelectSmallerSyntaxNode, None), MenuItemOutline::Action("选择下一个同级节点"@, MenuCommand::SelectNextSyntaxNode, None), MenuItemOutline::Action("选择上一个同级节点"@, MenuCommand::SelectPreviousSyntaxNode, None), MenuItemOutline::Separator, MenuItemOutline::Action("在上方添加光标"@, MenuCommand::AddSelectionAbove { skip_soft_wrap: true }, None), MenuItemOutline::Action("在下方添加光标"@, MenuCommand::AddSelectionBelow { skip_soft_wrap: true }, None), MenuItemOutline::Action("选择下一个匹配项"@, MenuCommand::SelectNext { replace_newest: false }, None), MenuItemOutline::Action("选择上一个匹配项"@, MenuCommand::SelectPrevious { replace_newest: false }, None), MenuItemOutline::Action("选择所有匹配项"@, MenuCommand::SelectAllMatches, None), MenuItemOutline::Separator, MenuItemOutline::Action("上移当前行"@, MenuCommand::MoveLineUp, None), MenuItemOutline::Action("下移当前行"@, MenuCommand::MoveLineDown, None), MenuItemOutline::Action("复制选区"@, MenuCommand::DuplicateLineDown, None)]
}

fn selection_menu() -> (menu: Menu)
    ensures
        menu.name@ == "选择"@,
        items_outline(menu.items@) == selection_menu_outline(),
{
    let mut items: Vec<MenuItem> = Vec::new();
    items.push(MenuItem::os_action("全选", MenuCommand::SelectAll, OsAction::SelectAll));
    items.push(MenuItem::action("扩大选区", MenuCommand::SelectLargerSyntaxNode));
    items.push(MenuItem::action("缩小选区", MenuCommand::SelectSmallerSyntaxNode));
    items.push(MenuItem::action("选择下一个同级节点", MenuCommand::SelectNextSyntaxNode));
    items.push(MenuItem::action("选择上一个同级节点", MenuCommand::SelectPreviousSyntaxNode));
    items.push(MenuItem::Separator);
    items.push(MenuItem::action("在上方添加光标", MenuCommand::AddSelectionAbove { skip_soft_wrap: true }));
    items.push(MenuItem::action("在下方添加光标", MenuCommand::AddSelectionBelow { skip_soft_wrap: true }));
    items.push(MenuItem::action("选择下一个匹配项", MenuCommand::SelectNext { replace_newest: false }));
    items.push(MenuItem::action("选择上一个匹配项", MenuCommand::SelectPrevious { replace_newest: false }));
    items.push(MenuItem::action("选择所有匹配项", MenuCommand::SelectAllMatches));
    items.push(MenuItem::Separator);
    items.push(MenuItem::action("上移当前行", MenuCommand::MoveLineUp));
    items.push(MenuItem::action("下移当前行", MenuCommand::MoveLineDown));
    items.push(MenuItem::action("复制选区", MenuCommand::DuplicateLineDown));
    assert(items_outline(items@) =~= selection_menu_outline());
    Menu { name: "选择", items }
}

/// The entries of the menu "查看".
pub open spec fn view_menu_outline() -> Seq<MenuItemOutline> {
    seq![MenuItemOutline::Action("放大"@, MenuCommand::IncreaseBufferFontSize { persist: false }, None), MenuItemOutline::Action("缩小"@, MenuCommand::DecreaseBufferFontSize { persist: false }, None), MenuItemOutline::Action("重置缩放"@, MenuCommand::ResetBufferFontSize { persist: false }, None), MenuItemOutline::Action("重置所有缩放"@, MenuCommand::ResetAllZoom { persist: false }, None), MenuItemOutline::Separator, MenuItemOutline::Action("切换左侧停靠区"@, MenuCommand::ToggleLeftDock, None), MenuItemOutline::Action("切换右侧停靠区"@, MenuCommand::ToggleRightDock, None), MenuItemOutline::Action("切换底部停靠区"@, MenuCommand::ToggleBottomDock, None), MenuItemOutline::Action("切换全部停靠区"@, MenuCommand::ToggleAllDocks, None), MenuItemOutline::Submenu("编辑器布局"@, editor_layout_outline()), MenuItemOutline::Separator, MenuItemOutline::Action("项目面板"@, MenuCommand::ToggleProjectPanelFocus, None), MenuItemOutline::Action("大纲面板"@, MenuCommand::ToggleOutlinePanelFocus, None), MenuItemOutline::Separator, MenuItemOutline::Action("预览 Markdown"@, MenuCommand::OpenMarkdownPreview, None), MenuItemOutline::Separator]
}

fn view_menu() -> (menu: Menu)
    ensures
        menu.name@ == "查看"@,
        items_outline(menu.items@) == view_menu_outline(),
{
    let mut items: Vec<MenuItem> = Vec::new();
    items.push(MenuItem::action("放大", MenuCommand::IncreaseBufferFontSize { persist: false }));
    items.push(MenuItem::action("缩小", MenuCommand::DecreaseBufferFontSize { persist: false }));
    items.push(MenuItem::action("重置缩放", MenuCommand::ResetBufferFontSize { persist: false }));
    items.push(MenuItem::action("重置所有缩放", MenuCommand::ResetAllZoom { persist: false }));
    items.push(MenuItem::Separator);
    items.push(MenuItem::action("切换左侧停靠区", MenuCommand::ToggleLeftDock));
    items.push(MenuItem::action("切换右侧停靠区", MenuCommand::ToggleRightDock));
    items.push(MenuItem::action("切换底部停靠区", MenuCommand::ToggleBottomDock));
    items.push(MenuItem::action("切换全部停靠区", MenuCommand::ToggleAllDocks));
    items.push(MenuItem::Submenu(editor_layout_menu()));
    items.push(MenuItem::Separator);
    items.push(MenuItem::action("项目面板", MenuCommand::ToggleProjectPanelFocus));
    items.push(MenuItem::action("大纲面板", MenuCommand::ToggleOutlinePanelFocus));
    items.push(MenuItem::Separator);
    items.push(MenuItem::action("预览 Markdown", MenuCommand::OpenMarkdownPreview));
    items.push(MenuItem::Separator);
    assert(items_outline(items@) =~= view_menu_outline());
    Menu { name: "查看", items }
}

/// The entries of the menu "前往".
pub open spec fn go_menu_outline() -> Seq<MenuItemOutline> {
    seq![MenuItemOutline::Action("后退"@, MenuCommand::GoBack, None), MenuItemOutline::Action("前进"@, MenuCommand::GoForward, None), MenuItemOutline::Separator, MenuItemOutline::Action("命令面板..."@, MenuCommand::ToggleCommandPalette, None), MenuItemOutline::Separator, MenuItemOutline::Action("转到文件..."@, MenuCommand::ToggleFileFinder, None), MenuItemOutline::Action("转到编辑器内符号..."@, MenuCommand::ToggleOutline, None), MenuItemOutline::Action("转到行/列..."@, MenuCommand::ToggleGoToLine, None)]
}

fn go_menu() -> (menu: Menu)
    ensures
        menu.name@ == "前往"@,
        items_outline(menu.items@) == go_menu_outline(),
{
    let mut items: Vec<MenuItem> = Vec::new();
    items.push(MenuItem::action("后退", MenuCommand::GoBack));
    items.push(MenuItem::action("前进", MenuCommand::GoForward));
    items.push(MenuItem::Separator);
    items.push(MenuItem::action("命令面板...", MenuCommand::ToggleCommandPalette));
    items.push(MenuItem::Separator);
    items.push(MenuItem::action("转到文件...", MenuCommand::ToggleFileFinder));
    items.push(MenuItem::action("转到编辑器内符号...", MenuCommand::ToggleOutline));
    items.push(MenuItem::action("转到行/列...", MenuCommand::ToggleGoToLine));
    assert(items_outline(items@) =~= go_menu_outline());
    Menu { name: "前往", items }
}

/// The entries of the menu "窗口".
pub open spec fn window_menu_outline() -> Seq<MenuItemOutline> {
    seq![MenuItemOutline::Action("最小化"@, MenuCommand::Minimize, None), MenuItemOutline::Action("缩放"@, MenuCommand::Zoom, None), MenuItemOutline::Separator]
}

fn window_menu() -> (menu: Menu)
    ensures
        menu.name@ == "窗口"@,
        items_outline(menu.items@) == window_menu_outline(),
{
    let mut items: Vec<MenuItem> = Vec::new();
    items.push(MenuItem::action("最小化", MenuCommand::Minimize));
    items.push(MenuItem::action("缩放", MenuCommand::Zoom));
    items.push(MenuItem::Separator);
    assert(items_outline(items@) =~= window_menu_outline());
    Menu { name: "窗口", items }
}

/// The entries of the menu "帮助".
pub open spec fn help_menu_outline() -> Seq<MenuItemOutline> {
    seq![MenuItemOutline::Action("查看依赖许可证"@, MenuCommand::OpenLicenses, None), MenuItemOutline::Separator, MenuItemOutline::Action("文档"@, MenuCommand::OpenBrowser { url: "https://zed.dev/docs" }, None)]
}

fn help_menu() -> (menu: Menu)
    ensures
        menu.name@ == "帮助"@,
        items_outline(menu.items@) == help_menu_outline(),
{
    let mut items: Vec<MenuItem> = Vec::new();
    items.push(MenuItem::action("查看依赖许可证", MenuCommand::OpenLicenses));
    items.push(MenuItem::Separator);
    items.push(MenuItem::action("文档", MenuCommand::OpenBrowser { url: "https://zed.dev/docs" }));
    assert(items_outline(items@) =~= help_menu_outline());
    Menu { name: "帮助", items }
}

/// The menus of the menu bar, in order. Some entries exist only on macOS (the
/// services menu, hiding the application), one only elsewhere (opening files), and the
/// entry that opens a folder is named for the platform.
pub fn app_menus(is_macos: bool) -> (menus: Vec<Menu>)
    ensures
        menus@.len() == 8,
        menus@[0].name@ == "Prism"@,
        items_outline(menus@[0].items@) == prism_menu_outline(is_macos),
        menus@[1].name@ == "文件"@,
        items_outline(menus@[1].items@) == file_menu_outline(is_macos),
        menus@[2].name@ == "编辑"@,
        items_outline(menus@[2].items@) == edit_menu_outline(),
        menus@[3].name@ == "选择"@,
        items_outline(menus@[3].items@) == selection_menu_outline(),
        menus@[4].name@ == "查看"@,
        items_outline(menus@[4].items@) == view_menu_outline(),
        menus@[5].name@ == "前往"@,
        items_outline(menus@[5].items@) == go_menu_outline(),
        menus@[6].name@ == "窗口"@,
        items_outline(menus@[6].items@) == window_menu_outline(),
        menus@[7].name@ == "帮助"@,
        items_outline(menus@[7].items@) == help_menu_outline(),
{
    let menus = vec![
        prism_menu(is_macos),
        file_menu(is_macos),
        edit_menu(),
        selection_menu(),
        view_menu(),
        go_menu(),
        window_menu(),
        help_menu(),
    ];
    menus
}

} // verus!
