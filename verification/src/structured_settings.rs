//! Settings whose value takes one of several shapes (a fixed theme or one that follows
//! the system's appearance, an autosave mode, a shell, a working directory), and what
//! choosing a shape or editing one of its parts does to them.

use vstd::prelude::*;
use vstd::string::*;
use crate::settings_content::opt_view;
use crate::settings_page::StructuredField;

verus! {

/// Which of the light and dark themes is used.
pub enum ThemeAppearanceMode {
    Light,
    Dark,
    System,
}

/// A theme (or icon theme) choice: one fixed theme, or a light and a dark theme chosen
/// by the appearance.
pub enum ThemeSelection {
    Static(String),
    Dynamic { mode: ThemeAppearanceMode, light: String, dark: String },
}

/// The shapes of a theme choice.
pub enum SelectionVariant {
    Static,
    Dynamic,
}

/// The shape of a theme choice.
pub open spec fn selection_variant_of(selection: ThemeSelection) -> SelectionVariant {
    match selection {
        ThemeSelection::Static(_) => SelectionVariant::Static,
        ThemeSelection::Dynamic { .. } => SelectionVariant::Dynamic,
    }
}

/// A theme choice after the user picked the shape `variant` (with `default` standing
/// for an unset choice): a fixed theme keeps the theme of the current appearance mode
/// (the dark one when it follows the system); a following choice starts from the fixed
/// theme for both appearances, following the system. Picking the current shape changes
/// nothing; clearing the shape clears the choice.
pub open spec fn selection_after_variant(
    current: Option<ThemeSelection>,
    variant: Option<SelectionVariant>,
    default: ThemeSelection,
) -> Option<ThemeSelection> {
    match variant {
        None => None,
        Some(v) => {
            let base = match current {
                Some(s) => s,
                None => default,
            };
            Some(match (v, base) {
                (SelectionVariant::Static, ThemeSelection::Dynamic { mode, light, dark }) => ThemeSelection::Static(
                    match mode {
                        ThemeAppearanceMode::Light => light,
                        _ => dark,
                    },
                ),
                (SelectionVariant::Dynamic, ThemeSelection::Static(name)) => ThemeSelection::Dynamic {
                    mode: ThemeAppearanceMode::System,
                    light: name,
                    dark: name,
                },
                (_, b) => b,
            })
        },
    }
}

/// The shape of a theme choice, if one is made.
pub fn selection_variant(current: &Option<ThemeSelection>) -> (variant: Option<SelectionVariant>)
    ensures
        variant == match *current {
            Some(s) => Some(selection_variant_of(s)),
            None => None,
        },
{
    match current {
        Some(ThemeSelection::Static(_)) => Some(SelectionVariant::Static),
        Some(ThemeSelection::Dynamic { .. }) => Some(SelectionVariant::Dynamic),
        None => None,
    }
}

fn clone_mode(mode: &ThemeAppearanceMode) -> (copy: ThemeAppearanceMode)
    ensures
        copy == *mode,
{
    match mode {
        ThemeAppearanceMode::Light => ThemeAppearanceMode::Light,
        ThemeAppearanceMode::Dark => ThemeAppearanceMode::Dark,
        ThemeAppearanceMode::System => ThemeAppearanceMode::System,
    }
}

/// Picks the shape `variant` of a theme choice, as the theme and icon theme dropdowns do.
pub fn write_selection_variant(
    current: Option<ThemeSelection>,
    variant: Option<SelectionVariant>,
    default: ThemeSelection,
) -> (next: Option<ThemeSelection>)
    ensures
        next == selection_after_variant(current, variant, default),
{
    let v = match variant {
        None => return None,
        Some(v) => v,
    };
    let base = match current {
        Some(s) => s,
        None => default,
    };
    match v {
        SelectionVariant::Static => match base {
            ThemeSelection::Dynamic { mode, light, dark } => Some(ThemeSelection::Static(
                match mode {
                    ThemeAppearanceMode::Light => light,
                    _ => dark,
                },
            )),
            b => Some(b),
        },
        SelectionVariant::Dynamic => match base {
            ThemeSelection::Static(name) => Some(ThemeSelection::Dynamic {
                mode: ThemeAppearanceMode::System,
                light: name.clone(),
                dark: name,
            }),
            b => Some(b),
        },
    }
}

/// What the field of the fixed theme's name shows: the name, when the theme is fixed.
pub fn selection_static_name(current: &Option<ThemeSelection>) -> (name: Option<String>)
    ensures
        name == match *current {
            Some(ThemeSelection::Static(n)) => Some(n),
            _ => None,
        },
{
    match current {
        Some(ThemeSelection::Static(n)) => Some(n.clone()),
        _ => None,
    }
}

/// What the appearance-mode field shows: the mode, when the theme follows the appearance.
pub fn selection_mode(current: &Option<ThemeSelection>) -> (mode: Option<ThemeAppearanceMode>)
    ensures
        mode == match *current {
            Some(ThemeSelection::Dynamic { mode, .. }) => Some(mode),
            _ => None,
        },
{
    match current {
        Some(ThemeSelection::Dynamic { mode, .. }) => Some(clone_mode(mode)),
        _ => None,
    }
}

/// What the light (`dark` false) or dark (`dark` true) theme field shows, when the theme
/// follows the appearance.
pub fn selection_light_or_dark(current: &Option<ThemeSelection>, dark: bool) -> (name: Option<String>)
    ensures
        name == match *current {
            Some(ThemeSelection::Dynamic { light, dark: d, .. }) => Some(if dark { d } else { light }),
            _ => None,
        },
{
    match current {
        Some(ThemeSelection::Dynamic { light, dark: d, .. }) => Some(if dark { d.clone() } else { light.clone() }),
        _ => None,
    }
}

/// The choice a part field edits: the current one, or, when it is unset and the field
/// inserts a default (the theme's fields do, the icon theme's do not), that default.
pub open spec fn edited_selection(current: Option<ThemeSelection>, insert_default: Option<ThemeSelection>) -> Option<ThemeSelection> {
    match current {
        Some(s) => Some(s),
        None => insert_default,
    }
}

/// A theme choice after the fixed theme's name was set to `value`: only a fixed theme
/// takes it; `None` changes nothing.
pub open spec fn selection_after_static_name(
    current: Option<ThemeSelection>,
    value: Option<String>,
    insert_default: Option<ThemeSelection>,
) -> Option<ThemeSelection> {
    match value {
        None => current,
        Some(v) => match edited_selection(current, insert_default) {
            Some(ThemeSelection::Static(_)) => Some(ThemeSelection::Static(v)),
            other => other,
        },
    }
}

/// Sets the fixed theme's name, as the theme name field does.
pub fn write_selection_static_name(
    current: Option<ThemeSelection>,
    value: Option<String>,
    insert_default: Option<ThemeSelection>,
) -> (next: Option<ThemeSelection>)
    ensures
        next == selection_after_static_name(current, value, insert_default),
{
    let v = match value {
        None => return current,
        Some(v) => v,
    };
    let edited = match current {
        Some(s) => Some(s),
        None => insert_default,
    };
    match edited {
        Some(ThemeSelection::Static(_)) => Some(ThemeSelection::Static(v)),
        other => other,
    }
}

/// A theme choice after the appearance mode was set to `value`: only a following choice
/// takes it; `None` changes nothing.
pub open spec fn selection_after_mode(
    current: Option<ThemeSelection>,
    value: Option<ThemeAppearanceMode>,
    insert_default: Option<ThemeSelection>,
) -> Option<ThemeSelection> {
    match value {
        None => current,
        Some(m) => match edited_selection(current, insert_default) {
            Some(ThemeSelection::Dynamic { light, dark, .. }) => Some(ThemeSelection::Dynamic { mode: m, light, dark }),
            other => other,
        },
    }
}

/// Sets the appearance mode, as the mode field does.
pub fn write_selection_mode(
    current: Option<ThemeSelection>,
    value: Option<ThemeAppearanceMode>,
    insert_default: Option<ThemeSelection>,
) -> (next: Option<ThemeSelection>)
    ensures
        next == selection_after_mode(current, value, insert_default),
{
    let m = match value {
        None => return current,
        Some(m) => m,
    };
    let edited = match current {
        Some(s) => Some(s),
        None => insert_default,
    };
    match edited {
        Some(ThemeSelection::Dynamic { light, dark, .. }) => Some(ThemeSelection::Dynamic { mode: m, light, dark }),
        other => other,
    }
}

/// A theme choice after its light (`dark` false) or dark (`dark` true) theme was set to
/// `value`: only a following choice takes it; `None` changes nothing.
pub open spec fn selection_after_light_or_dark(
    current: Option<ThemeSelection>,
    dark: bool,
    value: Option<String>,
    insert_default: Option<ThemeSelection>,
) -> Option<ThemeSelection> {
    match value {
        None => current,
        Some(v) => match edited_selection(current, insert_default) {
            Some(ThemeSelection::Dynamic { mode, light, dark: d }) => Some(if dark {
                ThemeSelection::Dynamic { mode, light, dark: v }
            } else {
                ThemeSelection::Dynamic { mode, light: v, dark: d }
            }),
            other => other,
        },
    }
}

/// Sets the light or dark theme, as the light and dark theme fields do.
pub fn write_selection_light_or_dark(
    current: Option<ThemeSelection>,
    dark: bool,
    value: Option<String>,
    insert_default: Option<ThemeSelection>,
) -> (next: Option<ThemeSelection>)
    ensures
        next == selection_after_light_or_dark(current, dark, value, insert_default),
{
    let v = match value {
        None => return current,
        Some(v) => v,
    };
    let edited = match current {
        Some(s) => Some(s),
        None => insert_default,
    };
    match edited {
        Some(ThemeSelection::Dynamic { mode, light, dark: d }) => Some(if dark {
            ThemeSelection::Dynamic { mode, light, dark: v }
        } else {
            ThemeSelection::Dynamic { mode, light: v, dark: d }
        }),
        other => other,
    }
}

/// Switching a theme choice to the other shape and back keeps a fixed theme: it comes
/// back as the same fixed theme.
pub proof fn law_static_theme_round_trip(name: String, default: ThemeSelection)
    ensures
        selection_after_variant(
            selection_after_variant(Some(ThemeSelection::Static(name)), Some(SelectionVariant::Dynamic), default),
            Some(SelectionVariant::Static),
            default,
        ) == Some(ThemeSelection::Static(name)),
{
}

/// Picking the shape a theme choice already has changes nothing.
pub proof fn law_same_variant_keeps_selection(selection: ThemeSelection, default: ThemeSelection)
    ensures
        selection_after_variant(Some(selection), Some(selection_variant_of(selection)), default) == Some(selection),
{
}

/// When buffers are saved automatically.
pub enum AutosaveSetting {
    Off,
    AfterDelay { milliseconds: u64 },
    OnFocusChange,
    OnWindowChange,
}

/// The shapes of the autosave setting.
pub enum AutosaveVariant {
    Off,
    AfterDelay,
    OnFocusChange,
    OnWindowChange,
}

/// The delay a newly chosen "after delay" autosave starts with.
pub const DEFAULT_AUTOSAVE_DELAY_MS: u64 = 1000;

/// The autosave setting after the user picked the shape `variant`: an unset setting
/// counts as off; choosing "after delay" keeps a delay already set, or starts with one
/// second. Clearing the shape clears the setting.
pub open spec fn autosave_after_variant(current: Option<AutosaveSetting>, variant: Option<AutosaveVariant>) -> Option<AutosaveSetting> {
    match variant {
        None => None,
        Some(AutosaveVariant::Off) => Some(AutosaveSetting::Off),
        Some(AutosaveVariant::AfterDelay) => Some(AutosaveSetting::AfterDelay {
            milliseconds: match current {
                Some(AutosaveSetting::AfterDelay { milliseconds }) => milliseconds,
                _ => DEFAULT_AUTOSAVE_DELAY_MS,
            },
        }),
        Some(AutosaveVariant::OnFocusChange) => Some(AutosaveSetting::OnFocusChange),
        Some(AutosaveVariant::OnWindowChange) => Some(AutosaveSetting::OnWindowChange),
    }
}

/// The shape of the autosave setting, if it is set.
pub fn autosave_variant(current: &Option<AutosaveSetting>) -> (variant: Option<AutosaveVariant>)
    ensures
        variant == match *current {
            Some(AutosaveSetting::Off) => Some(AutosaveVariant::Off),
            Some(AutosaveSetting::AfterDelay { .. }) => Some(AutosaveVariant::AfterDelay),
            Some(AutosaveSetting::OnFocusChange) => Some(AutosaveVariant::OnFocusChange),
            Some(AutosaveSetting::OnWindowChange) => Some(AutosaveVariant::OnWindowChange),
            None => None,
        },
{
    match current {
        Some(AutosaveSetting::Off) => Some(AutosaveVariant::Off),
        Some(AutosaveSetting::AfterDelay { .. }) => Some(AutosaveVariant::AfterDelay),
        Some(AutosaveSetting::OnFocusChange) => Some(AutosaveVariant::OnFocusChange),
        Some(AutosaveSetting::OnWindowChange) => Some(AutosaveVariant::OnWindowChange),
        None => None,
    }
}

/// Picks the shape of the autosave setting, as the autosave dropdown does.
pub fn write_autosave_variant(current: Option<AutosaveSetting>, variant: Option<AutosaveVariant>) -> (next: Option<AutosaveSetting>)
    ensures
        next == autosave_after_variant(current, variant),
{
    match variant {
        None => None,
        Some(AutosaveVariant::Off) => Some(AutosaveSetting::Off),
        Some(AutosaveVariant::AfterDelay) => Some(AutosaveSetting::AfterDelay {
            milliseconds: match current {
                Some(AutosaveSetting::AfterDelay { milliseconds }) => milliseconds,
                _ => DEFAULT_AUTOSAVE_DELAY_MS,
            },
        }),
        Some(AutosaveVariant::OnFocusChange) => Some(AutosaveSetting::OnFocusChange),
        Some(AutosaveVariant::OnWindowChange) => Some(AutosaveSetting::OnWindowChange),
    }
}

/// What the delay field shows: the delay, when autosave waits for one.
pub fn autosave_delay(current: &Option<AutosaveSetting>) -> (delay: Option<u64>)
    ensures
        delay == match *current {
            Some(AutosaveSetting::AfterDelay { milliseconds }) => Some(milliseconds),
            _ => None,
        },
{
    match current {
        Some(AutosaveSetting::AfterDelay { milliseconds }) => Some(*milliseconds),
        _ => None,
    }
}

/// The autosave setting after its delay was set to `value` (see `write_autosave_delay`).
pub open spec fn autosave_after_delay(current: Option<AutosaveSetting>, value: Option<u64>) -> Option<AutosaveSetting> {
    match value {
        None => None,
        Some(ms) => match current {
            Some(AutosaveSetting::AfterDelay { .. }) => Some(AutosaveSetting::AfterDelay { milliseconds: ms }),
            other => other,
        },
    }
}

/// Sets the autosave delay, as the delay field does: clearing the field clears the whole
/// autosave setting; a delay is taken only by an "after delay" autosave.
pub fn write_autosave_delay(current: Option<AutosaveSetting>, value: Option<u64>) -> (next: Option<AutosaveSetting>)
    ensures
        next == autosave_after_delay(current, value),

{
    match value {
        None => None,
        Some(ms) => match current {
            Some(AutosaveSetting::AfterDelay { .. }) => Some(AutosaveSetting::AfterDelay { milliseconds: ms }),
            other => other,
        },
    }
}

/// Choosing "after delay" again keeps the delay that was set.
pub proof fn law_autosave_keeps_delay(milliseconds: u64)
    ensures
        autosave_after_variant(Some(AutosaveSetting::AfterDelay { milliseconds }), Some(AutosaveVariant::AfterDelay))
            == Some(AutosaveSetting::AfterDelay { milliseconds }),
{
}

/// The shell the terminal runs.
pub enum Shell {
    /// The user's login shell.
    System,
    Program(String),
    WithArguments { program: String, args: Vec<String>, title_override: Option<String> },
}

/// The shapes of the shell setting.
pub enum ShellVariant {
    System,
    Program,
    WithArguments,
}

/// The shell program used when a program must be named and none was: PowerShell on
/// Windows, `sh` elsewhere.
pub open spec fn default_shell_program(is_windows: bool) -> Seq<char> {
    if is_windows { "powershell.exe"@ } else { "sh"@ }
}

/// The shape of the shell setting, if set.
pub fn shell_variant(current: &Option<Shell>) -> (variant: Option<ShellVariant>)
    ensures
        variant == match *current {
            Some(Shell::System) => Some(ShellVariant::System),
            Some(Shell::Program(_)) => Some(ShellVariant::Program),
            Some(Shell::WithArguments { .. }) => Some(ShellVariant::WithArguments),
            None => None,
        },
{
    match current {
        Some(Shell::System) => Some(ShellVariant::System),
        Some(Shell::Program(_)) => Some(ShellVariant::Program),
        Some(Shell::WithArguments { .. }) => Some(ShellVariant::WithArguments),
        None => None,
    }
}

/// Whether `next` is the shell after the user picked the shape `variant` of `current`
/// (see `write_shell_variant`).
pub open spec fn shell_after_variant(current: Option<Shell>, variant: Option<ShellVariant>, is_windows: bool, next: Option<Shell>) -> bool {
    match variant {
        None => next is None,
        Some(ShellVariant::System) => next == Some(Shell::System),
        Some(ShellVariant::Program) => next matches Some(Shell::Program(p)) && p@ == match current {
            Some(Shell::Program(q)) => q@,
            Some(Shell::WithArguments { program, .. }) => program@,
            _ => default_shell_program(is_windows),
        },
        Some(ShellVariant::WithArguments) => next matches Some(Shell::WithArguments { program, args, title_override })
            && match current {
                Some(Shell::Program(q)) => program@ == q@ && args@.len() == 0 && title_override is None,
                Some(Shell::WithArguments { program: q, args: a, title_override: t }) => program@ == q@
                    && args == a && title_override == t,
                _ => program@ == default_shell_program(is_windows) && args@.len() == 0 && title_override is None,
            },
    }
}

/// Picks the shape of the shell setting, as the shell dropdown does: the program and
/// its arguments carry over between shapes that have them; a program that must be named
/// and was not is the platform's default shell (an unset shell counts as the system
/// shell). Clearing the shape clears the setting.
pub fn write_shell_variant(current: Option<Shell>, variant: Option<ShellVariant>, is_windows: bool) -> (next: Option<Shell>)
    ensures
        shell_after_variant(current, variant, is_windows, next),

{
    let v = match variant {
        None => return None,
        Some(v) => v,
    };
    let default_shell = if is_windows { "powershell.exe" } else { "sh" };
    match v {
        ShellVariant::System => Some(Shell::System),
        ShellVariant::Program => {
            let program = match current {
                Some(Shell::Program(p)) => p,
                Some(Shell::WithArguments { program, .. }) => program,
                _ => String::from_str(default_shell),
            };
            Some(Shell::Program(program))
        },
        ShellVariant::WithArguments => {
            let (program, args, title_override) = match current {
                Some(Shell::Program(p)) => (p, Vec::new(), None),
                Some(Shell::WithArguments { program, args, title_override }) => (program, args, title_override),
                _ => (String::from_str(default_shell), Vec::new(), None),
            };
            Some(Shell::WithArguments { program, args, title_override })
        },
    }
}

/// Which part of a shell a field edits.
pub enum ShellPart {
    /// The program of a plain program shell.
    Program,
    /// The program of a shell with arguments.
    ArgumentsProgram,
    /// The title that replaces the program's name on the terminal tab.
    TitleOverride,
}

/// What a text part field of the shell shows: the part, when the shell has that shape;
/// an unset title override shows as empty.
pub open spec fn shell_part_text(current: Option<Shell>, part: ShellPart) -> Option<Seq<char>> {
    match (current, part) {
        (Some(Shell::Program(p)), ShellPart::Program) => Some(p@),
        (Some(Shell::WithArguments { program, .. }), ShellPart::ArgumentsProgram) => Some(program@),
        (Some(Shell::WithArguments { title_override, .. }), ShellPart::TitleOverride) => match title_override {
            Some(t) => Some(t@),
            None => Some(Seq::empty()),
        },
        _ => None,
    }
}

/// What a text part field of the shell shows.
pub fn shell_text_part(current: &Option<Shell>, part: ShellPart) -> (text: Option<String>)
    ensures
        opt_view(text) == shell_part_text(*current, part),
{
    match (current, part) {
        (Some(Shell::Program(p)), ShellPart::Program) => Some(p.clone()),
        (Some(Shell::WithArguments { program, .. }), ShellPart::ArgumentsProgram) => Some(program.clone()),
        (Some(Shell::WithArguments { title_override, .. }), ShellPart::TitleOverride) => match title_override {
            Some(t) => Some(t.clone()),
            None => Some(String::new()),
        },
        _ => None,
    }
}

/// What the arguments field shows, when the shell takes arguments.
pub fn shell_args(current: &Option<Shell>) -> (args: Option<Vec<String>>)
    ensures
        match *current {
            Some(Shell::WithArguments { args: a, .. }) => args matches Some(b) && b@ == a@,
            _ => args is None,
        },
{
    match current {
        Some(Shell::WithArguments { args, .. }) => Some(args.clone()),
        _ => None,
    }
}

/// A shell after a text part was edited to `value`: a program part is taken only by a
/// shell of that shape, and `None` leaves it alone; the title override is set (cleared
/// when `value` is empty or `None`) on a shell with arguments.
pub open spec fn shell_after_text_part(current: Option<Shell>, part: ShellPart, value: Option<String>) -> Option<Shell> {
    match part {
        ShellPart::Program => match (value, current) {
            (Some(v), Some(Shell::Program(_))) => Some(Shell::Program(v)),
            _ => current,
        },
        ShellPart::ArgumentsProgram => match (value, current) {
            (Some(v), Some(Shell::WithArguments { args, title_override, .. })) => Some(Shell::WithArguments {
                program: v,
                args,
                title_override,
            }),
            _ => current,
        },
        ShellPart::TitleOverride => match current {
            Some(Shell::WithArguments { program, args, .. }) => Some(Shell::WithArguments {
                program,
                args,
                title_override: match value {
                    Some(v) => if v@.len() > 0 { Some(v) } else { None },
                    None => None,
                },
            }),
            _ => current,
        },
    }
}

/// Edits a text part of the shell, as the program and title fields do.
pub fn write_shell_text_part(current: Option<Shell>, part: ShellPart, value: Option<String>) -> (next: Option<Shell>)
    ensures
        next == shell_after_text_part(current, part, value),
{
    match part {
        ShellPart::Program => match (value, current) {
            (Some(v), Some(Shell::Program(_))) => Some(Shell::Program(v)),
            (_, current) => current,
        },
        ShellPart::ArgumentsProgram => match (value, current) {
            (Some(v), Some(Shell::WithArguments { args, title_override, .. })) => Some(Shell::WithArguments {
                program: v,
                args,
                title_override,
            }),
            (_, current) => current,
        },
        ShellPart::TitleOverride => match current {
            Some(Shell::WithArguments { program, args, .. }) => {
                let title_override = match value {
                    Some(v) => if v.unicode_len() > 0 { Some(v) } else { None },
                    None => None,
                };
                Some(Shell::WithArguments { program, args, title_override })
            },
            current => current,
        },
    }
}

/// The shell after its arguments were set to `value` (see `write_shell_args`).
pub open spec fn shell_after_args(current: Option<Shell>, value: Option<Vec<String>>) -> Option<Shell> {
    match (value, current) {
        (Some(v), Some(Shell::WithArguments { program, title_override, .. })) => Some(Shell::WithArguments {
            program,
            args: v,
            title_override,
        }),
        _ => current,
    }
}

/// Sets the arguments of a shell that takes arguments; `None` leaves the shell alone.
pub fn write_shell_args(current: Option<Shell>, value: Option<Vec<String>>) -> (next: Option<Shell>)
    ensures
        next == shell_after_args(current, value),

{
    match (value, current) {
        (Some(v), Some(Shell::WithArguments { program, title_override, .. })) => Some(Shell::WithArguments {
            program,
            args: v,
            title_override,
        }),
        (_, current) => current,
    }
}

/// The directory the terminal starts in.
pub enum WorkingDirectory {
    CurrentFileDirectory,
    CurrentProjectDirectory,
    FirstProjectDirectory,
    AlwaysHome,
    Always { directory: String },
}

/// The shapes of the working directory setting.
pub enum WorkingDirectoryVariant {
    CurrentFileDirectory,
    CurrentProjectDirectory,
    FirstProjectDirectory,
    AlwaysHome,
    Always,
}

/// The shape of the working directory setting, if set.
pub fn working_directory_variant(current: &Option<WorkingDirectory>) -> (variant: Option<WorkingDirectoryVariant>)
    ensures
        variant == match *current {
            Some(WorkingDirectory::CurrentFileDirectory) => Some(WorkingDirectoryVariant::CurrentFileDirectory),
            Some(WorkingDirectory::CurrentProjectDirectory) => Some(WorkingDirectoryVariant::CurrentProjectDirectory),
            Some(WorkingDirectory::FirstProjectDirectory) => Some(WorkingDirectoryVariant::FirstProjectDirectory),
            Some(WorkingDirectory::AlwaysHome) => Some(WorkingDirectoryVariant::AlwaysHome),
            Some(WorkingDirectory::Always { .. }) => Some(WorkingDirectoryVariant::Always),
            None => None,
        },
{
    match current {
        Some(WorkingDirectory::CurrentFileDirectory) => Some(WorkingDirectoryVariant::CurrentFileDirectory),
        Some(WorkingDirectory::CurrentProjectDirectory) => Some(WorkingDirectoryVariant::CurrentProjectDirectory),
        Some(WorkingDirectory::FirstProjectDirectory) => Some(WorkingDirectoryVariant::FirstProjectDirectory),
        Some(WorkingDirectory::AlwaysHome) => Some(WorkingDirectoryVariant::AlwaysHome),
        Some(WorkingDirectory::Always { .. }) => Some(WorkingDirectoryVariant::Always),
        None => None,
    }
}

/// Whether `next` is the working directory after the user picked the shape `variant` of
/// `current` (see `write_working_directory_variant`).
pub open spec fn working_directory_after_variant(current: Option<WorkingDirectory>, variant: Option<WorkingDirectoryVariant>, next: Option<WorkingDirectory>) -> bool {
    match variant {
        None => next is None,
        Some(WorkingDirectoryVariant::CurrentFileDirectory) => next == Some(WorkingDirectory::CurrentFileDirectory),
        Some(WorkingDirectoryVariant::CurrentProjectDirectory) => next == Some(WorkingDirectory::CurrentProjectDirectory),
        Some(WorkingDirectoryVariant::FirstProjectDirectory) => next == Some(WorkingDirectory::FirstProjectDirectory),
        Some(WorkingDirectoryVariant::AlwaysHome) => next == Some(WorkingDirectory::AlwaysHome),
        Some(WorkingDirectoryVariant::Always) => next matches Some(WorkingDirectory::Always { directory })
            && directory@ == match current {
                Some(WorkingDirectory::Always { directory: d }) => d@,
                _ => Seq::<char>::empty(),
            },
    }
}

/// Picks the shape of the working directory setting, as its dropdown does: a fixed
/// directory already chosen is kept when "always" is picked again, and otherwise starts
/// empty. Clearing the shape clears the setting.
pub fn write_working_directory_variant(
    current: Option<WorkingDirectory>,
    variant: Option<WorkingDirectoryVariant>,
) -> (next: Option<WorkingDirectory>)
    ensures
        working_directory_after_variant(current, variant, next),

{
    match variant {
        None => None,
        Some(WorkingDirectoryVariant::CurrentFileDirectory) => Some(WorkingDirectory::CurrentFileDirectory),
        Some(WorkingDirectoryVariant::CurrentProjectDirectory) => Some(WorkingDirectory::CurrentProjectDirectory),
        Some(WorkingDirectoryVariant::FirstProjectDirectory) => Some(WorkingDirectory::FirstProjectDirectory),
        Some(WorkingDirectoryVariant::AlwaysHome) => Some(WorkingDirectory::AlwaysHome),
        Some(WorkingDirectoryVariant::Always) => match current {
            Some(WorkingDirectory::Always { directory }) => Some(WorkingDirectory::Always { directory }),
            _ => Some(WorkingDirectory::Always { directory: String::new() }),
        },
    }
}

/// What the directory field shows, when the terminal always starts in one directory.
pub fn working_directory_path(current: &Option<WorkingDirectory>) -> (directory: Option<String>)
    ensures
        directory == match *current {
            Some(WorkingDirectory::Always { directory }) => Some(directory),
            _ => None,
        },
{
    match current {
        Some(WorkingDirectory::Always { directory }) => Some(directory.clone()),
        _ => None,
    }
}

/// Whether `next` is the working directory after its fixed directory was set to `value`
/// (see `write_working_directory_path`).
pub open spec fn working_directory_after_path(current: Option<WorkingDirectory>, value: Option<String>, next: Option<WorkingDirectory>) -> bool {
    match current {
        Some(WorkingDirectory::Always { .. }) => next matches Some(WorkingDirectory::Always { directory }) && directory@
            == match value {
                Some(v) => v@,
                None => Seq::<char>::empty(),
            },
        _ => next == current,
    }
}

/// Sets the fixed directory (clearing the field sets it empty); only an "always"
/// working directory takes it.
pub fn write_working_directory_path(current: Option<WorkingDirectory>, value: Option<String>) -> (next: Option<WorkingDirectory>)
    ensures
        working_directory_after_path(current, value, next),

{
    let value = match value {
        Some(v) => v,
        None => String::new(),
    };
    match current {
        Some(WorkingDirectory::Always { .. }) => Some(WorkingDirectory::Always { directory: value }),
        current => current,
    }
}

/// The settings that take one of several shapes, as a settings file holds them (the
/// buffer line height, whose custom value is a floating-point number, is kept apart).
pub struct StructuredSettings {
    pub theme: Option<ThemeSelection>,
    pub icon_theme: Option<ThemeSelection>,
    pub autosave: Option<AutosaveSetting>,
    pub shell: Option<Shell>,
    pub working_directory: Option<WorkingDirectory>,
}

/// What stands for an unset theme and icon theme when a shape is picked for them: the
/// settings' default theme, and a fixed default icon theme.
pub struct StructuredDefaults {
    pub theme: ThemeSelection,
    pub icon_theme: ThemeSelection,
}

/// A value that a field of a structured setting shows or is given.
pub enum StructuredValue {
    SelectionVariant(SelectionVariant),
    Mode(ThemeAppearanceMode),
    Text(String),
    AutosaveVariant(AutosaveVariant),
    Delay(u64),
    ShellVariant(ShellVariant),
    Arguments(Vec<String>),
    WorkingDirectoryVariant(WorkingDirectoryVariant),
}

/// `value` as a shape of a theme choice: `Some(None)` clears, `None` when it is another
/// kind of value.
pub open spec fn as_selection_variant(value: Option<StructuredValue>) -> Option<Option<SelectionVariant>> {
    match value {
        None => Some(None),
        Some(StructuredValue::SelectionVariant(v)) => Some(Some(v)),
        _ => None,
    }
}

pub open spec fn as_mode(value: Option<StructuredValue>) -> Option<Option<ThemeAppearanceMode>> {
    match value {
        None => Some(None),
        Some(StructuredValue::Mode(v)) => Some(Some(v)),
        _ => None,
    }
}

pub open spec fn as_text(value: Option<StructuredValue>) -> Option<Option<String>> {
    match value {
        None => Some(None),
        Some(StructuredValue::Text(v)) => Some(Some(v)),
        _ => None,
    }
}

pub open spec fn as_autosave_variant(value: Option<StructuredValue>) -> Option<Option<AutosaveVariant>> {
    match value {
        None => Some(None),
        Some(StructuredValue::AutosaveVariant(v)) => Some(Some(v)),
        _ => None,
    }
}

pub open spec fn as_delay(value: Option<StructuredValue>) -> Option<Option<u64>> {
    match value {
        None => Some(None),
        Some(StructuredValue::Delay(v)) => Some(Some(v)),
        _ => None,
    }
}

pub open spec fn as_shell_variant(value: Option<StructuredValue>) -> Option<Option<ShellVariant>> {
    match value {
        None => Some(None),
        Some(StructuredValue::ShellVariant(v)) => Some(Some(v)),
        _ => None,
    }
}

pub open spec fn as_arguments(value: Option<StructuredValue>) -> Option<Option<Vec<String>>> {
    match value {
        None => Some(None),
        Some(StructuredValue::Arguments(v)) => Some(Some(v)),
        _ => None,
    }
}

pub open spec fn as_working_directory_variant(value: Option<StructuredValue>) -> Option<Option<WorkingDirectoryVariant>> {
    match value {
        None => Some(None),
        Some(StructuredValue::WorkingDirectoryVariant(v)) => Some(Some(v)),
        _ => None,
    }
}

/// Whether `next` is what writing `value` through `field` makes of `settings`: each field
/// edits its setting as its own function says (the theme's part fields insert the default
/// theme into an unset theme, the icon theme's do not), and leaves the other settings as
/// they are. A value of another kind than the field takes, and the buffer line height's
/// fields, change nothing.
pub open spec fn structured_written(
    settings: StructuredSettings,
    field: StructuredField,
    value: Option<StructuredValue>,
    defaults: StructuredDefaults,
    is_windows: bool,
    next: StructuredSettings,
) -> bool {
    match field {
        StructuredField::ThemeVariant => match as_selection_variant(value) {
            Some(v) => next == StructuredSettings { theme: selection_after_variant(settings.theme, v, defaults.theme), ..settings },
            None => next == settings,
        },
        StructuredField::ThemeName => match as_text(value) {
            Some(v) => next == StructuredSettings { theme: selection_after_static_name(settings.theme, v, Some(defaults.theme)), ..settings },
            None => next == settings,
        },
        StructuredField::ThemeMode => match as_mode(value) {
            Some(v) => next == StructuredSettings { theme: selection_after_mode(settings.theme, v, Some(defaults.theme)), ..settings },
            None => next == settings,
        },
        StructuredField::ThemeLight => match as_text(value) {
            Some(v) => next == StructuredSettings { theme: selection_after_light_or_dark(settings.theme, false, v, Some(defaults.theme)), ..settings },
            None => next == settings,
        },
        StructuredField::ThemeDark => match as_text(value) {
            Some(v) => next == StructuredSettings { theme: selection_after_light_or_dark(settings.theme, true, v, Some(defaults.theme)), ..settings },
            None => next == settings,
        },
        StructuredField::IconThemeVariant => match as_selection_variant(value) {
            Some(v) => next == StructuredSettings { icon_theme: selection_after_variant(settings.icon_theme, v, defaults.icon_theme), ..settings },
            None => next == settings,
        },
        StructuredField::IconThemeName => match as_text(value) {
            Some(v) => next == StructuredSettings { icon_theme: selection_after_static_name(settings.icon_theme, v, None), ..settings },
            None => next == settings,
        },
        StructuredField::IconThemeMode => match as_mode(value) {
            Some(v) => next == StructuredSettings { icon_theme: selection_after_mode(settings.icon_theme, v, None), ..settings },
            None => next == settings,
        },
        StructuredField::IconThemeLight => match as_text(value) {
            Some(v) => next == StructuredSettings { icon_theme: selection_after_light_or_dark(settings.icon_theme, false, v, None), ..settings },
            None => next == settings,
        },
        StructuredField::IconThemeDark => match as_text(value) {
            Some(v) => next == StructuredSettings { icon_theme: selection_after_light_or_dark(settings.icon_theme, true, v, None), ..settings },
            None => next == settings,
        },
        StructuredField::BufferLineHeightVariant => next == settings,
        StructuredField::BufferLineHeightCustom => next == settings,
        StructuredField::AutosaveVariant => match as_autosave_variant(value) {
            Some(v) => next == StructuredSettings { autosave: autosave_after_variant(settings.autosave, v), ..settings },
            None => next == settings,
        },
        StructuredField::AutosaveDelay => match as_delay(value) {
            Some(v) => next == StructuredSettings { autosave: autosave_after_delay(settings.autosave, v), ..settings },
            None => next == settings,
        },
        StructuredField::ShellVariant => match as_shell_variant(value) {
            Some(v) => shell_after_variant(settings.shell, v, is_windows, next.shell)
                && next == StructuredSettings { shell: next.shell, ..settings },
            None => next == settings,
        },
        StructuredField::ShellProgram => match as_text(value) {
            Some(v) => next == StructuredSettings { shell: shell_after_text_part(settings.shell, ShellPart::Program, v), ..settings },
            None => next == settings,
        },
        StructuredField::ShellArgumentsProgram => match as_text(value) {
            Some(v) => next == StructuredSettings { shell: shell_after_text_part(settings.shell, ShellPart::ArgumentsProgram, v), ..settings },
            None => next == settings,
        },
        StructuredField::ShellArguments => match as_arguments(value) {
            Some(v) => next == StructuredSettings { shell: shell_after_args(settings.shell, v), ..settings },
            None => next == settings,
        },
        StructuredField::ShellTitleOverride => match as_text(value) {
            Some(v) => next == StructuredSettings { shell: shell_after_text_part(settings.shell, ShellPart::TitleOverride, v), ..settings },
            None => next == settings,
        },
        StructuredField::WorkingDirectoryVariant => match as_working_directory_variant(value) {
            Some(v) => working_directory_after_variant(settings.working_directory, v, next.working_directory)
                && next == StructuredSettings { working_directory: next.working_directory, ..settings },
            None => next == settings,
        },
        StructuredField::WorkingDirectoryPath => match as_text(value) {
            Some(v) => working_directory_after_path(settings.working_directory, v, next.working_directory)
                && next == StructuredSettings { working_directory: next.working_directory, ..settings },
            None => next == settings,
        },
    }
}

/// Writes `value` through the field `field` of a settings page, as the page does when the
/// user changes it (see `structured_written`; `is_windows` picks the default shell).
pub fn write_structured(
    settings: StructuredSettings,
    field: StructuredField,
    value: Option<StructuredValue>,
    defaults: StructuredDefaults,
    is_windows: bool,
) -> (next: StructuredSettings)
    ensures
        structured_written(settings, field, value, defaults, is_windows, next),
{
    let StructuredSettings { theme, icon_theme, autosave, shell, working_directory } = settings;
    let StructuredDefaults { theme: theme_default, icon_theme: icon_default } = defaults;
    match field {
        StructuredField::ThemeVariant => match value {
            None => StructuredSettings { theme: write_selection_variant(theme, None, theme_default), icon_theme, autosave, shell, working_directory },
            Some(StructuredValue::SelectionVariant(v)) => StructuredSettings {
                theme: write_selection_variant(theme, Some(v), theme_default), icon_theme, autosave, shell, working_directory,
            },
            Some(_) => StructuredSettings { theme, icon_theme, autosave, shell, working_directory },
        },
        StructuredField::ThemeName => match value {
            None => StructuredSettings { theme: write_selection_static_name(theme, None, Some(theme_default)), icon_theme, autosave, shell, working_directory },
            Some(StructuredValue::Text(v)) => StructuredSettings {
                theme: write_selection_static_name(theme, Some(v), Some(theme_default)), icon_theme, autosave, shell, working_directory,
            },
            Some(_) => StructuredSettings { theme, icon_theme, autosave, shell, working_directory },
        },
        StructuredField::ThemeMode => match value {
            None => StructuredSettings { theme: write_selection_mode(theme, None, Some(theme_default)), icon_theme, autosave, shell, working_directory },
            Some(StructuredValue::Mode(v)) => StructuredSettings {
                theme: write_selection_mode(theme, Some(v), Some(theme_default)), icon_theme, autosave, shell, working_directory,
            },
            Some(_) => StructuredSettings { theme, icon_theme, autosave, shell, working_directory },
        },
        StructuredField::ThemeLight | StructuredField::ThemeDark => {
            let dark = match field {
                StructuredField::ThemeDark => true,
                _ => false,
            };
            match value {
                None => StructuredSettings {
                    theme: write_selection_light_or_dark(theme, dark, None, Some(theme_default)), icon_theme, autosave, shell, working_directory,
                },
                Some(StructuredValue::Text(v)) => StructuredSettings {
                    theme: write_selection_light_or_dark(theme, dark, Some(v), Some(theme_default)), icon_theme, autosave, shell, working_directory,
                },
                Some(_) => StructuredSettings { theme, icon_theme, autosave, shell, working_directory },
            }
        },
        StructuredField::IconThemeVariant => match value {
            None => StructuredSettings { theme, icon_theme: write_selection_variant(icon_theme, None, icon_default), autosave, shell, working_directory },
            Some(StructuredValue::SelectionVariant(v)) => StructuredSettings {
                theme, icon_theme: write_selection_variant(icon_theme, Some(v), icon_default), autosave, shell, working_directory,
            },
            Some(_) => StructuredSettings { theme, icon_theme, autosave, shell, working_directory },
        },
        StructuredField::IconThemeName => match value {
            None => StructuredSettings { theme, icon_theme: write_selection_static_name(icon_theme, None, None), autosave, shell, working_directory },
            Some(StructuredValue::Text(v)) => StructuredSettings {
                theme, icon_theme: write_selection_static_name(icon_theme, Some(v), None), autosave, shell, working_directory,
            },
            Some(_) => StructuredSettings { theme, icon_theme, autosave, shell, working_directory },
        },
        StructuredField::IconThemeMode => match value {
            None => StructuredSettings { theme, icon_theme: write_selection_mode(icon_theme, None, None), autosave, shell, working_directory },
            Some(StructuredValue::Mode(v)) => StructuredSettings {
                theme, icon_theme: write_selection_mode(icon_theme, Some(v), None), autosave, shell, working_directory,
            },
            Some(_) => StructuredSettings { theme, icon_theme, autosave, shell, working_directory },
        },
        StructuredField::IconThemeLight | StructuredField::IconThemeDark => {
            let dark = match field {
                StructuredField::IconThemeDark => true,
                _ => false,
            };
            match value {
                None => StructuredSettings {
                    theme, icon_theme: write_selection_light_or_dark(icon_theme, dark, None, None), autosave, shell, working_directory,
                },
                Some(StructuredValue::Text(v)) => StructuredSettings {
                    theme, icon_theme: write_selection_light_or_dark(icon_theme, dark, Some(v), None), autosave, shell, working_directory,
                },
                Some(_) => StructuredSettings { theme, icon_theme, autosave, shell, working_directory },
            }
        },
        StructuredField::BufferLineHeightVariant | StructuredField::BufferLineHeightCustom => StructuredSettings {
            theme, icon_theme, autosave, shell, working_directory,
        },
        StructuredField::AutosaveVariant => match value {
            None => StructuredSettings { theme, icon_theme, autosave: write_autosave_variant(autosave, None), shell, working_directory },
            Some(StructuredValue::AutosaveVariant(v)) => StructuredSettings {
                theme, icon_theme, autosave: write_autosave_variant(autosave, Some(v)), shell, working_directory,
            },
            Some(_) => StructuredSettings { theme, icon_theme, autosave, shell, working_directory },
        },
        StructuredField::AutosaveDelay => match value {
            None => StructuredSettings { theme, icon_theme, autosave: write_autosave_delay(autosave, None), shell, working_directory },
            Some(StructuredValue::Delay(v)) => StructuredSettings {
                theme, icon_theme, autosave: write_autosave_delay(autosave, Some(v)), shell, working_directory,
            },
            Some(_) => StructuredSettings { theme, icon_theme, autosave, shell, working_directory },
        },
        StructuredField::ShellVariant => match value {
            None => StructuredSettings { theme, icon_theme, autosave, shell: write_shell_variant(shell, None, is_windows), working_directory },
            Some(StructuredValue::ShellVariant(v)) => StructuredSettings {
                theme, icon_theme, autosave, shell: write_shell_variant(shell, Some(v), is_windows), working_directory,
            },
            Some(_) => StructuredSettings { theme, icon_theme, autosave, shell, working_directory },
        },
        StructuredField::ShellProgram | StructuredField::ShellArgumentsProgram | StructuredField::ShellTitleOverride => {
            let part = match field {
                StructuredField::ShellProgram => ShellPart::Program,
                StructuredField::ShellArgumentsProgram => ShellPart::ArgumentsProgram,
                _ => ShellPart::TitleOverride,
            };
            match value {
                None => StructuredSettings { theme, icon_theme, autosave, shell: write_shell_text_part(shell, part, None), working_directory },
                Some(StructuredValue::Text(v)) => StructuredSettings {
                    theme, icon_theme, autosave, shell: write_shell_text_part(shell, part, Some(v)), working_directory,
                },
                Some(_) => StructuredSettings { theme, icon_theme, autosave, shell, working_directory },
            }
        },
        StructuredField::ShellArguments => match value {
            None => StructuredSettings { theme, icon_theme, autosave, shell: write_shell_args(shell, None), working_directory },
            Some(StructuredValue::Arguments(v)) => StructuredSettings {
                theme, icon_theme, autosave, shell: write_shell_args(shell, Some(v)), working_directory,
            },
            Some(_) => StructuredSettings { theme, icon_theme, autosave, shell, working_directory },
        },
        StructuredField::WorkingDirectoryVariant => match value {
            None => StructuredSettings {
                theme, icon_theme, autosave, shell, working_directory: write_working_directory_variant(working_directory, None),
            },
            Some(StructuredValue::WorkingDirectoryVariant(v)) => StructuredSettings {
                theme, icon_theme, autosave, shell, working_directory: write_working_directory_variant(working_directory, Some(v)),
            },
            Some(_) => StructuredSettings { theme, icon_theme, autosave, shell, working_directory },
        },
        StructuredField::WorkingDirectoryPath => match value {
            None => StructuredSettings {
                theme, icon_theme, autosave, shell, working_directory: write_working_directory_path(working_directory, None),
            },
            Some(StructuredValue::Text(v)) => StructuredSettings {
                theme, icon_theme, autosave, shell, working_directory: write_working_directory_path(working_directory, Some(v)),
            },
            Some(_) => StructuredSettings { theme, icon_theme, autosave, shell, working_directory },
        },
    }
}

/// The shape of an autosave setting.
pub open spec fn autosave_variant_of(setting: AutosaveSetting) -> AutosaveVariant {
    match setting {
        AutosaveSetting::Off => AutosaveVariant::Off,
        AutosaveSetting::AfterDelay { .. } => AutosaveVariant::AfterDelay,
        AutosaveSetting::OnFocusChange => AutosaveVariant::OnFocusChange,
        AutosaveSetting::OnWindowChange => AutosaveVariant::OnWindowChange,
    }
}

/// The shape of a shell.
pub open spec fn shell_variant_of(shell: Shell) -> ShellVariant {
    match shell {
        Shell::System => ShellVariant::System,
        Shell::Program(_) => ShellVariant::Program,
        Shell::WithArguments { .. } => ShellVariant::WithArguments,
    }
}

/// The shape of a working directory.
pub open spec fn working_directory_variant_of(directory: WorkingDirectory) -> WorkingDirectoryVariant {
    match directory {
        WorkingDirectory::CurrentFileDirectory => WorkingDirectoryVariant::CurrentFileDirectory,
        WorkingDirectory::CurrentProjectDirectory => WorkingDirectoryVariant::CurrentProjectDirectory,
        WorkingDirectory::FirstProjectDirectory => WorkingDirectoryVariant::FirstProjectDirectory,
        WorkingDirectory::AlwaysHome => WorkingDirectoryVariant::AlwaysHome,
        WorkingDirectory::Always { .. } => WorkingDirectoryVariant::Always,
    }
}

/// Whether `shown` is the text `text` (or nothing when there is none).
pub open spec fn shows_text(shown: Option<StructuredValue>, text: Option<Seq<char>>) -> bool {
    match text {
        Some(t) => shown matches Some(StructuredValue::Text(s)) && s@ == t,
        None => shown is None,
    }
}

/// Whether `shown` is what the field `field` shows for `settings`: each field shows
/// its part of its setting when the setting has the shape that holds the part (an unset
/// title override shows as empty), and nothing otherwise; the buffer line height's
/// fields show nothing here.
pub open spec fn structured_picked(settings: StructuredSettings, field: StructuredField, shown: Option<StructuredValue>) -> bool {
    match field {
        StructuredField::ThemeVariant => shown == match settings.theme {
            Some(t) => Some(StructuredValue::SelectionVariant(selection_variant_of(t))),
            None => None,
        },
        StructuredField::ThemeName => shows_text(shown, match settings.theme {
            Some(ThemeSelection::Static(n)) => Some(n@),
            _ => None,
        }),
        StructuredField::ThemeMode => shown == match settings.theme {
            Some(ThemeSelection::Dynamic { mode, .. }) => Some(StructuredValue::Mode(mode)),
            _ => None,
        },
        StructuredField::ThemeLight => shows_text(shown, match settings.theme {
            Some(ThemeSelection::Dynamic { light, .. }) => Some(light@),
            _ => None,
        }),
        StructuredField::ThemeDark => shows_text(shown, match settings.theme {
            Some(ThemeSelection::Dynamic { dark, .. }) => Some(dark@),
            _ => None,
        }),
        StructuredField::IconThemeVariant => shown == match settings.icon_theme {
            Some(t) => Some(StructuredValue::SelectionVariant(selection_variant_of(t))),
            None => None,
        },
        StructuredField::IconThemeName => shows_text(shown, match settings.icon_theme {
            Some(ThemeSelection::Static(n)) => Some(n@),
            _ => None,
        }),
        StructuredField::IconThemeMode => shown == match settings.icon_theme {
            Some(ThemeSelection::Dynamic { mode, .. }) => Some(StructuredValue::Mode(mode)),
            _ => None,
        },
        StructuredField::IconThemeLight => shows_text(shown, match settings.icon_theme {
            Some(ThemeSelection::Dynamic { light, .. }) => Some(light@),
            _ => None,
        }),
        StructuredField::IconThemeDark => shows_text(shown, match settings.icon_theme {
            Some(ThemeSelection::Dynamic { dark, .. }) => Some(dark@),
            _ => None,
        }),
        StructuredField::BufferLineHeightVariant => shown is None,
        StructuredField::BufferLineHeightCustom => shown is None,
        StructuredField::AutosaveVariant => shown == match settings.autosave {
            Some(a) => Some(StructuredValue::AutosaveVariant(autosave_variant_of(a))),
            None => None,
        },
        StructuredField::AutosaveDelay => shown == match settings.autosave {
            Some(AutosaveSetting::AfterDelay { milliseconds }) => Some(StructuredValue::Delay(milliseconds)),
            _ => None,
        },
        StructuredField::ShellVariant => shown == match settings.shell {
            Some(sh) => Some(StructuredValue::ShellVariant(shell_variant_of(sh))),
            None => None,
        },
        StructuredField::ShellProgram => shows_text(shown, shell_part_text(settings.shell, ShellPart::Program)),
        StructuredField::ShellArgumentsProgram => shows_text(shown, shell_part_text(settings.shell, ShellPart::ArgumentsProgram)),
        StructuredField::ShellTitleOverride => shows_text(shown, shell_part_text(settings.shell, ShellPart::TitleOverride)),
        StructuredField::ShellArguments => match settings.shell {
            Some(Shell::WithArguments { args, .. }) => shown matches Some(StructuredValue::Arguments(b)) && b@ == args@,
            _ => shown is None,
        },
        StructuredField::WorkingDirectoryVariant => shown == match settings.working_directory {
            Some(w) => Some(StructuredValue::WorkingDirectoryVariant(working_directory_variant_of(w))),
            None => None,
        },
        StructuredField::WorkingDirectoryPath => shows_text(shown, match settings.working_directory {
            Some(WorkingDirectory::Always { directory }) => Some(directory@),
            _ => None,
        }),
    }
}

fn text_value(text: Option<String>) -> (shown: Option<StructuredValue>)
    ensures
        shows_text(shown, opt_view(text)),
{
    match text {
        Some(t) => Some(StructuredValue::Text(t)),
        None => None,
    }
}

/// What the field `field` of a settings page shows for `settings` (see
/// `structured_picked`).
pub fn pick_structured(settings: &StructuredSettings, field: StructuredField) -> (shown: Option<StructuredValue>)
    ensures
        structured_picked(*settings, field, shown),
{
    match field {
        StructuredField::ThemeVariant => match selection_variant(&settings.theme) {
            Some(v) => Some(StructuredValue::SelectionVariant(v)),
            None => None,
        },
        StructuredField::ThemeName => text_value(selection_static_name(&settings.theme)),
        StructuredField::ThemeMode => match selection_mode(&settings.theme) {
            Some(m) => Some(StructuredValue::Mode(m)),
            None => None,
        },
        StructuredField::ThemeLight => text_value(selection_light_or_dark(&settings.theme, false)),
        StructuredField::ThemeDark => text_value(selection_light_or_dark(&settings.theme, true)),
        StructuredField::IconThemeVariant => match selection_variant(&settings.icon_theme) {
            Some(v) => Some(StructuredValue::SelectionVariant(v)),
            None => None,
        },
        StructuredField::IconThemeName => text_value(selection_static_name(&settings.icon_theme)),
        StructuredField::IconThemeMode => match selection_mode(&settings.icon_theme) {
            Some(m) => Some(StructuredValue::Mode(m)),
            None => None,
        },
        StructuredField::IconThemeLight => text_value(selection_light_or_dark(&settings.icon_theme, false)),
        StructuredField::IconThemeDark => text_value(selection_light_or_dark(&settings.icon_theme, true)),
        StructuredField::BufferLineHeightVariant | StructuredField::BufferLineHeightCustom => None,
        StructuredField::AutosaveVariant => match autosave_variant(&settings.autosave) {
            Some(v) => Some(StructuredValue::AutosaveVariant(v)),
            None => None,
        },
        StructuredField::AutosaveDelay => match autosave_delay(&settings.autosave) {
            Some(d) => Some(StructuredValue::Delay(d)),
            None => None,
        },
        StructuredField::ShellVariant => match shell_variant(&settings.shell) {
            Some(v) => Some(StructuredValue::ShellVariant(v)),
            None => None,
        },
        StructuredField::ShellProgram => text_value(shell_text_part(&settings.shell, ShellPart::Program)),
        StructuredField::ShellArgumentsProgram => text_value(shell_text_part(&settings.shell, ShellPart::ArgumentsProgram)),
        StructuredField::ShellTitleOverride => text_value(shell_text_part(&settings.shell, ShellPart::TitleOverride)),
        StructuredField::ShellArguments => match shell_args(&settings.shell) {
            Some(a) => Some(StructuredValue::Arguments(a)),
            None => None,
        },
        StructuredField::WorkingDirectoryVariant => match working_directory_variant(&settings.working_directory) {
            Some(v) => Some(StructuredValue::WorkingDirectoryVariant(v)),
            None => None,
        },
        StructuredField::WorkingDirectoryPath => text_value(working_directory_path(&settings.working_directory)),
    }
}

/// Whether `field` picks the shape of its setting.
pub open spec fn is_shape_field(field: StructuredField) -> bool {
    field is ThemeVariant || field is IconThemeVariant || field is AutosaveVariant || field is ShellVariant
        || field is WorkingDirectoryVariant
}

/// The value a shape field takes, as that field shows it.
pub open spec fn fits_shape_field(field: StructuredField, value: StructuredValue) -> bool {
    match field {
        StructuredField::ThemeVariant => value is SelectionVariant,
        StructuredField::IconThemeVariant => value is SelectionVariant,
        StructuredField::AutosaveVariant => value is AutosaveVariant,
        StructuredField::ShellVariant => value is ShellVariant,
        StructuredField::WorkingDirectoryVariant => value is WorkingDirectoryVariant,
        _ => false,
    }
}

/// A shape dropdown shows the shape just picked in it, whatever the setting was before.
pub proof fn law_shape_read_after_write(
    settings: StructuredSettings,
    field: StructuredField,
    value: StructuredValue,
    defaults: StructuredDefaults,
    is_windows: bool,
    next: StructuredSettings,
    shown: Option<StructuredValue>,
)
    requires
        is_shape_field(field),
        fits_shape_field(field, value),
        structured_written(settings, field, Some(value), defaults, is_windows, next),
        structured_picked(next, field, shown),
    ensures
        shown == Some(value),
{
}

/// Switching a theme that follows the appearance to a fixed theme keeps the theme in
/// use: the light theme in light mode, the dark theme in dark mode and when following
/// the system. Switching a fixed theme to one that follows the appearance uses it for
/// both appearances, following the system. Clearing the shape clears the choice, and an
/// unset choice is switched as the default theme would be.
pub proof fn law_theme_shape_switch(
    mode: ThemeAppearanceMode,
    light: String,
    dark: String,
    name: String,
    default: ThemeSelection,
    current: Option<ThemeSelection>,
)
    ensures
        selection_after_variant(
            Some(ThemeSelection::Dynamic { mode, light, dark }),
            Some(SelectionVariant::Static),
            default,
        ) == Some(ThemeSelection::Static(if mode == ThemeAppearanceMode::Light { light } else { dark })),
        selection_after_variant(Some(ThemeSelection::Static(name)), Some(SelectionVariant::Dynamic), default)
            == Some(ThemeSelection::Dynamic { mode: ThemeAppearanceMode::System, light: name, dark: name }),
        selection_after_variant(current, None, default) is None,
        forall|v: SelectionVariant| #[trigger] selection_after_variant(None, Some(v), default)
            == selection_after_variant(Some(default), Some(v), default),
{
}

} // verus!
