//! The main menu: command identifiers, what each identifier asks for, and
//! the entries of the language submenu.

use vstd::prelude::*;
use crate::config::AppLanguage;

verus! {

/// Restart the desktop shell (Explorer).
pub const IDM_OPTIONS_RESTART_EXPLORER: u16 = 1001;
/// Repair visual styles back to default.
pub const IDM_OPTIONS_REPAIR_VISUAL_STYLES_TO_DEFAULT: u16 = 1002;
/// Restore default classic visual styles.
pub const IDM_OPTIONS_RESTORE_DEFAULT_CLASSIC_VISUAL_STYLES: u16 = 1003;
/// Add extra classic visual styles.
pub const IDM_OPTIONS_ADD_EXTRA_CLASSIC_VISUAL_STYLES: u16 = 1004;
/// Toggle global basic visual styles.
pub const IDM_OPTIONS_TOGGLE_GLOBAL_BASIC_STYLES: u16 = 1005;
/// Toggle global classic visual styles.
pub const IDM_OPTIONS_TOGGLE_GLOBAL_CLASSIC_STYLES: u16 = 1006;
/// Switch the language to English (United States).
pub const IDM_LANG_EN_US: u16 = 2001;
/// Switch the language to Simplified Chinese.
pub const IDM_LANG_ZH_CN: u16 = 2002;

/// What a main menu item asks for.
#[derive(Debug, Clone, Copy, PartialEq, Eq, Structural)]
pub enum MenuCommand {
    RestartExplorer,
    RepairVisualStylesToDefault,
    RestoreDefaultClassicVisualStyles,
    AddExtraClassicVisualStyles,
    ToggleGlobalBasicStyles,
    ToggleGlobalClassicStyles,
    SwitchLanguage(AppLanguage),
}

/// The command identifier of a menu command.
pub open spec fn command_id(command: MenuCommand) -> u16 {
    match command {
        MenuCommand::RestartExplorer => IDM_OPTIONS_RESTART_EXPLORER,
        MenuCommand::RepairVisualStylesToDefault => IDM_OPTIONS_REPAIR_VISUAL_STYLES_TO_DEFAULT,
        MenuCommand::RestoreDefaultClassicVisualStyles => IDM_OPTIONS_RESTORE_DEFAULT_CLASSIC_VISUAL_STYLES,
        MenuCommand::AddExtraClassicVisualStyles => IDM_OPTIONS_ADD_EXTRA_CLASSIC_VISUAL_STYLES,
        MenuCommand::ToggleGlobalBasicStyles => IDM_OPTIONS_TOGGLE_GLOBAL_BASIC_STYLES,
        MenuCommand::ToggleGlobalClassicStyles => IDM_OPTIONS_TOGGLE_GLOBAL_CLASSIC_STYLES,
        MenuCommand::SwitchLanguage(AppLanguage::EnUs) => IDM_LANG_EN_US,
        MenuCommand::SwitchLanguage(AppLanguage::ZhCn) => IDM_LANG_ZH_CN,
    }
}

/// The menu command with a given identifier, if any.
pub open spec fn command_for_id(id: u16) -> Option<MenuCommand> {
    if id == IDM_OPTIONS_RESTART_EXPLORER {
        Some(MenuCommand::RestartExplorer)
    } else if id == IDM_OPTIONS_REPAIR_VISUAL_STYLES_TO_DEFAULT {
        Some(MenuCommand::RepairVisualStylesToDefault)
    } else if id == IDM_OPTIONS_RESTORE_DEFAULT_CLASSIC_VISUAL_STYLES {
        Some(MenuCommand::RestoreDefaultClassicVisualStyles)
    } else if id == IDM_OPTIONS_ADD_EXTRA_CLASSIC_VISUAL_STYLES {
        Some(MenuCommand::AddExtraClassicVisualStyles)
    } else if id == IDM_OPTIONS_TOGGLE_GLOBAL_BASIC_STYLES {
        Some(MenuCommand::ToggleGlobalBasicStyles)
    } else if id == IDM_OPTIONS_TOGGLE_GLOBAL_CLASSIC_STYLES {
        Some(MenuCommand::ToggleGlobalClassicStyles)
    } else if id == IDM_LANG_EN_US {
        Some(MenuCommand::SwitchLanguage(AppLanguage::EnUs))
    } else if id == IDM_LANG_ZH_CN {
        Some(MenuCommand::SwitchLanguage(AppLanguage::ZhCn))
    } else {
        None
    }
}

/// The command that a `WM_COMMAND` identifier stands for.
pub fn menu_command_for_id(id: u16) -> (result: Option<MenuCommand>)
    ensures
        result == command_for_id(id),
{
    match id {
        IDM_OPTIONS_RESTART_EXPLORER => Some(MenuCommand::RestartExplorer),
        IDM_OPTIONS_REPAIR_VISUAL_STYLES_TO_DEFAULT => Some(MenuCommand::RepairVisualStylesToDefault),
        IDM_OPTIONS_RESTORE_DEFAULT_CLASSIC_VISUAL_STYLES => Some(MenuCommand::RestoreDefaultClassicVisualStyles),
        IDM_OPTIONS_ADD_EXTRA_CLASSIC_VISUAL_STYLES => Some(MenuCommand::AddExtraClassicVisualStyles),
        IDM_OPTIONS_TOGGLE_GLOBAL_BASIC_STYLES => Some(MenuCommand::ToggleGlobalBasicStyles),
        IDM_OPTIONS_TOGGLE_GLOBAL_CLASSIC_STYLES => Some(MenuCommand::ToggleGlobalClassicStyles),
        IDM_LANG_EN_US => Some(MenuCommand::SwitchLanguage(AppLanguage::EnUs)),
        IDM_LANG_ZH_CN => Some(MenuCommand::SwitchLanguage(AppLanguage::ZhCn)),
        _ => None,
    }
}

/// The identifier that a menu command is sent with.
pub fn menu_command_id(command: MenuCommand) -> (result: u16)
    ensures
        result == command_id(command),
{
    match command {
        MenuCommand::RestartExplorer => IDM_OPTIONS_RESTART_EXPLORER,
        MenuCommand::RepairVisualStylesToDefault => IDM_OPTIONS_REPAIR_VISUAL_STYLES_TO_DEFAULT,
        MenuCommand::RestoreDefaultClassicVisualStyles => IDM_OPTIONS_RESTORE_DEFAULT_CLASSIC_VISUAL_STYLES,
        MenuCommand::AddExtraClassicVisualStyles => IDM_OPTIONS_ADD_EXTRA_CLASSIC_VISUAL_STYLES,
        MenuCommand::ToggleGlobalBasicStyles => IDM_OPTIONS_TOGGLE_GLOBAL_BASIC_STYLES,
        MenuCommand::ToggleGlobalClassicStyles => IDM_OPTIONS_TOGGLE_GLOBAL_CLASSIC_STYLES,
        MenuCommand::SwitchLanguage(AppLanguage::EnUs) => IDM_LANG_EN_US,
        MenuCommand::SwitchLanguage(AppLanguage::ZhCn) => IDM_LANG_ZH_CN,
    }
}

/// Each command is found again by its identifier, and each identifier
/// that names a command is that command's identifier.
pub proof fn lemma_command_ids_round_trip(command: MenuCommand, id: u16)
    ensures
        command_for_id(command_id(command)) == Some(command),
        command_for_id(id) == Some(command) ==> command_id(command) == id,
{
}

/// Each identifier names its own command: 1001 restarts Explorer, 1002
/// repairs the visual styles, 1003 restores the default classic styles, 1004
/// adds the extra classic styles, 1005 and 1006 toggle the global basic and
/// classic styles, 2001 switches to English and 2002 to Simplified Chinese;
/// every other identifier names no command.
pub proof fn lemma_command_ids_named(id: u16, command: MenuCommand)
    ensures
        IDM_OPTIONS_RESTART_EXPLORER == 1001 && IDM_OPTIONS_REPAIR_VISUAL_STYLES_TO_DEFAULT == 1002
            && IDM_OPTIONS_RESTORE_DEFAULT_CLASSIC_VISUAL_STYLES == 1003 && IDM_OPTIONS_ADD_EXTRA_CLASSIC_VISUAL_STYLES
            == 1004 && IDM_OPTIONS_TOGGLE_GLOBAL_BASIC_STYLES == 1005 && IDM_OPTIONS_TOGGLE_GLOBAL_CLASSIC_STYLES == 1006
            && IDM_LANG_EN_US == 2001 && IDM_LANG_ZH_CN == 2002,
        command_for_id(id) == if id == 1001 {
            Some(MenuCommand::RestartExplorer)
        } else if id == 1002 {
            Some(MenuCommand::RepairVisualStylesToDefault)
        } else if id == 1003 {
            Some(MenuCommand::RestoreDefaultClassicVisualStyles)
        } else if id == 1004 {
            Some(MenuCommand::AddExtraClassicVisualStyles)
        } else if id == 1005 {
            Some(MenuCommand::ToggleGlobalBasicStyles)
        } else if id == 1006 {
            Some(MenuCommand::ToggleGlobalClassicStyles)
        } else if id == 2001 {
            Some(MenuCommand::SwitchLanguage(AppLanguage::EnUs))
        } else if id == 2002 {
            Some(MenuCommand::SwitchLanguage(AppLanguage::ZhCn))
        } else {
            None::<MenuCommand>
        },
        command_id(command) == match command {
            MenuCommand::RestartExplorer => 1001u16,
            MenuCommand::RepairVisualStylesToDefault => 1002u16,
            MenuCommand::RestoreDefaultClassicVisualStyles => 1003u16,
            MenuCommand::AddExtraClassicVisualStyles => 1004u16,
            MenuCommand::ToggleGlobalBasicStyles => 1005u16,
            MenuCommand::ToggleGlobalClassicStyles => 1006u16,
            MenuCommand::SwitchLanguage(AppLanguage::EnUs) => 2001u16,
            MenuCommand::SwitchLanguage(AppLanguage::ZhCn) => 2002u16,
        },
{
}

/// Whether the user must confirm a command before it runs: restarting
/// Explorer and repairing the visual styles change the running system.
pub open spec fn needs_confirmation(command: MenuCommand) -> bool {
    command == MenuCommand::RestartExplorer || command == MenuCommand::RepairVisualStylesToDefault
}

/// Whether a command asks for confirmation first.
pub fn command_needs_confirmation(command: MenuCommand) -> (result: bool)
    ensures
        result == needs_confirmation(command),
{
    match command {
        MenuCommand::RestartExplorer => true,
        MenuCommand::RepairVisualStylesToDefault => true,
        _ => false,
    }
}

/// What a menu command leads to once any confirmation has been answered.
#[derive(Debug, Clone, Copy, PartialEq, Eq, Structural)]
pub enum CommandAction {
    /// The user declined the confirmation; nothing happens.
    Cancelled,
    /// Restart the desktop shell.
    RestartShell,
    /// Write the default visual style metrics and report success.
    RepairVisualStyles,
    /// Switch to the language, rebuild all texts and save the choice.
    SwitchLanguage(AppLanguage),
    /// The command has no effect yet.
    Nothing,
}

/// The action of `command` when the user `confirmed` (the answer is only
/// asked for, and only counts, where the command needs confirmation).
pub open spec fn action_of(command: MenuCommand, confirmed: bool) -> CommandAction {
    if needs_confirmation(command) && !confirmed {
        CommandAction::Cancelled
    } else {
        match command {
            MenuCommand::RestartExplorer => CommandAction::RestartShell,
            MenuCommand::RepairVisualStylesToDefault => CommandAction::RepairVisualStyles,
            MenuCommand::SwitchLanguage(language) => CommandAction::SwitchLanguage(language),
            _ => CommandAction::Nothing,
        }
    }
}

/// Decides what a menu command does after its confirmation prompt.
pub fn command_action(command: MenuCommand, confirmed: bool) -> (result: CommandAction)
    ensures
        result == action_of(command, confirmed),
{
    if command_needs_confirmation(command) && !confirmed {
        return CommandAction::Cancelled;
    }
    match command {
        MenuCommand::RestartExplorer => CommandAction::RestartShell,
        MenuCommand::RepairVisualStylesToDefault => CommandAction::RepairVisualStyles,
        MenuCommand::SwitchLanguage(language) => CommandAction::SwitchLanguage(language),
        _ => CommandAction::Nothing,
    }
}

/// One entry of the language submenu.
#[derive(Debug, Clone, Copy, PartialEq, Eq)]
pub struct LanguageMenuEntry {
    pub command_id: u16,
    pub display_text: &'static str,
    pub language: AppLanguage,
    /// The active language is shown checked and grayed out.
    pub is_active: bool,
}

/// The language submenu for the active locale: English, then Simplified
/// Chinese, each marked active when it is the active locale.
pub fn language_menu_entries(current_locale: &str) -> (result: Vec<LanguageMenuEntry>)
    ensures
        result@.len() == 2,
        result@[0].language == AppLanguage::EnUs,
        result@[1].language == AppLanguage::ZhCn,
        result@[0].display_text@ == "English"@,
        result@[1].display_text@ == "\u{7b80}\u{4f53}\u{4e2d}\u{6587}"@,
        forall|i: int| 0 <= i < 2 ==> (#[trigger] result@[i]).command_id == command_id(
            MenuCommand::SwitchLanguage(result@[i].language),
        ) && result@[i].is_active == (current_locale@ == result@[i].language.locale()),
{
    let locale = current_locale.to_owned();
    let mut result: Vec<LanguageMenuEntry> = Vec::new();
    let english = AppLanguage::EnUs;
    result.push(LanguageMenuEntry {
        command_id: IDM_LANG_EN_US,
        display_text: "English",
        language: english,
        is_active: locale == english.as_locale_str().to_owned(),
    });
    let chinese = AppLanguage::ZhCn;
    result.push(LanguageMenuEntry {
        command_id: IDM_LANG_ZH_CN,
        display_text: "\u{7b80}\u{4f53}\u{4e2d}\u{6587}",
        language: chinese,
        is_active: locale == chinese.as_locale_str().to_owned(),
    });
    result
}

/// At most one language entry is active, since the two locale strings
/// differ.
pub proof fn lemma_at_most_one_active_language(locale: Seq<char>)
    ensures
        !(locale == AppLanguage::EnUs.locale() && locale == AppLanguage::ZhCn.locale()),
{
    reveal_strlit("zh-CN");
    reveal_strlit("en-US");
    assert("zh-CN"@[0] != "en-US"@[0]);
}

} // verus!
