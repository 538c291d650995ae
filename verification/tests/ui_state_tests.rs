use toolbox::config::AppLanguage;
use toolbox::font::{FontManager, FontSyncResult, LogFontKey, is_logfont_equal};
use toolbox::interaction::{HoverAction, HoverTracker, PendingErrorMessage, select_all_target};
use toolbox::menu::{
    CommandAction, IDM_LANG_EN_US, IDM_LANG_ZH_CN, IDM_OPTIONS_RESTART_EXPLORER, MenuCommand, command_action,
    command_needs_confirmation,
    language_menu_entries, menu_command_for_id, menu_command_id,
};
use toolbox::startup::{
    ElevationAction, ElevationCheck, ElevationOutcome, InstanceOutcome, ShellError, elevation_plan, initial_locale,
    initial_locale_from_system, shell_process_id, shell_termination_outcome, should_signal_existing_instance,
    single_instance_outcome,
};

fn font(height: i32, face: &str) -> LogFontKey {
    LogFontKey {
        height,
        width: 0,
        weight: 400,
        italic: 0,
        underline: 0,
        strike_out: 0,
        char_set: 1,
        face_name: face.to_string(),
    }
}

#[test]
fn menu_ids_map_to_commands() {
    assert_eq!(menu_command_for_id(IDM_OPTIONS_RESTART_EXPLORER), Some(MenuCommand::RestartExplorer));
    assert_eq!(menu_command_for_id(IDM_LANG_ZH_CN), Some(MenuCommand::SwitchLanguage(AppLanguage::ZhCn)));
    assert_eq!(menu_command_for_id(1006), Some(MenuCommand::ToggleGlobalClassicStyles));
    assert_eq!(menu_command_for_id(3000), None);
    for id in [1001u16, 1002, 1003, 1004, 1005, 1006, 2001, 2002] {
        assert_eq!(menu_command_id(menu_command_for_id(id).unwrap()), id);
    }
}

#[test]
fn only_system_changes_need_confirmation() {
    assert!(command_needs_confirmation(MenuCommand::RestartExplorer));
    assert!(command_needs_confirmation(MenuCommand::RepairVisualStylesToDefault));
    assert!(!command_needs_confirmation(MenuCommand::ToggleGlobalBasicStyles));
    assert!(!command_needs_confirmation(MenuCommand::SwitchLanguage(AppLanguage::EnUs)));
}

#[test]
fn language_menu_marks_active_locale() {
    let entries = language_menu_entries("zh-CN");
    assert_eq!(entries.len(), 2);
    assert_eq!((entries[0].command_id, entries[0].display_text, entries[0].is_active), (IDM_LANG_EN_US, "English", false));
    assert_eq!(entries[1].command_id, IDM_LANG_ZH_CN);
    assert_eq!(entries[1].display_text, "\u{7b80}\u{4f53}\u{4e2d}\u{6587}");
    assert!(entries[1].is_active);
    let entries = language_menu_entries("fr-FR");
    assert!(entries.iter().all(|e| !e.is_active));
}

#[test]
fn fonts_compare_field_by_field() {
    assert!(is_logfont_equal(&font(-12, "Segoe UI"), &font(-12, "Segoe UI")));
    assert!(!is_logfont_equal(&font(-12, "Segoe UI"), &font(-13, "Segoe UI")));
    assert!(!is_logfont_equal(&font(-12, "Segoe UI"), &font(-12, "Tahoma")));
}

#[test]
fn font_sync_reports_changes_once() {
    let mut manager = FontManager::new();
    assert!(manager.requires_update(&font(-12, "Segoe UI")));
    assert_eq!(manager.sync_system_font(font(-12, "Segoe UI")), FontSyncResult::Changed);
    assert_eq!(manager.sync_system_font(font(-12, "Segoe UI")), FontSyncResult::Unchanged);
    assert_eq!(manager.sync_system_font(font(-15, "Segoe UI")), FontSyncResult::Changed);
    manager.record_applied_font(font(-9, "Tahoma"));
    assert!(!manager.requires_update(&font(-9, "Tahoma")));
}

#[test]
fn hover_shows_description_once() {
    let mut tracker = HoverTracker::new();
    assert_eq!(tracker.on_mouse_move(), HoverAction::ShowDescription);
    assert_eq!(tracker.on_mouse_move(), HoverAction::Nothing);
    assert_eq!(tracker.on_mouse_leave(), HoverAction::ClearDescription);
    assert_eq!(tracker.on_mouse_move(), HoverAction::ShowDescription);
}

#[test]
fn deferred_error_is_shown_once() {
    let mut pending = PendingErrorMessage::new();
    assert_eq!(pending.take(), None);
    pending.post("first".to_string());
    pending.post("second".to_string());
    assert_eq!(pending.take(), Some("second".to_string()));
    assert_eq!(pending.take(), None);
}

#[test]
fn select_all_toggles() {
    assert!(select_all_target(&vec![true, false, true]));
    assert!(!select_all_target(&vec![true, true]));
    assert!(!select_all_target(&vec![]));
    let mut states = vec![true, false];
    for _ in 0..2 {
        let target = select_all_target(&states);
        states.iter_mut().for_each(|s| *s = target);
    }
    assert_eq!(states, vec![false, false]);
}

#[test]
fn elevation_decisions() {
    assert_eq!(elevation_plan(ElevationCheck::TrustedInstaller), (ElevationOutcome::Proceed, ElevationAction::Nothing));
    assert_eq!(elevation_plan(ElevationCheck::RequiresElevation), (ElevationOutcome::Terminate, ElevationAction::Relaunch));
    assert_eq!(
        elevation_plan(ElevationCheck::CheckFailed),
        (ElevationOutcome::Terminate, ElevationAction::ReportCheckFailure)
    );
}

#[test]
fn single_instance_decisions() {
    assert_eq!(single_instance_outcome(false, false), InstanceOutcome::CreationFailed);
    assert_eq!(single_instance_outcome(true, true), InstanceOutcome::AlreadyRunning);
    assert_eq!(single_instance_outcome(true, false), InstanceOutcome::Primary);
    assert!(should_signal_existing_instance(49321));
    assert!(!should_signal_existing_instance(0));
}

#[test]
fn initial_locale_falls_back_to_english() {
    assert_eq!(initial_locale(Some("zh-CN".to_string())), "zh-CN");
    assert_eq!(initial_locale(None), "en-US");
    assert!(!initial_locale_from_system().is_empty());
}

#[test]
fn shell_process_decisions() {
    assert_eq!(shell_process_id(false, 5, 6), Err(ShellError::ShellWindowNotFound));
    assert_eq!(shell_process_id(true, 0, 6), Err(ShellError::ShellProcessIdUnavailable));
    assert_eq!(shell_process_id(true, 5, 0), Err(ShellError::ShellProcessIdUnavailable));
    assert_eq!(shell_process_id(true, 5, 6), Ok(6));
    assert_eq!(shell_termination_outcome(6, false, false), Err(ShellError::OpenProcessFailed(6)));
    assert_eq!(shell_termination_outcome(6, true, false), Err(ShellError::TerminateFailed(6)));
    assert_eq!(shell_termination_outcome(6, true, true), Ok(()));
}

#[test]
fn commands_act_after_confirmation() {
    assert_eq!(command_action(MenuCommand::RestartExplorer, false), CommandAction::Cancelled);
    assert_eq!(command_action(MenuCommand::RestartExplorer, true), CommandAction::RestartShell);
    assert_eq!(command_action(MenuCommand::RepairVisualStylesToDefault, false), CommandAction::Cancelled);
    assert_eq!(command_action(MenuCommand::RepairVisualStylesToDefault, true), CommandAction::RepairVisualStyles);
    for confirmed in [false, true] {
        assert_eq!(
            command_action(MenuCommand::SwitchLanguage(AppLanguage::ZhCn), confirmed),
            CommandAction::SwitchLanguage(AppLanguage::ZhCn)
        );
        assert_eq!(command_action(MenuCommand::ToggleGlobalBasicStyles, confirmed), CommandAction::Nothing);
        assert_eq!(command_action(MenuCommand::AddExtraClassicVisualStyles, confirmed), CommandAction::Nothing);
    }
}

#[test]
fn hover_over_a_sequence_of_messages() {
    let events = [true, true, false, true, false, false, true, true, true];
    let mut tracker = HoverTracker::new();
    for (k, &is_move) in events.iter().enumerate() {
        let action = if is_move { tracker.on_mouse_move() } else { tracker.on_mouse_leave() };
        let expected = if !is_move {
            HoverAction::ClearDescription
        } else if k > 0 && events[k - 1] {
            HoverAction::Nothing
        } else {
            HoverAction::ShowDescription
        };
        assert_eq!(action, expected, "message {k}");
    }
}
