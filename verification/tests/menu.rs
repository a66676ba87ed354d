use window_shell::menu::{menu_effect, menu_entries, MenuAction, MenuEffect, ShellStatus};

fn fresh() -> ShellStatus {
    ShellStatus {
        settings_window_open: false,
        main_window_open: true,
        config_dir_known: true,
        config_file_exists: false,
        config_text: None,
    }
}

fn saved(text: &str) -> ShellStatus {
    ShellStatus { config_file_exists: true, config_text: Some(String::from(text)), ..fresh() }
}

#[test]
fn menu_lists_its_four_entries_in_order() {
    assert_eq!(
        menu_entries(),
        vec![
            MenuAction::OpenSettings,
            MenuAction::UseSavedUrl,
            MenuAction::ClearSavedUrl,
            MenuAction::EditConfigFile,
        ]
    );
}

#[test]
fn entries_have_their_identifiers() {
    assert_eq!(MenuAction::OpenSettings.id(), "menu-set-url");
    assert_eq!(MenuAction::UseSavedUrl.id(), "menu-use-saved-url");
    assert_eq!(MenuAction::ClearSavedUrl.id(), "menu-clear-saved-url");
    assert_eq!(MenuAction::EditConfigFile.id(), "menu-edit-url-config");
}

#[test]
fn entries_have_their_labels() {
    assert_eq!(MenuAction::OpenSettings.label(), "\u{8bbe}\u{7f6e}\u{52a0}\u{8f7d} URL...");
    assert_eq!(MenuAction::UseSavedUrl.label(), "\u{52a0}\u{8f7d}\u{5df2}\u{4fdd}\u{5b58} URL");
    assert_eq!(MenuAction::ClearSavedUrl.label(), "\u{6e05}\u{9664}\u{5df2}\u{4fdd}\u{5b58} URL");
    assert_eq!(
        MenuAction::EditConfigFile.label(),
        "\u{7f16}\u{8f91} URL \u{914d}\u{7f6e}\u{6587}\u{4ef6}..."
    );
}

#[test]
fn only_open_settings_has_an_accelerator() {
    assert_eq!(MenuAction::OpenSettings.accelerator(), Some("CmdOrCtrl+Comma"));
    assert_eq!(MenuAction::UseSavedUrl.accelerator(), None);
    assert_eq!(MenuAction::ClearSavedUrl.accelerator(), None);
    assert_eq!(MenuAction::EditConfigFile.accelerator(), None);
}

#[test]
fn each_entry_is_found_by_its_identifier() {
    for entry in menu_entries() {
        assert_eq!(MenuAction::from_id(entry.id()), Some(entry));
    }
}

#[test]
fn other_identifiers_name_no_entry() {
    assert_eq!(MenuAction::from_id(""), None);
    assert_eq!(MenuAction::from_id("menu-set-url "), None);
    assert_eq!(MenuAction::from_id("MENU-SET-URL"), None);
    assert_eq!(MenuAction::from_id("menu-edit-url-confih"), None);
    assert_eq!(MenuAction::from_id("quit"), None);
}

#[test]
fn open_settings_creates_the_window_once() {
    let mut status: ShellStatus = fresh();
    assert_eq!(menu_effect(MenuAction::OpenSettings, &status), MenuEffect::CreateSettingsWindow);
    // the shell made the window; the next choice finds it
    status.settings_window_open = true;
    assert_eq!(menu_effect(MenuAction::OpenSettings, &status), MenuEffect::FocusSettingsWindow);
    assert_eq!(menu_effect(MenuAction::OpenSettings, &status), MenuEffect::FocusSettingsWindow);
}

#[test]
fn open_settings_does_not_look_at_the_rest() {
    let status = ShellStatus {
        settings_window_open: true,
        main_window_open: false,
        config_dir_known: false,
        config_file_exists: false,
        config_text: None,
    };
    assert_eq!(menu_effect(MenuAction::OpenSettings, &status), MenuEffect::FocusSettingsWindow);
}

#[test]
fn use_saved_url_navigates() {
    let status: ShellStatus = saved("{\"startup_url\": \"http://127.0.0.1:9999\"}");
    assert_eq!(
        menu_effect(MenuAction::UseSavedUrl, &status),
        MenuEffect::Navigate(String::from("window.location.href = 'http://127.0.0.1:9999';"))
    );
}

#[test]
fn use_saved_url_escapes_the_url() {
    let status: ShellStatus = saved("{\"startup_url\": \"a\\\"b\"}");
    assert_eq!(
        menu_effect(MenuAction::UseSavedUrl, &status),
        MenuEffect::Navigate(String::from("window.location.href = 'a\\\"b';"))
    );
}

#[test]
fn use_saved_url_without_a_config_does_nothing() {
    assert_eq!(menu_effect(MenuAction::UseSavedUrl, &fresh()), MenuEffect::Nothing);
}

#[test]
fn use_saved_url_with_a_broken_config_does_nothing() {
    assert_eq!(menu_effect(MenuAction::UseSavedUrl, &saved("{")), MenuEffect::Nothing);
    assert_eq!(menu_effect(MenuAction::UseSavedUrl, &saved("{\"x\": 1}")), MenuEffect::Nothing);
}

#[test]
fn use_saved_url_without_primary_window_does_nothing() {
    let mut status: ShellStatus = saved("{\"startup_url\": \"http://a\"}");
    status.main_window_open = false;
    assert_eq!(menu_effect(MenuAction::UseSavedUrl, &status), MenuEffect::Nothing);
}

#[test]
fn clear_deletes_the_file_whether_or_not_it_exists() {
    assert_eq!(menu_effect(MenuAction::ClearSavedUrl, &fresh()), MenuEffect::DeleteConfigFile);
    let status: ShellStatus = saved("{\"startup_url\": \"http://a\"}");
    assert_eq!(menu_effect(MenuAction::ClearSavedUrl, &status), MenuEffect::DeleteConfigFile);
}

#[test]
fn after_clear_nothing_is_loaded() {
    let before: ShellStatus = saved("{\"startup_url\": \"http://a\"}");
    assert_eq!(menu_effect(MenuAction::ClearSavedUrl, &before), MenuEffect::DeleteConfigFile);
    // the file is gone
    let after: ShellStatus = fresh();
    assert_eq!(menu_effect(MenuAction::UseSavedUrl, &after), MenuEffect::Nothing);
    assert_eq!(menu_effect(MenuAction::ClearSavedUrl, &after), MenuEffect::DeleteConfigFile);
}

#[test]
fn clear_without_config_dir_does_nothing() {
    let mut status: ShellStatus = fresh();
    status.config_dir_known = false;
    assert_eq!(menu_effect(MenuAction::ClearSavedUrl, &status), MenuEffect::Nothing);
}

#[test]
fn edit_opens_an_existing_file_as_it_is() {
    let status: ShellStatus = saved("{\"startup_url\": \"http://a\"}");
    assert_eq!(
        menu_effect(MenuAction::EditConfigFile, &status),
        MenuEffect::EditConfigFile { seed: None }
    );
}

#[test]
fn edit_seeds_a_missing_file_with_the_default() {
    let seed: Vec<u8> = b"{\n  \"startup_url\": \"http://127.0.0.1:1420\"\n}".to_vec();
    assert_eq!(
        menu_effect(MenuAction::EditConfigFile, &fresh()),
        MenuEffect::EditConfigFile { seed: Some(seed) }
    );
}

#[test]
fn edit_without_config_dir_does_nothing() {
    let mut status: ShellStatus = fresh();
    status.config_dir_known = false;
    assert_eq!(menu_effect(MenuAction::EditConfigFile, &status), MenuEffect::Nothing);
}
