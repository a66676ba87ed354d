//! The settings menu: its entries, and what the shell is to do when one of
//! them is chosen.
//!
//! The shell observes its windows and the configuration file, asks
//! `menu_effect` what to do, and does it. Whatever it is asked to do is best
//! effort: a step that fails is passed over.
use vstd::prelude::*;
use vstd::string::*;
use crate::config::{
    config_bytes, config_document, default_url_text, read_saved_url, saved_url_read, text_view,
};
use crate::navigation::{navigation_script, script_for};

verus! {

/// The entries of the settings menu.
#[derive(Clone, Copy, Debug, PartialEq, Eq, Structural)]
pub enum MenuAction {
    /// Show the settings window.
    OpenSettings,
    /// Load the saved URL in the primary window.
    UseSavedUrl,
    /// Forget the saved URL.
    ClearSavedUrl,
    /// Open the configuration file in the platform's editor.
    EditConfigFile,
}

/// `str`'s `==`: whether two string slices hold the same characters.
#[verifier::external_body]
fn same_text(a: &str, b: &str) -> (r: bool)
    ensures
        r == (a@ == b@),
{
    a == b
}

impl MenuAction {
    /// The identifier that the entry's menu item carries.
    pub open spec fn id_text(self) -> Seq<char> {
        match self {
            MenuAction::OpenSettings => "menu-set-url"@,
            MenuAction::UseSavedUrl => "menu-use-saved-url"@,
            MenuAction::ClearSavedUrl => "menu-clear-saved-url"@,
            MenuAction::EditConfigFile => "menu-edit-url-config"@,
        }
    }

    /// The entry's label in the menu.
    pub open spec fn label_text(self) -> Seq<char> {
        match self {
            MenuAction::OpenSettings => "设置加载 URL..."@,
            MenuAction::UseSavedUrl => "加载已保存 URL"@,
            MenuAction::ClearSavedUrl => "清除已保存 URL"@,
            MenuAction::EditConfigFile => "编辑 URL 配置文件..."@,
        }
    }

    /// The entry's keyboard accelerator, where it has one.
    pub open spec fn accelerator_text(self) -> Option<Seq<char>> {
        match self {
            MenuAction::OpenSettings => Some("CmdOrCtrl+Comma"@),
            _ => None,
        }
    }

    /// The entry that carries the identifier `id`, if one does.
    pub open spec fn with_id(id: Seq<char>) -> Option<MenuAction> {
        if id == MenuAction::OpenSettings.id_text() {
            Some(MenuAction::OpenSettings)
        } else if id == MenuAction::UseSavedUrl.id_text() {
            Some(MenuAction::UseSavedUrl)
        } else if id == MenuAction::ClearSavedUrl.id_text() {
            Some(MenuAction::ClearSavedUrl)
        } else if id == MenuAction::EditConfigFile.id_text() {
            Some(MenuAction::EditConfigFile)
        } else {
            None
        }
    }

    /// Each entry is found again by its identifier: no two entries share one.
    pub proof fn law_id_names_entry(self)
        ensures
            MenuAction::with_id(self.id_text()) == Some(self),
    {
        reveal_strlit("menu-set-url");
        reveal_strlit("menu-use-saved-url");
        reveal_strlit("menu-clear-saved-url");
        reveal_strlit("menu-edit-url-config");
        assert("menu-set-url"@.len() == 12);
        assert("menu-use-saved-url"@.len() == 18);
        assert("menu-clear-saved-url"@[5] == 'c');
        assert("menu-edit-url-config"@[5] == 'e');
    }

    /// The identifier that the entry's menu item carries.
    pub fn id(&self) -> (r: &'static str)
        ensures
            r@ == self.id_text(),
    {
        match self {
            MenuAction::OpenSettings => "menu-set-url",
            MenuAction::UseSavedUrl => "menu-use-saved-url",
            MenuAction::ClearSavedUrl => "menu-clear-saved-url",
            MenuAction::EditConfigFile => "menu-edit-url-config",
        }
    }

    /// The entry's label in the menu.
    pub fn label(&self) -> (r: &'static str)
        ensures
            r@ == self.label_text(),
    {
        match self {
            MenuAction::OpenSettings => "设置加载 URL...",
            MenuAction::UseSavedUrl => "加载已保存 URL",
            MenuAction::ClearSavedUrl => "清除已保存 URL",
            MenuAction::EditConfigFile => "编辑 URL 配置文件...",
        }
    }

    /// The entry's keyboard accelerator, where it has one.
    pub fn accelerator(&self) -> (r: Option<&'static str>)
        ensures
            match r {
                Some(keys) => self.accelerator_text() == Some(keys@),
                None => self.accelerator_text() is None,
            },
    {
        match self {
            MenuAction::OpenSettings => Some("CmdOrCtrl+Comma"),
            _ => None,
        }
    }

    /// The entry whose menu item carries `id`; `None` for any other
    /// identifier.
    pub fn from_id(id: &str) -> (r: Option<MenuAction>)
        ensures
            r == MenuAction::with_id(id@),
    {
        if same_text(id, "menu-set-url") {
            Some(MenuAction::OpenSettings)
        } else if same_text(id, "menu-use-saved-url") {
            Some(MenuAction::UseSavedUrl)
        } else if same_text(id, "menu-clear-saved-url") {
            Some(MenuAction::ClearSavedUrl)
        } else if same_text(id, "menu-edit-url-config") {
            Some(MenuAction::EditConfigFile)
        } else {
            None
        }
    }
}

/// The entries in the order in which the menu shows them.
pub fn menu_entries() -> (r: Vec<MenuAction>)
    ensures
        r@ == seq![
            MenuAction::OpenSettings,
            MenuAction::UseSavedUrl,
            MenuAction::ClearSavedUrl,
            MenuAction::EditConfigFile,
        ],
{
    let entries = vec![
        MenuAction::OpenSettings,
        MenuAction::UseSavedUrl,
        MenuAction::ClearSavedUrl,
        MenuAction::EditConfigFile,
    ];
    assert(entries@ =~= seq![
        MenuAction::OpenSettings,
        MenuAction::UseSavedUrl,
        MenuAction::ClearSavedUrl,
        MenuAction::EditConfigFile,
    ]);
    entries
}

/// What the shell saw of its windows and of the configuration file when a
/// menu entry was chosen.
#[derive(Debug)]
pub struct ShellStatus {
    /// A window named "settings" exists.
    pub settings_window_open: bool,
    /// The primary window exists.
    pub main_window_open: bool,
    /// The platform named a configuration directory.
    pub config_dir_known: bool,
    /// The configuration file exists.
    pub config_file_exists: bool,
    /// The text of the configuration file, where it could be read.
    pub config_text: Option<String>,
}

/// What the shell is to do in answer to a menu entry.
#[derive(Debug, PartialEq, Eq)]
pub enum MenuEffect {
    /// Create the settings window; none exists.
    CreateSettingsWindow,
    /// Bring the settings window that exists to the front.
    FocusSettingsWindow,
    /// Run this script in the primary window.
    Navigate(String),
    /// Delete the configuration file; a file that is not there is no fault.
    DeleteConfigFile,
    /// Open the configuration file with the platform's handler for it, after
    /// writing `seed` to it where there is one.
    EditConfigFile { seed: Option<Vec<u8>> },
    /// Leave everything as it is.
    Nothing,
}

/// A `MenuEffect` as plain values.
pub enum EffectView {
    CreateSettingsWindow,
    FocusSettingsWindow,
    Navigate(Seq<char>),
    DeleteConfigFile,
    EditConfigFile { seed: Option<Seq<u8>> },
    Nothing,
}

impl View for MenuEffect {
    type V = EffectView;

    open spec fn view(&self) -> EffectView {
        match self {
            MenuEffect::CreateSettingsWindow => EffectView::CreateSettingsWindow,
            MenuEffect::FocusSettingsWindow => EffectView::FocusSettingsWindow,
            MenuEffect::Navigate(script) => EffectView::Navigate(script@),
            MenuEffect::DeleteConfigFile => EffectView::DeleteConfigFile,
            MenuEffect::EditConfigFile { seed } => EffectView::EditConfigFile {
                seed: match seed {
                    Some(bytes) => Some(bytes@),
                    None => None,
                },
            },
            MenuEffect::Nothing => EffectView::Nothing,
        }
    }
}

/// What choosing "open settings" leads to: the one settings window is
/// created where there is none, and brought to the front where there is one.
pub open spec fn open_settings_effect(settings_window_open: bool) -> EffectView {
    if settings_window_open {
        EffectView::FocusSettingsWindow
    } else {
        EffectView::CreateSettingsWindow
    }
}

/// What choosing "use saved URL" leads to: the primary window is sent to the
/// saved URL; nothing happens where none is saved or the window is gone.
pub open spec fn use_saved_url_effect(status: ShellStatus) -> EffectView {
    match saved_url_read(text_view(status.config_text)) {
        Some(url) if status.main_window_open => EffectView::Navigate(script_for(url)),
        _ => EffectView::Nothing,
    }
}

/// What choosing "clear saved URL" leads to: the configuration file is
/// deleted, whether or not it exists.
pub open spec fn clear_saved_url_effect(status: ShellStatus) -> EffectView {
    if status.config_dir_known {
        EffectView::DeleteConfigFile
    } else {
        EffectView::Nothing
    }
}

/// What choosing "edit configuration file" leads to: the file is opened for
/// editing, seeded with the default URL where it does not exist yet.
pub open spec fn edit_config_effect(status: ShellStatus) -> EffectView {
    if !status.config_dir_known {
        EffectView::Nothing
    } else if status.config_file_exists {
        EffectView::EditConfigFile { seed: None }
    } else {
        EffectView::EditConfigFile { seed: config_bytes(default_url_text()) }
    }
}

/// What choosing a menu entry leads to, given what the shell saw.
pub open spec fn effect_of(action: MenuAction, status: ShellStatus) -> EffectView {
    match action {
        MenuAction::OpenSettings => open_settings_effect(status.settings_window_open),
        MenuAction::UseSavedUrl => use_saved_url_effect(status),
        MenuAction::ClearSavedUrl => clear_saved_url_effect(status),
        MenuAction::EditConfigFile => edit_config_effect(status),
    }
}

/// Decides what the shell is to do now that `action` was chosen.
pub fn menu_effect(action: MenuAction, status: &ShellStatus) -> (r: MenuEffect)
    ensures
        r@ == effect_of(action, *status),
{
    match action {
        MenuAction::OpenSettings => {
            if status.settings_window_open {
                MenuEffect::FocusSettingsWindow
            } else {
                MenuEffect::CreateSettingsWindow
            }
        },
        MenuAction::UseSavedUrl => {
            let saved = match &status.config_text {
                Some(text) => read_saved_url(Some(text.as_str())),
                None => read_saved_url(None),
            };
            match saved {
                Some(url) => {
                    if status.main_window_open {
                        MenuEffect::Navigate(navigation_script(url.as_str()))
                    } else {
                        MenuEffect::Nothing
                    }
                },
                None => MenuEffect::Nothing,
            }
        },
        MenuAction::ClearSavedUrl => {
            if status.config_dir_known {
                MenuEffect::DeleteConfigFile
            } else {
                MenuEffect::Nothing
            }
        },
        MenuAction::EditConfigFile => {
            if !status.config_dir_known {
                MenuEffect::Nothing
            } else if status.config_file_exists {
                MenuEffect::EditConfigFile { seed: None }
            } else {
                match config_document("http://127.0.0.1:1420") {
                    Ok(bytes) => MenuEffect::EditConfigFile { seed: Some(bytes) },
                    Err(_) => MenuEffect::EditConfigFile { seed: None },
                }
            }
        },
    }
}

/// What the menu's effects act on, as far as the laws below speak of it:
/// the settings windows that exist, and the configuration file.
pub struct ShellModel {
    /// How many settings windows exist.
    pub settings_windows: nat,
    /// A settings window is in front.
    pub settings_focused: bool,
    /// The bytes of the configuration file, where it exists.
    pub config_file: Option<Seq<u8>>,
}

/// `status` is what a shell in the state `shell` sees.
pub open spec fn seen(shell: ShellModel, status: ShellStatus) -> bool {
    &&& status.settings_window_open == (shell.settings_windows > 0)
    &&& status.config_file_exists == (shell.config_file is Some)
    &&& shell.config_file is None ==> status.config_text is None
}

/// The shell after it carried out `effect` without a failure.
pub open spec fn performed(effect: EffectView, shell: ShellModel) -> ShellModel {
    match effect {
        EffectView::CreateSettingsWindow => ShellModel {
            settings_windows: shell.settings_windows + 1,
            settings_focused: true,
            ..shell
        },
        EffectView::FocusSettingsWindow => ShellModel { settings_focused: true, ..shell },
        EffectView::DeleteConfigFile => ShellModel { config_file: None, ..shell },
        EffectView::EditConfigFile { seed: Some(bytes) } => ShellModel {
            config_file: Some(bytes),
            ..shell
        },
        _ => shell,
    }
}

/// Choosing "open settings" leaves exactly one settings window, in front,
/// whether or not one existed.
pub proof fn law_open_settings_single(shell: ShellModel, status: ShellStatus)
    requires
        shell.settings_windows <= 1,
        seen(shell, status),
    ensures
        performed(effect_of(MenuAction::OpenSettings, status), shell).settings_windows == 1,
        performed(effect_of(MenuAction::OpenSettings, status), shell).settings_focused,
{
}

/// Choosing "open settings" twice in succession leaves exactly one settings
/// window, in front: the second choice finds the first one's window.
pub proof fn law_open_settings_twice(shell: ShellModel, first: ShellStatus, second: ShellStatus)
    requires
        shell.settings_windows == 0,
        seen(shell, first),
        seen(performed(effect_of(MenuAction::OpenSettings, first), shell), second),
    ensures
        effect_of(MenuAction::OpenSettings, first) == EffectView::CreateSettingsWindow,
        effect_of(MenuAction::OpenSettings, second) == EffectView::FocusSettingsWindow,
        performed(
            effect_of(MenuAction::OpenSettings, second),
            performed(effect_of(MenuAction::OpenSettings, first), shell),
        ).settings_windows == 1,
        performed(
            effect_of(MenuAction::OpenSettings, second),
            performed(effect_of(MenuAction::OpenSettings, first), shell),
        ).settings_focused,
{
}

/// No menu entry ever leads to a second settings window.
pub proof fn law_never_two_settings_windows(
    shell: ShellModel,
    status: ShellStatus,
    action: MenuAction,
)
    requires
        shell.settings_windows <= 1,
        seen(shell, status),
    ensures
        performed(effect_of(action, status), shell).settings_windows <= 1,
{
}

/// Where nothing is saved, "use saved URL" does nothing, whatever the
/// windows are.
pub proof fn law_nothing_saved_nothing_loaded(status: ShellStatus)
    requires
        status.config_text is None,
    ensures
        saved_url_read(text_view(status.config_text)) is None,
        effect_of(MenuAction::UseSavedUrl, status) == EffectView::Nothing,
{
}

/// After "clear saved URL" nothing is saved: no file is left, reading gives
/// no URL, and "use saved URL" does nothing. Clearing is decided without a
/// look at the file, so it is the same whether or not there is one, and a
/// second clearing changes nothing.
pub proof fn law_clear_forgets(shell: ShellModel, status: ShellStatus, later: ShellStatus)
    requires
        status.config_dir_known,
        seen(shell, status),
        seen(performed(effect_of(MenuAction::ClearSavedUrl, status), shell), later),
        later.config_dir_known,
    ensures
        effect_of(MenuAction::ClearSavedUrl, status) == EffectView::DeleteConfigFile,
        performed(effect_of(MenuAction::ClearSavedUrl, status), shell).config_file is None,
        saved_url_read(text_view(later.config_text)) is None,
        effect_of(MenuAction::UseSavedUrl, later) == EffectView::Nothing,
        performed(
            effect_of(MenuAction::ClearSavedUrl, later),
            performed(effect_of(MenuAction::ClearSavedUrl, status), shell),
        ) == performed(effect_of(MenuAction::ClearSavedUrl, status), shell),
{
}

} // verus!
