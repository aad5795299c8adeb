//! Which part of the interface is shown.
use vstd::prelude::*;

verus! {

/// The top-level view: server channels or direct messages.
#[derive(Debug, Clone, Copy, PartialEq, Eq, Structural)]
pub enum AppView {
    Servers,
    DirectMessages,
}

/// The pages of the user settings dialog.
#[derive(Debug, Clone, Copy, PartialEq, Eq, Structural)]
pub enum SettingsScreen {
    Account,
    Appearance,
    Notifications,
    Privacy,
    Keybindings,
    Language,
    About,
}

impl SettingsScreen {
    /// The page's title in the sidebar.
    pub fn label(&self) -> (r: &'static str)
        ensures
            r@ == match *self {
                SettingsScreen::Account => "My Account"@,
                SettingsScreen::Appearance => "Appearance"@,
                SettingsScreen::Notifications => "Notifications"@,
                SettingsScreen::Privacy => "Privacy & Safety"@,
                SettingsScreen::Keybindings => "Keybindings"@,
                SettingsScreen::Language => "Language"@,
                SettingsScreen::About => "About"@,
            },
    {
        match self {
            SettingsScreen::Account => "My Account",
            SettingsScreen::Appearance => "Appearance",
            SettingsScreen::Notifications => "Notifications",
            SettingsScreen::Privacy => "Privacy & Safety",
            SettingsScreen::Keybindings => "Keybindings",
            SettingsScreen::Language => "Language",
            SettingsScreen::About => "About",
        }
    }
}

/// The pages of the server settings dialog.
#[derive(Debug, Clone, Copy, PartialEq, Eq, Structural)]
pub enum ServerSettingsScreen {
    Overview,
    Roles,
    Channels,
    Members,
}

impl ServerSettingsScreen {
    /// The page's title in the sidebar.
    pub fn label(&self) -> (r: &'static str)
        ensures
            r@ == match *self {
                ServerSettingsScreen::Overview => "Overview"@,
                ServerSettingsScreen::Roles => "Roles"@,
                ServerSettingsScreen::Channels => "Channels"@,
                ServerSettingsScreen::Members => "Members"@,
            },
    {
        match self {
            ServerSettingsScreen::Overview => "Overview",
            ServerSettingsScreen::Roles => "Roles",
            ServerSettingsScreen::Channels => "Channels",
            ServerSettingsScreen::Members => "Members",
        }
    }
}

} // verus!
