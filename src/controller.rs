use vstd::prelude::*;

use crate::text::{decimal, push_decimal, str_equal};

verus! {

/// The port of the web interface in a development build (its dev server).
pub const DEV_UI_PORT: u16 = 5173;

/// The port of the web interface in a packaged build (the bridge itself).
pub const RELEASE_UI_PORT: u16 = 5555;

/// The page that the help command opens.
pub const HELP_URL: &'static str = "https://github.com/ryangavin/mission-control/blob/main/docs/MANUAL.md";

/// The page that the donate command opens.
pub const DONATE_URL: &'static str = "https://ko-fi.com/ryangavin";

/// A command of the tray menu.
#[derive(Debug, Clone, Copy, PartialEq, Eq, Structural)]
pub enum MenuCommand {
    OpenUi,
    ShowPairing,
    InstallPlugin,
    ToggleAutostart,
    CheckUpdates,
    ToggleBridge,
    Help,
    Donate,
    Quit,
}

/// The command that a menu item's identifier names, if any.
pub open spec fn command_of(id: Seq<char>) -> Option<MenuCommand> {
    if id == "open_ui"@ {
        Some(MenuCommand::OpenUi)
    } else if id == "show_qr"@ || id == "show_pairing"@ {
        Some(MenuCommand::ShowPairing)
    } else if id == "install_script"@ {
        Some(MenuCommand::InstallPlugin)
    } else if id == "autostart"@ {
        Some(MenuCommand::ToggleAutostart)
    } else if id == "check_updates"@ {
        Some(MenuCommand::CheckUpdates)
    } else if id == "start_stop"@ {
        Some(MenuCommand::ToggleBridge)
    } else if id == "help"@ {
        Some(MenuCommand::Help)
    } else if id == "donate"@ {
        Some(MenuCommand::Donate)
    } else if id == "quit"@ {
        Some(MenuCommand::Quit)
    } else {
        None
    }
}

/// Reads a menu item's identifier; an unknown one names no command.
pub fn parse_command(id: &str) -> (r: Option<MenuCommand>)
    ensures
        r == command_of(id@),
{
    if str_equal(id, "open_ui") {
        Some(MenuCommand::OpenUi)
    } else if str_equal(id, "show_qr") || str_equal(id, "show_pairing") {
        Some(MenuCommand::ShowPairing)
    } else if str_equal(id, "install_script") {
        Some(MenuCommand::InstallPlugin)
    } else if str_equal(id, "autostart") {
        Some(MenuCommand::ToggleAutostart)
    } else if str_equal(id, "check_updates") {
        Some(MenuCommand::CheckUpdates)
    } else if str_equal(id, "start_stop") {
        Some(MenuCommand::ToggleBridge)
    } else if str_equal(id, "help") {
        Some(MenuCommand::Help)
    } else if str_equal(id, "donate") {
        Some(MenuCommand::Donate)
    } else if str_equal(id, "quit") {
        Some(MenuCommand::Quit)
    } else {
        None
    }
}

/// What the application knows when a command arrives.
#[derive(Debug, Clone, Copy, PartialEq, Eq, Structural)]
pub struct MenuContext {
    /// A pairing window is open.
    pub pairing_window_open: bool,
    /// The bridge runs.
    pub bridge_running: bool,
    /// Whether launch at login is registered; `None` where the capability
    /// is not available.
    pub autostart_enabled: Option<bool>,
}

/// What the application is to do for a command.
#[derive(Debug, Clone, PartialEq, Eq)]
pub enum MenuAction {
    /// Open this address in the default browser.
    OpenUrl(String),
    /// Bring the open pairing window to the front.
    FocusPairingWindow,
    /// Compute the pairing address, generate its code and present it.
    ShowPairing,
    /// Copy the bundled plugin into its install directory.
    InstallPlugin,
    /// Register (`true`) or unregister (`false`) launch at login.
    SetAutostart(bool),
    /// Look for an update in the background.
    CheckForUpdates,
    /// Start the bridge.
    StartBridge,
    /// Stop the bridge.
    StopBridge,
    /// Stop the bridge, then end the application with this exit code.
    StopAndExit(i32),
    /// Nothing.
    Nothing,
}

/// Whether an exit request goes ahead.
#[derive(Debug, Clone, Copy, PartialEq, Eq, Structural)]
pub enum ExitDecision {
    /// The application stays, hidden in the tray.
    Veto,
    /// The application ends.
    Proceed,
}

/// The address of the web interface on this machine.
pub open spec fn local_ui_url(port: u16) -> Seq<char> {
    "http://localhost:"@ + decimal(port as nat)
}

/// Builds the address of the web interface on this machine.
pub fn local_ui_address(port: u16) -> (r: String)
    ensures
        r@ == local_ui_url(port),
{
    let mut s = String::from_str("http://localhost:");
    push_decimal(&mut s, port as u32);
    s
}

/// The action for a command, given the context and the interface's port.
pub open spec fn action_matches(port: u16, cmd: MenuCommand, ctx: MenuContext, a: MenuAction) -> bool {
    match cmd {
        MenuCommand::OpenUi => a is OpenUrl && a->OpenUrl_0@ == local_ui_url(port),
        MenuCommand::ShowPairing => a == if ctx.pairing_window_open {
            MenuAction::FocusPairingWindow
        } else {
            MenuAction::ShowPairing
        },
        MenuCommand::InstallPlugin => a == MenuAction::InstallPlugin,
        MenuCommand::ToggleAutostart => a == match ctx.autostart_enabled {
            Some(enabled) => MenuAction::SetAutostart(!enabled),
            None => MenuAction::Nothing,
        },
        MenuCommand::CheckUpdates => a == MenuAction::CheckForUpdates,
        MenuCommand::ToggleBridge => a == if ctx.bridge_running {
            MenuAction::StopBridge
        } else {
            MenuAction::StartBridge
        },
        MenuCommand::Help => a is OpenUrl && a->OpenUrl_0@ == HELP_URL@,
        MenuCommand::Donate => a is OpenUrl && a->OpenUrl_0@ == DONATE_URL@,
        MenuCommand::Quit => a == MenuAction::StopAndExit(0),
    }
}

/// The quit flag after a run of commands, from the flag before it.
pub open spec fn quit_flag_after(flag: bool, cmds: Seq<MenuCommand>) -> bool
    decreases cmds.len(),
{
    if cmds.len() == 0 {
        flag
    } else {
        quit_flag_after(flag || cmds[0] == MenuCommand::Quit, cmds.drop_first())
    }
}

/// What an exit request gets with the quit flag as given.
pub open spec fn exit_decision_for(flag: bool) -> ExitDecision {
    if flag {
        ExitDecision::Proceed
    } else {
        ExitDecision::Veto
    }
}

/// After any run of commands from a fresh controller, an exit request
/// proceeds exactly when one of them was `Quit`, and is vetoed otherwise.
pub proof fn lemma_exit_proceeds_only_after_quit(cmds: Seq<MenuCommand>)
    ensures
        quit_flag_after(false, cmds) == cmds.contains(MenuCommand::Quit),
        exit_decision_for(quit_flag_after(false, cmds)) == (if cmds.contains(MenuCommand::Quit) {
            ExitDecision::Proceed
        } else {
            ExitDecision::Veto
        }),
{
    lemma_quit_flag_after(false, cmds);
}

proof fn lemma_quit_flag_after(flag: bool, cmds: Seq<MenuCommand>)
    ensures
        quit_flag_after(flag, cmds) == (flag || cmds.contains(MenuCommand::Quit)),
    decreases cmds.len(),
{
    if cmds.len() > 0 {
        lemma_quit_flag_after(flag || cmds[0] == MenuCommand::Quit, cmds.drop_first());
        if cmds.drop_first().contains(MenuCommand::Quit) {
            let i = choose|i: int| 0 <= i < cmds.drop_first().len() && cmds.drop_first()[i] == MenuCommand::Quit;
            assert(cmds[i + 1] == MenuCommand::Quit);
        }
        if cmds.contains(MenuCommand::Quit) && cmds[0] != MenuCommand::Quit {
            let i = choose|i: int| 0 <= i < cmds.len() && cmds[i] == MenuCommand::Quit;
            assert(cmds.drop_first()[i - 1] == MenuCommand::Quit);
        }
        if cmds[0] == MenuCommand::Quit {
            assert(cmds.contains(MenuCommand::Quit)) by {
                assert(cmds[0] == MenuCommand::Quit);
            }
        }
    }
}

/// The tray's control state: the port of the web interface, and whether the
/// user asked to quit.
pub struct Controller {
    port: u16,
    quit_requested: bool,
}

impl Controller {
    pub closed spec fn port_spec(&self) -> u16 {
        self.port
    }

    /// The user has issued an explicit quit.
    pub closed spec fn quit_flag(&self) -> bool {
        self.quit_requested
    }

    /// A controller for the web interface on `port`, with no quit asked for.
    pub fn new(port: u16) -> (r: Self)
        ensures
            r.port_spec() == port,
            !r.quit_flag(),
    {
        Controller { port, quit_requested: false }
    }

    pub fn port(&self) -> (r: u16)
        ensures
            r == self.port_spec(),
    {
        self.port
    }

    pub fn quit_requested(&self) -> (r: bool)
        ensures
            r == self.quit_flag(),
    {
        self.quit_requested
    }

    /// The action for a command. Only `Quit` changes the controller: it
    /// records that the user asked to quit.
    pub fn handle(&mut self, cmd: MenuCommand, ctx: MenuContext) -> (r: MenuAction)
        ensures
            action_matches(old(self).port_spec(), cmd, ctx, r),
            final(self).port_spec() == old(self).port_spec(),
            final(self).quit_flag() == (old(self).quit_flag() || cmd == MenuCommand::Quit),
    {
        match cmd {
            MenuCommand::OpenUi => MenuAction::OpenUrl(local_ui_address(self.port)),
            MenuCommand::ShowPairing => {
                if ctx.pairing_window_open {
                    MenuAction::FocusPairingWindow
                } else {
                    MenuAction::ShowPairing
                }
            },
            MenuCommand::InstallPlugin => MenuAction::InstallPlugin,
            MenuCommand::ToggleAutostart => match ctx.autostart_enabled {
                Some(enabled) => MenuAction::SetAutostart(!enabled),
                None => MenuAction::Nothing,
            },
            MenuCommand::CheckUpdates => MenuAction::CheckForUpdates,
            MenuCommand::ToggleBridge => {
                if ctx.bridge_running {
                    MenuAction::StopBridge
                } else {
                    MenuAction::StartBridge
                }
            },
            MenuCommand::Help => MenuAction::OpenUrl(String::from_str(HELP_URL)),
            MenuCommand::Donate => MenuAction::OpenUrl(String::from_str(DONATE_URL)),
            MenuCommand::Quit => {
                self.quit_requested = true;
                MenuAction::StopAndExit(0)
            },
        }
    }

    /// An exit request is vetoed unless the user asked to quit.
    pub fn on_exit_requested(&self) -> (r: ExitDecision)
        ensures
            r == exit_decision_for(self.quit_flag()),
    {
        if self.quit_requested {
            ExitDecision::Proceed
        } else {
            ExitDecision::Veto
        }
    }
}

} // verus!
