use vstd::prelude::*;

use crate::error::BridgeError;
use crate::text::str_equal;

verus! {

/// The operating system the application runs on, resolved once at startup.
#[derive(Debug, Clone, Copy, PartialEq, Eq, Structural)]
pub enum Platform {
    MacOs,
    Windows,
    Linux,
    Other,
}

/// The platform that an operating-system name (as Rust's `OS` constant
/// writes it) stands for.
pub open spec fn platform_of(os: Seq<char>) -> Platform {
    if os == "macos"@ {
        Platform::MacOs
    } else if os == "windows"@ {
        Platform::Windows
    } else if os == "linux"@ {
        Platform::Linux
    } else {
        Platform::Other
    }
}

impl Platform {
    pub fn from_os_name(os: &str) -> (r: Platform)
        ensures
            r == platform_of(os@),
    {
        if str_equal(os, "macos") {
            Platform::MacOs
        } else if str_equal(os, "windows") {
            Platform::Windows
        } else if str_equal(os, "linux") {
            Platform::Linux
        } else {
            Platform::Other
        }
    }
}

/// The directory, under the bundled resources, that holds the bridge
/// executable.
pub const BRIDGE_BINARY_DIR: &'static str = "binaries";

/// The directory, under the bundled resources, that holds the plugin, and
/// its name once installed.
pub const PLUGIN_DIR_NAME: &'static str = "AbletonOSC";

/// The file name of the bridge executable on a platform.
pub open spec fn bridge_binary_name_of(p: Platform) -> Seq<char> {
    if p == Platform::Windows {
        "mission-control-bridge.exe"@
    } else {
        "mission-control-bridge"@
    }
}

pub fn bridge_binary_name(p: Platform) -> (r: &'static str)
    ensures
        r@ == bridge_binary_name_of(p),
{
    match p {
        Platform::Windows => "mission-control-bridge.exe",
        _ => "mission-control-bridge",
    }
}

/// Where the plugin directory goes, relative to the user's home directory;
/// `None` on a platform with no known location.
pub open spec fn plugin_parent_of(p: Platform) -> Option<Seq<char>> {
    match p {
        Platform::MacOs => Some("Music/Ableton/User Library/Remote Scripts"@),
        Platform::Windows => Some("Documents/Ableton/User Library/Remote Scripts"@),
        _ => None,
    }
}

/// The directory that receives the plugin, relative to the user's home
/// directory. It fails with `UnsupportedPlatform` where none is known.
pub fn plugin_parent_dir(p: Platform) -> (r: Result<&'static str, BridgeError>)
    ensures
        match plugin_parent_of(p) {
            Some(dir) => r is Ok && r->Ok_0@ == dir,
            None => r == Err::<&'static str, BridgeError>(BridgeError::UnsupportedPlatform),
        },
{
    match p {
        Platform::MacOs => Ok("Music/Ableton/User Library/Remote Scripts"),
        Platform::Windows => Ok("Documents/Ableton/User Library/Remote Scripts"),
        _ => Err(BridgeError::UnsupportedPlatform),
    }
}

/// One filesystem step of installing the plugin.
#[derive(Debug, Clone, Copy, PartialEq, Eq, Structural)]
pub enum InstallStep {
    /// Create the directory that receives the plugin, with its parents.
    CreateParent,
    /// Remove the installed plugin's whole directory tree.
    RemovePrevious,
    /// Copy the bundled plugin's directory tree into place.
    CopyBundled,
}

/// The steps of an install, in order: an earlier install is removed whole
/// before the copy, so that nothing of it remains.
pub open spec fn install_steps(previous_exists: bool) -> Seq<InstallStep> {
    if previous_exists {
        seq![InstallStep::CreateParent, InstallStep::RemovePrevious, InstallStep::CopyBundled]
    } else {
        seq![InstallStep::CreateParent, InstallStep::CopyBundled]
    }
}

pub fn install_plan(previous_exists: bool) -> (r: Vec<InstallStep>)
    ensures
        r@ == install_steps(previous_exists),
{
    let mut steps: Vec<InstallStep> = Vec::new();
    steps.push(InstallStep::CreateParent);
    if previous_exists {
        steps.push(InstallStep::RemovePrevious);
    }
    steps.push(InstallStep::CopyBundled);
    assert(steps@ =~= install_steps(previous_exists));
    steps
}

/// The text that opens the report of a failed step.
pub open spec fn step_failure_prefix(step: InstallStep) -> Seq<char> {
    match step {
        InstallStep::CreateParent => "Could not create Remote Scripts directory: "@,
        InstallStep::RemovePrevious => "Could not remove existing installation: "@,
        InstallStep::CopyBundled => "Could not copy the plugin: "@,
    }
}

/// The error that a failed install step is reported as, with its cause.
pub fn install_step_failed(step: InstallStep, cause: &str) -> (r: BridgeError)
    ensures
        r is FilesystemCopyFailed,
        r->FilesystemCopyFailed_0@ == step_failure_prefix(step) + cause@,
{
    let mut message = match step {
        InstallStep::CreateParent => String::from_str("Could not create Remote Scripts directory: "),
        InstallStep::RemovePrevious => String::from_str("Could not remove existing installation: "),
        InstallStep::CopyBundled => String::from_str("Could not copy the plugin: "),
    };
    message.append(cause);
    BridgeError::FilesystemCopyFailed(message)
}

} // verus!
