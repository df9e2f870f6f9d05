//! The entries that the Jira window adds to its system menu, and how a
//! `WM_SYSCOMMAND` is told apart: its low four bits are reserved to the
//! system, so a command is compared with them masked off.
use vstd::prelude::*;

verus! {

/// Command id of the "open settings" entry (low four bits zero).
pub const OPEN_SETTINGS_COMMAND: usize = 0x0010;

/// Command id of the "reload" entry (low four bits zero).
pub const RELOAD_COMMAND: usize = 0x0020;

/// What a system command asks of the Jira window.
#[derive(Debug, PartialEq, Eq, Structural)]
pub enum SysCommand {
    /// Show the settings window.
    OpenSettings,
    /// Reload the Jira page.
    Reload,
    /// A command of the system itself: pass it on.
    Other,
}

/// The command id of a `WM_SYSCOMMAND` parameter, reserved bits cleared.
pub open spec fn command_id(wparam: usize) -> usize {
    wparam & 0xFFF0
}

/// Tells apart the `WM_SYSCOMMAND` that the entries of the Jira window send,
/// by the parameter with its reserved low four bits masked off.
pub fn syscommand_action(wparam: usize) -> (r: SysCommand)
    ensures
        (r == SysCommand::OpenSettings) == (command_id(wparam) == OPEN_SETTINGS_COMMAND),
        (r == SysCommand::Reload) == (command_id(wparam) == RELOAD_COMMAND),
{
    let id = wparam & 0xFFF0;
    if id == OPEN_SETTINGS_COMMAND {
        SysCommand::OpenSettings
    } else if id == RELOAD_COMMAND {
        SysCommand::Reload
    } else {
        SysCommand::Other
    }
}

/// The command id is the parameter with its low four bits cleared and
/// everything above bit 15 dropped: "open settings" is answered exactly when
/// that is 0x10, "reload" exactly when it is 0x20, and nothing else is.
pub proof fn lemma_command_id_is_masked_parameter(wparam: usize)
    ensures
        command_id(wparam) == wparam & 0xFFF0,
        OPEN_SETTINGS_COMMAND == 0x10,
        RELOAD_COMMAND == 0x20,
{
}

/// The reserved low four bits never change which entry a command means.
pub proof fn lemma_reserved_bits_ignored(wparam: usize, low: usize)
    requires
        low < 16,
    ensures
        command_id(wparam | low) == command_id(wparam),
        command_id(OPEN_SETTINGS_COMMAND | low) == OPEN_SETTINGS_COMMAND,
        command_id(RELOAD_COMMAND | low) == RELOAD_COMMAND,
{
    assert((wparam | low) & 0xFFF0 == wparam & 0xFFF0) by (bit_vector)
        requires
            low < 16,
    ;
    assert((0x0010usize | low) & 0xFFF0 == 0x0010usize) by (bit_vector)
        requires
            low < 16,
    ;
    assert((0x0020usize | low) & 0xFFF0 == 0x0020usize) by (bit_vector)
        requires
            low < 16,
    ;
}

} // verus!
