//! What is decided before windows are managed.

use vstd::prelude::*;

verus! {

/// A licence that was looked up.
#[derive(Debug)]
pub struct License {
    pub has_valid_subscription: bool,
    pub timestamp: i64,
    pub current_end_period: Option<i64>,
    pub signature: String,
}

/// The identifier of the virtual desktop that is shown, from the two places where the
/// window system may keep it. Without virtual desktops there is none.
pub fn current_virtual_desktop(of_session: Option<Vec<u8>>, of_explorer: Option<Vec<u8>>) -> (r: Option<
    Vec<u8>,
>)
    ensures
        r == (if of_session is Some {
            of_session
        } else {
            of_explorer
        }),
{
    match of_session {
        Some(id) => Some(id),
        None => of_explorer,
    }
}

/// What runs the configuration.
#[derive(Clone, Copy, Debug, PartialEq, Eq, Structural)]
pub enum ConfigurationRunner {
    Pwsh,
    PowerShell,
    AutoHotkey,
}

/// Which configurations there are, and what could run them.
#[derive(Clone, Copy, Debug, PartialEq, Eq, Structural)]
pub struct ConfigurationFiles {
    pub has_powershell_script: bool,
    pub has_pwsh: bool,
    pub has_autohotkey_script: bool,
    pub has_autohotkey: bool,
}

/// Choose what runs the configuration: a PowerShell script comes first, and a newer
/// PowerShell is preferred.
pub fn load_configuration(files: ConfigurationFiles) -> (r: Option<ConfigurationRunner>)
    ensures
        r == (if files.has_powershell_script {
            if files.has_pwsh {
                Some(ConfigurationRunner::Pwsh)
            } else {
                Some(ConfigurationRunner::PowerShell)
            }
        } else if files.has_autohotkey_script && files.has_autohotkey {
            Some(ConfigurationRunner::AutoHotkey)
        } else {
            None
        }),
{
    if files.has_powershell_script {
        if files.has_pwsh {
            Some(ConfigurationRunner::Pwsh)
        } else {
            Some(ConfigurationRunner::PowerShell)
        }
    } else if files.has_autohotkey_script && files.has_autohotkey {
        Some(ConfigurationRunner::AutoHotkey)
    } else {
        None
    }
}

/// Whether a device that is managed by an organisation is shown a notice, and for which
/// server: a server without a name is left out. Where it cannot be found out whether the
/// notice is due, it is shown.
pub fn splash_server(is_enrolled: bool, is_due: Option<bool>, server: Option<String>, is_blank: bool) -> (r: Option<
    Option<String>,
>)
    ensures
        r == (if is_enrolled && is_due != Some(false) {
            Some(
                if is_blank {
                    None
                } else {
                    server
                },
            )
        } else {
            None
        }),
{
    let due = match is_due {
        Some(due) => due,
        None => true,
    };
    if is_enrolled && due {
        if is_blank {
            Some(None)
        } else {
            Some(server)
        }
    } else {
        None
    }
}

} // verus!
