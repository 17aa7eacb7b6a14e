//! The registry key and values that hold the theme flags, and the numbers
//! by which the registry calls are told what to do.

use vstd::prelude::*;

verus! {

/// The personalization key, below the current user's hive.
pub const KEY_PATH: &'static str = "Software\\Microsoft\\Windows\\CurrentVersion\\Themes\\Personalize";

/// The status with which a registry call reports success.
pub const ERROR_SUCCESS: u32 = 0;

/// The access rights to ask for when a key is opened to query values.
pub const KEY_READ: u32 = 0x2_0019;

/// The access rights to ask for when a key is opened to set values.
pub const KEY_WRITE: u32 = 0x2_0006;

/// The value type of a 32-bit number.
pub const REG_DWORD: u32 = 4;

/// The size in bytes of a 32-bit number, as the calls want it stated.
pub const DWORD_SIZE: u32 = 4;

/// The two theme flags.
#[derive(Clone, Copy, Debug, PartialEq, Eq, Structural)]
pub enum Flag {
    /// Whether applications use the light theme.
    Apps,
    /// Whether the taskbar and the other system surfaces use the light theme.
    System,
}

impl Flag {
    /// The name of the flag's registry value.
    pub open spec fn spec_name(self) -> Seq<char> {
        match self {
            Flag::Apps => "AppsUseLightTheme"@,
            Flag::System => "SystemUsesLightTheme"@,
        }
    }

    /// The name of the flag's registry value.
    pub fn name(self) -> (name: &'static str)
        ensures
            name@ == self.spec_name(),
    {
        match self {
            Flag::Apps => "AppsUseLightTheme",
            Flag::System => "SystemUsesLightTheme",
        }
    }
}

/// What a key is opened for.
#[derive(Clone, Copy, Debug, PartialEq, Eq, Structural)]
pub enum Access {
    /// To query values.
    Read,
    /// To set values.
    Write,
}

impl Access {
    /// The access rights to ask for.
    pub open spec fn spec_rights(self) -> u32 {
        match self {
            Access::Read => KEY_READ,
            Access::Write => KEY_WRITE,
        }
    }

    /// The access rights to ask for.
    pub fn rights(self) -> (rights: u32)
        ensures
            rights == self.spec_rights(),
    {
        match self {
            Access::Read => KEY_READ,
            Access::Write => KEY_WRITE,
        }
    }
}

/// Whether a status reports success.
pub fn succeeded(status: u32) -> (ok: bool)
    ensures
        ok <==> status == ERROR_SUCCESS,
{
    status == ERROR_SUCCESS
}

} // verus!
