//! The notices by which running windows learn that the theme changed.

use vstd::prelude::*;

verus! {

/// The setting that a settings-changed notice names.
pub const COLOR_SET: &'static str = "ImmersiveColorSet";

/// The message that tells a window that a system-wide setting changed.
pub const WM_SETTINGCHANGE: u32 = 0x001A;

/// The message that tells a window that the theme changed.
pub const WM_THEMECHANGED: u32 = 0x031A;

/// The message that tells a window that a system colour changed.
pub const WM_SYSCOLORCHANGE: u32 = 0x0015;

/// The send flag that gives up on a window that does not respond.
pub const SMTO_ABORTIFHUNG: u32 = 0x0002;

/// How long a broadcast waits for each window, in milliseconds.
pub const WAIT_MS: u32 = 100;

/// A notice that can be broadcast to all top-level windows.
#[derive(Clone, Copy, Debug, PartialEq, Eq, Structural)]
pub enum Notice {
    /// A setting changed; names [`COLOR_SET`].
    SettingChange,
    /// The theme changed.
    ThemeChanged,
    /// A system colour changed.
    SysColorChange,
}

impl Notice {
    /// The message code of the notice.
    pub open spec fn spec_message(self) -> u32 {
        match self {
            Notice::SettingChange => WM_SETTINGCHANGE,
            Notice::ThemeChanged => WM_THEMECHANGED,
            Notice::SysColorChange => WM_SYSCOLORCHANGE,
        }
    }

    /// The setting that the notice names, if it names one.
    pub open spec fn spec_setting(self) -> Option<Seq<char>> {
        match self {
            Notice::SettingChange => Some(COLOR_SET@),
            _ => None,
        }
    }

    /// The message code of the notice.
    pub fn message(self) -> (code: u32)
        ensures
            code == self.spec_message(),
    {
        match self {
            Notice::SettingChange => WM_SETTINGCHANGE,
            Notice::ThemeChanged => WM_THEMECHANGED,
            Notice::SysColorChange => WM_SYSCOLORCHANGE,
        }
    }

    /// The setting that the notice names, to go with the message as a wide
    /// string; a notice that names none carries zero in its place.
    pub fn setting(self) -> (name: Option<&'static str>)
        ensures
            name is Some <==> self == Notice::SettingChange,
            match name {
                Some(text) => self.spec_setting() == Some(text@),
                None => self.spec_setting() is None,
            },
    {
        match self {
            Notice::SettingChange => Some(COLOR_SET),
            _ => None,
        }
    }
}

/// The notices beyond the settings-changed one. Windows repaint without
/// them, so both are off unless asked for.
#[derive(Clone, Copy, Debug, PartialEq, Eq, Structural)]
pub struct Extras {
    /// Also broadcast that the theme changed.
    pub theme_changed: bool,
    /// Also broadcast that a system colour changed.
    pub sys_color_change: bool,
}

impl Extras {
    /// The notices of a run, in the order in which they are broadcast.
    pub open spec fn planned(self) -> Seq<Notice> {
        seq![Notice::SettingChange] + (if self.theme_changed {
            seq![Notice::ThemeChanged]
        } else {
            Seq::empty()
        }) + (if self.sys_color_change {
            seq![Notice::SysColorChange]
        } else {
            Seq::empty()
        })
    }

    /// Whether a run broadcasts the notice.
    pub open spec fn plans(self, notice: Notice) -> bool {
        match notice {
            Notice::SettingChange => true,
            Notice::ThemeChanged => self.theme_changed,
            Notice::SysColorChange => self.sys_color_change,
        }
    }

    /// The notice to broadcast after `notice`, if any is left.
    pub open spec fn spec_following(self, notice: Notice) -> Option<Notice> {
        match notice {
            Notice::SettingChange => if self.theme_changed {
                Some(Notice::ThemeChanged)
            } else if self.sys_color_change {
                Some(Notice::SysColorChange)
            } else {
                None
            },
            Notice::ThemeChanged => if self.sys_color_change {
                Some(Notice::SysColorChange)
            } else {
                None
            },
            Notice::SysColorChange => None,
        }
    }

    /// No extra notice: only the settings-changed one is broadcast.
    pub fn none() -> (extras: Extras)
        ensures
            !extras.theme_changed,
            !extras.sys_color_change,
            extras.planned() == seq![Notice::SettingChange],
    {
        Extras { theme_changed: false, sys_color_change: false }
    }

    /// The notice to broadcast after `notice`, if any is left.
    pub fn following(&self, notice: Notice) -> (next: Option<Notice>)
        ensures
            next == self.spec_following(notice),
            next matches Some(n) ==> self.plans(n),
    {
        match notice {
            Notice::SettingChange => {
                if self.theme_changed {
                    Some(Notice::ThemeChanged)
                } else if self.sys_color_change {
                    Some(Notice::SysColorChange)
                } else {
                    None
                }
            },
            Notice::ThemeChanged => {
                if self.sys_color_change {
                    Some(Notice::SysColorChange)
                } else {
                    None
                }
            },
            Notice::SysColorChange => None,
        }
    }
}

/// Following the notices from the first one walks through the planned
/// ones in order: a planned notice is followed by the planned notice after
/// it, and the last one by none.
pub proof fn following_walks_the_plan(extras: Extras, i: int)
    requires
        0 <= i < extras.planned().len(),
    ensures
        extras.plans(extras.planned()[i]),
        i + 1 < extras.planned().len() ==> extras.spec_following(extras.planned()[i]) == Some(
            extras.planned()[i + 1],
        ),
        i + 1 == extras.planned().len() ==> extras.spec_following(extras.planned()[i]) is None,
{
}

} // verus!
