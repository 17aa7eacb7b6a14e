//! One run of the switch, as a machine that asks for one outside call at a
//! time and decides the next from what the call returned.
//!
//! The caller owns the registry handle and the window messaging. It
//! performs [`Toggler::request`], wraps what came back in a [`Reply`], and
//! hands it to [`Toggler::advance`], until the request is
//! [`Request::Exit`].

use vstd::prelude::*;
use crate::notice::Extras;
use crate::notice::Notice;
use crate::registry::Access;
use crate::registry::Flag;
use crate::registry::succeeded;
use crate::registry::ERROR_SUCCESS;
use crate::toggle::next_flag;
use crate::toggle::successor;

verus! {

/// The exit code of a run. No failure of a registry call or of a broadcast
/// changes it.
pub const EXIT_OK: i32 = 0;

/// An outside call that the machine asks its caller to perform.
#[derive(Clone, Copy, Debug, PartialEq, Eq)]
pub enum Request {
    /// Open the personalization key of the current user.
    OpenKey { access: Access },
    /// Query a flag through the open key, as a 32-bit number.
    QueryValue { flag: Flag },
    /// Set a flag through the open key, as a 32-bit number.
    SetValue { flag: Flag, value: u32 },
    /// Close the open key.
    CloseKey,
    /// Send a notice to all top-level windows, waiting
    /// [`WAIT_MS`](crate::notice::WAIT_MS) for each and giving up on one
    /// that does not respond.
    Broadcast { notice: Notice },
    /// End the process.
    Exit { code: i32 },
}

/// What an outside call returned.
#[derive(Clone, Copy, Debug, PartialEq, Eq)]
pub enum Reply {
    /// The status of opening a key, setting a value or closing a key.
    Status(u32),
    /// The status of a query, and the number it stored on success.
    Value { status: u32, data: u32 },
    /// The result of a broadcast: zero when it failed or timed out.
    Sent(isize),
}

impl Reply {
    /// Whether the reply is of the kind that the request is answered with.
    pub open spec fn answers(self, request: Request) -> bool {
        match request {
            Request::OpenKey { .. } | Request::SetValue { .. } | Request::CloseKey => self is Status,
            Request::QueryValue { .. } => self is Value,
            Request::Broadcast { .. } => self is Sent,
            Request::Exit { .. } => false,
        }
    }

    /// Whether the reply reports that the call succeeded.
    pub open spec fn ok(self) -> bool {
        match self {
            Reply::Status(status) => status == ERROR_SUCCESS,
            Reply::Value { status, .. } => status == ERROR_SUCCESS,
            Reply::Sent(result) => result != 0,
        }
    }

    /// The number that the reply delivers: that of a successful query.
    pub open spec fn value(self) -> Option<u32> {
        match self {
            Reply::Value { status, data } => if status == ERROR_SUCCESS {
                Some(data)
            } else {
                None
            },
            _ => None,
        }
    }
}

/// Where the use of a key stands.
#[derive(Clone, Copy, Debug, PartialEq, Eq, Structural)]
pub enum Stage {
    /// The key is being opened.
    Open,
    /// The key is open and its value is being queried or set.
    Use,
    /// The key is being closed.
    Close,
}

/// Where a run stands: which outside call is awaited.
#[derive(Clone, Copy, Debug, PartialEq, Eq, Structural)]
pub enum Phase {
    /// Reading the current flag.
    Reading(Stage),
    /// Writing the new flag to one of the two values.
    Writing(Flag, Stage),
    /// Broadcasting a notice.
    Notifying(Notice),
    /// Nothing is left but to exit.
    Finished,
}

impl Phase {
    /// The position of the phase in a run. Every answered request moves
    /// the run to a later phase.
    pub open spec fn rank(self) -> nat {
        match self {
            Phase::Reading(Stage::Open) => 0,
            Phase::Reading(Stage::Use) => 1,
            Phase::Reading(Stage::Close) => 2,
            Phase::Writing(Flag::Apps, Stage::Open) => 3,
            Phase::Writing(Flag::Apps, Stage::Use) => 4,
            Phase::Writing(Flag::Apps, Stage::Close) => 5,
            Phase::Writing(Flag::System, Stage::Open) => 6,
            Phase::Writing(Flag::System, Stage::Use) => 7,
            Phase::Writing(Flag::System, Stage::Close) => 8,
            Phase::Notifying(Notice::SettingChange) => 9,
            Phase::Notifying(Notice::ThemeChanged) => 10,
            Phase::Notifying(Notice::SysColorChange) => 11,
            Phase::Finished => 12,
        }
    }

    /// The access with which a key is held open in this phase, if one is.
    pub open spec fn holds(self) -> Option<Access> {
        match self {
            Phase::Reading(Stage::Use) | Phase::Reading(Stage::Close) => Some(Access::Read),
            Phase::Writing(_, Stage::Use) | Phase::Writing(_, Stage::Close) => Some(Access::Write),
            _ => None,
        }
    }

    /// The phase that follows once a flag has been dealt with, written or
    /// not: the other flag after the first, the notices after the second.
    pub open spec fn spec_after_flag(flag: Flag) -> Phase {
        match flag {
            Flag::Apps => Phase::Writing(Flag::System, Stage::Open),
            Flag::System => Phase::Notifying(Notice::SettingChange),
        }
    }

    /// The phase that follows when the awaited call has returned, `ok`
    /// telling whether it succeeded. Only the opening of a key leads
    /// somewhere else on failure: the use and the closing of that key are
    /// left out.
    pub open spec fn next(self, ok: bool, extras: Extras) -> Phase {
        match self {
            Phase::Reading(Stage::Open) => if ok {
                Phase::Reading(Stage::Use)
            } else {
                Phase::Writing(Flag::Apps, Stage::Open)
            },
            Phase::Reading(Stage::Use) => Phase::Reading(Stage::Close),
            Phase::Reading(Stage::Close) => Phase::Writing(Flag::Apps, Stage::Open),
            Phase::Writing(flag, Stage::Open) => if ok {
                Phase::Writing(flag, Stage::Use)
            } else {
                Phase::spec_after_flag(flag)
            },
            Phase::Writing(flag, Stage::Use) => Phase::Writing(flag, Stage::Close),
            Phase::Writing(flag, Stage::Close) => Phase::spec_after_flag(flag),
            Phase::Notifying(notice) => match extras.spec_following(notice) {
                Some(more) => Phase::Notifying(more),
                None => Phase::Finished,
            },
            Phase::Finished => Phase::Finished,
        }
    }

    fn after_flag(flag: Flag) -> (phase: Phase)
        ensures
            phase == Phase::spec_after_flag(flag),
    {
        match flag {
            Flag::Apps => Phase::Writing(Flag::System, Stage::Open),
            Flag::System => Phase::Notifying(Notice::SettingChange),
        }
    }
}

/// The state of a run.
#[derive(Clone, Copy, Debug, PartialEq, Eq)]
pub struct Toggler {
    /// Which outside call is awaited.
    pub phase: Phase,
    /// Which extra notices the run broadcasts.
    pub extras: Extras,
    /// The flag that the query delivered; `None` before the query, and
    /// after it if the key could not be opened or the query failed.
    pub read: Option<u32>,
    /// Whether the new flag was set for applications.
    pub wrote_apps: bool,
    /// Whether the new flag was set for the system surfaces.
    pub wrote_system: bool,
}

impl Toggler {
    /// The state in which a run begins.
    pub open spec fn fresh(extras: Extras) -> Toggler {
        Toggler {
            phase: Phase::Reading(Stage::Open),
            extras,
            read: None,
            wrote_apps: false,
            wrote_system: false,
        }
    }

    /// What holds of every state that a run reaches: nothing is recorded
    /// as read or written before its call was made, and only notices of
    /// the plan are broadcast.
    pub open spec fn wf(self) -> bool {
        &&& self.phase.rank() <= 1 ==> self.read is None
        &&& self.phase.rank() <= 4 ==> !self.wrote_apps
        &&& self.phase.rank() <= 7 ==> !self.wrote_system
        &&& self.phase matches Phase::Notifying(notice) ==> self.extras.plans(notice)
    }

    /// The flag that the run writes: the complement of the flag read, or
    /// of the fallback where none was read.
    pub open spec fn target(self) -> u32 {
        successor(self.read)
    }

    /// Whether the new flag was set for `flag`.
    pub open spec fn wrote(self, flag: Flag) -> bool {
        match flag {
            Flag::Apps => self.wrote_apps,
            Flag::System => self.wrote_system,
        }
    }

    /// The outside call that the run awaits.
    pub open spec fn pending(self) -> Request {
        match self.phase {
            Phase::Reading(Stage::Open) => Request::OpenKey { access: Access::Read },
            Phase::Reading(Stage::Use) => Request::QueryValue { flag: Flag::Apps },
            Phase::Writing(_, Stage::Open) => Request::OpenKey { access: Access::Write },
            Phase::Writing(flag, Stage::Use) => Request::SetValue { flag, value: self.target() },
            Phase::Reading(Stage::Close) | Phase::Writing(_, Stage::Close) => Request::CloseKey,
            Phase::Notifying(notice) => Request::Broadcast { notice },
            Phase::Finished => Request::Exit { code: EXIT_OK },
        }
    }

    /// The state after `reply` has come in. A reply that does not answer
    /// the pending request changes nothing. Otherwise the phase moves on,
    /// a query's reply is recorded as the flag read, and the reply to
    /// setting a value as whether that flag was written.
    pub open spec fn advanced(self, reply: Reply) -> Toggler {
        if reply.answers(self.pending()) {
            Toggler {
                phase: self.phase.next(reply.ok(), self.extras),
                extras: self.extras,
                read: if self.phase == Phase::Reading(Stage::Use) {
                    reply.value()
                } else {
                    self.read
                },
                wrote_apps: if self.phase == Phase::Writing(Flag::Apps, Stage::Use) {
                    reply.ok()
                } else {
                    self.wrote_apps
                },
                wrote_system: if self.phase == Phase::Writing(Flag::System, Stage::Use) {
                    reply.ok()
                } else {
                    self.wrote_system
                },
            }
        } else {
            self
        }
    }

    /// Begins a run.
    pub fn new(extras: Extras) -> (toggler: Toggler)
        ensures
            toggler == Toggler::fresh(extras),
            toggler.wf(),
            toggler.pending() == (Request::OpenKey { access: Access::Read }),
    {
        Toggler {
            phase: Phase::Reading(Stage::Open),
            extras,
            read: None,
            wrote_apps: false,
            wrote_system: false,
        }
    }

    /// Whether the run is over.
    pub fn finished(&self) -> (done: bool)
        ensures
            done <==> self.phase == Phase::Finished,
            done <==> self.pending() is Exit,
    {
        match self.phase {
            Phase::Finished => true,
            _ => false,
        }
    }

    /// The outside call to perform next.
    pub fn request(&self) -> (request: Request)
        ensures
            request == self.pending(),
    {
        match self.phase {
            Phase::Reading(stage) => match stage {
                Stage::Open => Request::OpenKey { access: Access::Read },
                Stage::Use => Request::QueryValue { flag: Flag::Apps },
                Stage::Close => Request::CloseKey,
            },
            Phase::Writing(flag, stage) => match stage {
                Stage::Open => Request::OpenKey { access: Access::Write },
                Stage::Use => Request::SetValue { flag, value: next_flag(self.read) },
                Stage::Close => Request::CloseKey,
            },
            Phase::Notifying(notice) => Request::Broadcast { notice },
            Phase::Finished => Request::Exit { code: EXIT_OK },
        }
    }

    /// Takes in what the requested call returned and moves the run on.
    pub fn advance(self, reply: Reply) -> (next: Toggler)
        ensures
            next == self.advanced(reply),
            next.extras == self.extras,
            reply.answers(self.pending()) ==> next.phase.rank() > self.phase.rank(),
            !reply.answers(self.pending()) ==> next == self,
            self.wf() ==> next.wf(),
    {
        match (self.phase, reply) {
            (Phase::Reading(Stage::Open), Reply::Status(status)) => {
                let phase = if succeeded(status) {
                    Phase::Reading(Stage::Use)
                } else {
                    Phase::Writing(Flag::Apps, Stage::Open)
                };
                Toggler { phase, ..self }
            },
            (Phase::Reading(Stage::Use), Reply::Value { status, data }) => {
                let read = if succeeded(status) {
                    Some(data)
                } else {
                    None
                };
                Toggler { phase: Phase::Reading(Stage::Close), read, ..self }
            },
            (Phase::Reading(Stage::Close), Reply::Status(_)) => {
                Toggler { phase: Phase::Writing(Flag::Apps, Stage::Open), ..self }
            },
            (Phase::Writing(flag, Stage::Open), Reply::Status(status)) => {
                let phase = if succeeded(status) {
                    Phase::Writing(flag, Stage::Use)
                } else {
                    Phase::after_flag(flag)
                };
                Toggler { phase, ..self }
            },
            (Phase::Writing(flag, Stage::Use), Reply::Status(status)) => {
                let phase = Phase::Writing(flag, Stage::Close);
                match flag {
                    Flag::Apps => Toggler { phase, wrote_apps: succeeded(status), ..self },
                    Flag::System => Toggler { phase, wrote_system: succeeded(status), ..self },
                }
            },
            (Phase::Writing(flag, Stage::Close), Reply::Status(_)) => {
                Toggler { phase: Phase::after_flag(flag), ..self }
            },
            (Phase::Notifying(notice), Reply::Sent(_)) => {
                let phase = match self.extras.following(notice) {
                    Some(more) => Phase::Notifying(more),
                    None => Phase::Finished,
                };
                Toggler { phase, ..self }
            },
            _ => self,
        }
    }
}

/// A request that works through a key is made only while the key is held,
/// opened for what the request does; a key is opened, a notice broadcast
/// and the run ended only while none is held.
pub proof fn requests_have_their_key(toggler: Toggler)
    ensures
        toggler.pending() is QueryValue ==> toggler.phase.holds() == Some(Access::Read),
        toggler.pending() is SetValue ==> toggler.phase.holds() == Some(Access::Write),
        toggler.pending() is CloseKey ==> toggler.phase.holds() is Some,
        (toggler.pending() is OpenKey || toggler.pending() is Broadcast || toggler.pending()
            is Exit) ==> toggler.phase.holds() is None,
{
}

/// The flag asked to be set is always the complement of what the read
/// stands for: dark wherever nothing was read.
pub proof fn set_value_is_the_target(toggler: Toggler)
    ensures
        toggler.pending() matches Request::SetValue { value, .. } ==> value == successor(
            toggler.read,
        ) && value <= 1 && (toggler.read is None ==> value == 0),
{
}

/// A run ends with the same exit code whatever its calls returned.
pub proof fn exit_is_always_normal(toggler: Toggler)
    ensures
        toggler.pending() matches Request::Exit { code } ==> code == EXIT_OK,
        toggler.pending() is Exit <==> toggler.phase == Phase::Finished,
{
}

/// No failure holds a run up. Whether a call succeeded matters in two
/// places only: a key that could not be opened is neither used nor
/// closed, and the results of the query and of setting a value are put on
/// record. What closing a key or broadcasting a notice returned changes
/// nothing at all.
pub proof fn failures_are_passed_over(toggler: Toggler, one: Reply, other: Reply)
    requires
        one.answers(toggler.pending()),
        other.answers(toggler.pending()),
    ensures
        toggler.advanced(one).phase.rank() > toggler.phase.rank(),
        toggler.pending() !is OpenKey ==> toggler.advanced(one).phase == toggler.advanced(
            other,
        ).phase,
        (toggler.pending() is CloseKey || toggler.pending() is Broadcast) ==> toggler.advanced(
            one,
        ) == toggler.advanced(other),
{
}

/// What is on record stays on record: once the query has been answered the
/// flag read no longer changes, and a flag recorded as written stays so.
pub proof fn records_are_kept(toggler: Toggler, reply: Reply)
    requires
        toggler.wf(),
    ensures
        toggler.phase.rank() >= 2 ==> toggler.advanced(reply).read == toggler.read,
        toggler.wrote_apps ==> toggler.advanced(reply).wrote_apps,
        toggler.wrote_system ==> toggler.advanced(reply).wrote_system,
{
}

} // verus!
