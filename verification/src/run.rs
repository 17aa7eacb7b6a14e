//! What a run does to the world around it, whatever the world answers.
//!
//! The world is modelled by what the requests of a
//! [`Toggler`](crate::session::Toggler) can change: the values below the
//! personalization key, the keys held open, and the notices sent. The
//! model takes the calls at their word: setting a value stores it when the
//! call reports success and changes nothing when it reports failure.

use vstd::prelude::*;
use crate::notice::Extras;
use crate::notice::Notice;
use crate::registry::Access;
use crate::registry::Flag;
use crate::registry::ERROR_SUCCESS;
use crate::session::Phase;
use crate::session::Reply;
use crate::session::Request;
use crate::session::Toggler;
use crate::session::records_are_kept;
use crate::toggle::toggled;

verus! {

/// The part of the world that a run can change.
pub struct Outside {
    /// The flags stored below the personalization key.
    pub values: Map<Flag, u32>,
    /// The keys that were opened and not yet closed, oldest first.
    pub held: Seq<Access>,
    /// The notices broadcast so far, oldest first.
    pub sent: Seq<Notice>,
}

impl Outside {
    /// The outside after `request` was performed and answered by `reply`.
    /// A key is held from the moment its opening succeeds until it is
    /// closed; a value is stored when setting it succeeds; a notice counts
    /// as sent whether or not every window took it.
    pub open spec fn after(self, request: Request, reply: Reply) -> Outside {
        match (request, reply) {
            (Request::OpenKey { access }, Reply::Status(status)) => if status == ERROR_SUCCESS {
                Outside { held: self.held.push(access), ..self }
            } else {
                self
            },
            (Request::SetValue { flag, value }, Reply::Status(status)) => if status
                == ERROR_SUCCESS {
                Outside { values: self.values.insert(flag, value), ..self }
            } else {
                self
            },
            (Request::CloseKey, Reply::Status(_)) => Outside {
                held: self.held.drop_last(),
                ..self
            },
            (Request::Broadcast { notice }, Reply::Sent(_)) => Outside {
                sent: self.sent.push(notice),
                ..self
            },
            _ => self,
        }
    }

    /// Whether `reply` tells the truth about this outside: a query that
    /// reports success delivers the stored flag.
    pub open spec fn confirms(self, request: Request, reply: Reply) -> bool {
        match (request, reply) {
            (Request::QueryValue { flag }, Reply::Value { status, data }) => status
                == ERROR_SUCCESS ==> self.values.contains_key(flag) && self.values[flag] == data,
            _ => true,
        }
    }
}

/// A run under way.
pub struct Progress {
    /// The state of the machine.
    pub toggler: Toggler,
    /// The state of the world.
    pub outside: Outside,
}

/// Where a run stands after its requests were answered by `replies` in
/// turn, having begun with the world as `before`.
pub open spec fn run(extras: Extras, before: Outside, replies: Seq<Reply>) -> Progress
    decreases replies.len(),
{
    if replies.len() == 0 {
        Progress { toggler: Toggler::fresh(extras), outside: before }
    } else {
        let earlier = run(extras, before, replies.drop_last());
        Progress {
            toggler: earlier.toggler.advanced(replies.last()),
            outside: earlier.outside.after(earlier.toggler.pending(), replies.last()),
        }
    }
}

/// Whether every reply of the run told the truth about the world as it was
/// when the reply was given: nothing but the run changed the values.
pub open spec fn undisturbed(extras: Extras, before: Outside, replies: Seq<Reply>) -> bool
    decreases replies.len(),
{
    if replies.len() == 0 {
        true
    } else {
        let earlier = run(extras, before, replies.drop_last());
        undisturbed(extras, before, replies.drop_last()) && earlier.outside.confirms(
            earlier.toggler.pending(),
            replies.last(),
        )
    }
}

/// Whether every reply of the run was of the kind that answers the request
/// it was given for.
pub open spec fn answered(extras: Extras, before: Outside, replies: Seq<Reply>) -> bool
    decreases replies.len(),
{
    if replies.len() == 0 {
        true
    } else {
        answered(extras, before, replies.drop_last()) && replies.last().answers(
            run(extras, before, replies.drop_last()).toggler.pending(),
        )
    }
}

/// The values after the writes that the machine has recorded.
pub open spec fn recorded(values: Map<Flag, u32>, toggler: Toggler) -> Map<Flag, u32> {
    let with_apps = if toggler.wrote_apps {
        values.insert(Flag::Apps, toggler.target())
    } else {
        values
    };
    if toggler.wrote_system {
        with_apps.insert(Flag::System, toggler.target())
    } else {
        with_apps
    }
}

/// The keys that a run holds in a phase: one or none.
pub open spec fn held_in(phase: Phase) -> Seq<Access> {
    match phase.holds() {
        Some(access) => seq![access],
        None => Seq::empty(),
    }
}

/// The notices that a run has sent when it stands in a phase.
pub open spec fn sent_by(extras: Extras, phase: Phase) -> Seq<Notice> {
    match phase {
        Phase::Notifying(Notice::SettingChange) => Seq::empty(),
        Phase::Notifying(Notice::ThemeChanged) => seq![Notice::SettingChange],
        Phase::Notifying(Notice::SysColorChange) => seq![Notice::SettingChange] + (
        if extras.theme_changed {
            seq![Notice::ThemeChanged]
        } else {
            Seq::empty()
        }),
        Phase::Finished => extras.planned(),
        _ => Seq::empty(),
    }
}

/// At every point of every run, the world differs from the one before the
/// run by exactly what the machine has on record: the values it recorded
/// as written hold the new flag and no other value changed, the keys
/// held are the one of the current phase, and the notices sent are those
/// of the plan up to the current phase.
pub proof fn run_keeps_account(extras: Extras, before: Outside, replies: Seq<Reply>)
    ensures
        ({
            let now = run(extras, before, replies);
            &&& now.toggler.wf()
            &&& now.toggler.extras == extras
            &&& now.outside.values == recorded(before.values, now.toggler)
            &&& now.outside.held == before.held + held_in(now.toggler.phase)
            &&& now.outside.sent == before.sent + sent_by(extras, now.toggler.phase)
        }),
    decreases replies.len(),
{
    if replies.len() == 0 {
        assert(before.held + Seq::<Access>::empty() == before.held);
        assert(before.sent + Seq::<Notice>::empty() == before.sent);
    } else {
        run_keeps_account(extras, before, replies.drop_last());
        let earlier = run(extras, before, replies.drop_last());
        let now = run(extras, before, replies);
        assert(now.outside.values == recorded(before.values, now.toggler));
        assert(now.outside.held == before.held + held_in(now.toggler.phase));
        assert(now.outside.sent == before.sent + sent_by(extras, now.toggler.phase));
    }
}

/// Once both flags are on record as written, they hold the same value: the
/// new flag.
pub proof fn written_flags_agree(extras: Extras, before: Outside, replies: Seq<Reply>)
    requires
        run(extras, before, replies).toggler.wrote_apps,
        run(extras, before, replies).toggler.wrote_system,
    ensures
        ({
            let now = run(extras, before, replies);
            &&& now.outside.values.contains_key(Flag::Apps)
            &&& now.outside.values.contains_key(Flag::System)
            &&& now.outside.values[Flag::Apps] == now.outside.values[Flag::System]
            &&& now.outside.values[Flag::Apps] == now.toggler.target()
        }),
{
    run_keeps_account(extras, before, replies);
}

/// The two writes are independent. A flag on record as written holds the
/// new value whatever became of the other flag, and a flag that is not on
/// record as written is as it was before the run.
pub proof fn writes_are_independent(
    extras: Extras,
    before: Outside,
    replies: Seq<Reply>,
    flag: Flag,
)
    ensures
        ({
            let now = run(extras, before, replies);
            if now.toggler.wrote(flag) {
                &&& now.outside.values.contains_key(flag)
                &&& now.outside.values[flag] == now.toggler.target()
            } else {
                &&& now.outside.values.contains_key(flag) == before.values.contains_key(flag)
                &&& now.outside.values[flag] == before.values[flag]
            }
        }),
{
    run_keeps_account(extras, before, replies);
}

/// A write that succeeded is not undone by anything that comes after it:
/// whatever the later replies are, the flag stays on record as written and
/// keeps its value.
pub proof fn written_flag_stays(
    extras: Extras,
    before: Outside,
    replies: Seq<Reply>,
    later: Seq<Reply>,
    flag: Flag,
)
    requires
        run(extras, before, replies).toggler.wrote(flag),
    ensures
        ({
            let then = run(extras, before, replies);
            let now = run(extras, before, replies + later);
            &&& now.toggler.wrote(flag)
            &&& now.toggler.read == then.toggler.read
            &&& now.outside.values.contains_key(flag)
            &&& now.outside.values[flag] == then.outside.values[flag]
        }),
    decreases later.len(),
{
    run_keeps_account(extras, before, replies);
    if later.len() == 0 {
        assert(replies + later == replies);
    } else {
        let shorter = later.drop_last();
        assert((replies + later).drop_last() == replies + shorter);
        written_flag_stays(extras, before, replies, shorter, flag);
        run_keeps_account(extras, before, replies + shorter);
        run_keeps_account(extras, before, replies + later);
        records_are_kept(run(extras, before, replies + shorter).toggler, later.last());
    }
}

/// A run that read no flag writes dark: the fallback counts as light.
pub proof fn failed_read_writes_dark(
    extras: Extras,
    before: Outside,
    replies: Seq<Reply>,
    flag: Flag,
)
    requires
        run(extras, before, replies).toggler.read is None,
    ensures
        ({
            let now = run(extras, before, replies);
            &&& now.toggler.target() == 0
            &&& now.toggler.wrote(flag) ==> now.outside.values[flag] == 0
        }),
{
    run_keeps_account(extras, before, replies);
}

/// If the key cannot be opened for reading, the run reads no flag, asks
/// for no value but zero to be set, and every flag it writes is dark.
pub proof fn unreadable_key_writes_dark(
    extras: Extras,
    before: Outside,
    replies: Seq<Reply>,
    flag: Flag,
)
    requires
        replies.len() > 0,
        replies[0] matches Reply::Status(status) && status != ERROR_SUCCESS,
    ensures
        ({
            let now = run(extras, before, replies);
            &&& now.toggler.read is None
            &&& now.toggler.phase.rank() >= 3
            &&& now.toggler.pending() matches Request::SetValue { value, .. } ==> value == 0
            &&& now.toggler.wrote(flag) ==> now.outside.values[flag] == 0
        }),
    decreases replies.len(),
{
    run_keeps_account(extras, before, replies);
    if replies.len() == 1 {
        assert(replies.drop_last().len() == 0);
    } else {
        assert(replies.drop_last()[0] == replies[0]);
        unreadable_key_writes_dark(extras, before, replies.drop_last(), flag);
        run_keeps_account(extras, before, replies.drop_last());
        records_are_kept(run(extras, before, replies.drop_last()).toggler, replies.last());
    }
}

/// In an undisturbed run, the flag read is the one that was stored before
/// the run.
pub proof fn undisturbed_read_is_stored(extras: Extras, before: Outside, replies: Seq<Reply>)
    requires
        undisturbed(extras, before, replies),
    ensures
        run(extras, before, replies).toggler.read matches Some(flag) ==> before.values.contains_key(
            Flag::Apps,
        ) && before.values[Flag::Apps] == flag,
    decreases replies.len(),
{
    if replies.len() > 0 {
        undisturbed_read_is_stored(extras, before, replies.drop_last());
        run_keeps_account(extras, before, replies.drop_last());
    }
}

/// In an undisturbed run that read the flag, every flag written is the
/// complement of the flag that applications had before the run.
pub proof fn written_flag_is_the_complement(
    extras: Extras,
    before: Outside,
    replies: Seq<Reply>,
    flag: Flag,
)
    requires
        undisturbed(extras, before, replies),
        run(extras, before, replies).toggler.read is Some,
        run(extras, before, replies).toggler.wrote(flag),
    ensures
        before.values.contains_key(Flag::Apps),
        run(extras, before, replies).outside.values.contains_key(flag),
        run(extras, before, replies).outside.values[flag] == toggled(before.values[Flag::Apps]),
{
    run_keeps_account(extras, before, replies);
    undisturbed_read_is_stored(extras, before, replies);
}

/// Two runs in succession, with nothing else touching the values, restore
/// a well-formed flag: if both runs read the flag and wrote it for
/// applications, it is afterwards what it was before the first run. The
/// flag for the system surfaces, if the second run wrote it, is the same.
pub proof fn two_runs_restore(
    extras: Extras,
    before: Outside,
    first: Seq<Reply>,
    second: Seq<Reply>,
)
    requires
        before.values[Flag::Apps] <= 1,
        undisturbed(extras, before, first),
        run(extras, before, first).toggler.phase == Phase::Finished,
        run(extras, before, first).toggler.read is Some,
        run(extras, before, first).toggler.wrote_apps,
        undisturbed(extras, run(extras, before, first).outside, second),
        run(extras, run(extras, before, first).outside, second).toggler.read is Some,
        run(extras, run(extras, before, first).outside, second).toggler.wrote_apps,
    ensures
        ({
            let between = run(extras, before, first).outside;
            let after = run(extras, between, second);
            &&& between.values[Flag::Apps] == toggled(before.values[Flag::Apps])
            &&& after.outside.values[Flag::Apps] == before.values[Flag::Apps]
            &&& after.toggler.wrote_system ==> after.outside.values[Flag::System]
                == before.values[Flag::Apps]
        }),
{
    let between = run(extras, before, first).outside;
    written_flag_is_the_complement(extras, before, first, Flag::Apps);
    written_flag_is_the_complement(extras, between, second, Flag::Apps);
    if run(extras, between, second).toggler.wrote_system {
        written_flag_is_the_complement(extras, between, second, Flag::System);
    }
}

/// Every key that a run opens is closed again: a run never holds more than
/// one key, and a finished run holds none.
pub proof fn keys_are_released(extras: Extras, before: Outside, replies: Seq<Reply>)
    requires
        before.held.len() == 0,
    ensures
        ({
            let now = run(extras, before, replies);
            &&& now.outside.held.len() <= 1
            &&& now.outside.held == held_in(now.toggler.phase)
            &&& now.toggler.phase == Phase::Finished ==> now.outside.held.len() == 0
        }),
{
    run_keeps_account(extras, before, replies);
}

/// A finished run has broadcast the planned notices, in order, and no
/// other: without extras, the settings-changed notice alone.
pub proof fn notices_follow_the_plan(extras: Extras, before: Outside, replies: Seq<Reply>)
    requires
        before.sent.len() == 0,
        run(extras, before, replies).toggler.phase == Phase::Finished,
    ensures
        run(extras, before, replies).outside.sent == extras.planned(),
        !extras.theme_changed && !extras.sys_color_change ==> run(
            extras,
            before,
            replies,
        ).outside.sent == seq![Notice::SettingChange],
{
    run_keeps_account(extras, before, replies);
}

/// A run takes at most twelve calls: every answered request moves it on,
/// whatever the answer, and nothing answers the request to exit.
pub proof fn run_is_bounded(extras: Extras, before: Outside, replies: Seq<Reply>)
    requires
        answered(extras, before, replies),
    ensures
        replies.len() <= run(extras, before, replies).toggler.phase.rank() <= 12,
    decreases replies.len(),
{
    if replies.len() > 0 {
        run_is_bounded(extras, before, replies.drop_last());
    }
}

} // verus!
