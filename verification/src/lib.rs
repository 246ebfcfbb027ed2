//! Account lockout policy: consecutive authentication failures are tallied per
//! user, and an escalating delay is imposed before further attempts are let
//! through. Every function here works on plain values; reading and writing the
//! files, waiting, and talking to the host framework are left to the caller.

pub mod document;
pub mod options;
pub mod settings;
pub mod tally;
pub mod text;
pub mod timestamp;

pub use options::Options;
pub use settings::{Settings, UserIdentity};
pub use tally::{OpenedTally, Record, Tally};
pub use timestamp::Timestamp;

use crate::settings::SettingsView;
use crate::tally::{
    can_be_written, lemma_success_clears_the_count, loaded, open_outcome, stored,
};
use crate::text::{decimal, decimal_text};
use crate::timestamp::current_instant;
use vstd::prelude::*;

verus! {

/// The checkpoint of the host's authentication stack at which the policy is
/// asked.
#[derive(Debug, Clone, Copy, PartialEq, Eq, Structural)]
pub enum Actions {
    /// Before the credentials are checked.
    PREAUTH,
    /// After the credentials were accepted.
    AUTHSUCC,
    /// After the credentials were rejected.
    AUTHFAIL,
}

impl Default for Actions {
    /// The checkpoint that never lets an attempt through.
    fn default() -> (r: Actions)
        ensures
            r == Actions::AUTHFAIL,
    {
        Actions::AUTHFAIL
    }
}

/// What the host is told at the end of a checkpoint.
#[derive(Debug, Clone, Copy, PartialEq, Eq, Structural)]
pub enum ResultCode {
    /// The attempt may go on.
    Success,
    /// The attempt is denied: wrong credentials, a lock, or no known checkpoint.
    AuthError,
    /// The policy could not be applied: the user, the configuration or the
    /// record could not be used.
    SystemError,
}

/// The lock, in seconds, after `fails` failures in a row. Up to the free
/// tries there is none. Beyond them it is the base delay plus the whole
/// seconds of multiplier x excess x ln(excess), where the excess is the
/// number of failures beyond the free tries and `log_nanos` is its natural
/// logarithm in billionths, rounded down.
pub open spec fn required_delay(fails: u32, settings: SettingsView, log_nanos: u64) -> nat {
    if fails <= settings.free_tries {
        0
    } else {
        ((settings.ramp_multiplier * (fails - settings.free_tries) * log_nanos) / 1_000_000_000
            + settings.base_delay_seconds) as nat
    }
}

/// The failures beyond the free tries.
pub open spec fn excess_failures(fails: u32, settings: SettingsView) -> nat {
    if fails <= settings.free_tries {
        0
    } else {
        (fails - settings.free_tries) as nat
    }
}

/// Counts the failures beyond the free tries: the number whose logarithm
/// `calc_delay` asks for.
pub fn excess(fails: u32, settings: &Settings) -> (r: u32)
    ensures
        r == excess_failures(fails, settings@),
{
    if fails <= settings.free_tries {
        0
    } else {
        fails - settings.free_tries
    }
}

/// Computes the lock in seconds, held at the largest value that fits.
pub fn calc_delay(fails: u32, settings: &Settings, log_nanos: u64) -> (r: u64)
    ensures
        r == if required_delay(fails, settings@, log_nanos) <= u64::MAX {
            required_delay(fails, settings@, log_nanos)
        } else {
            u64::MAX as nat
        },
{
    if fails <= settings.free_tries {
        return 0;
    }
    let beyond: u128 = (fails - settings.free_tries) as u128;
    let ramp: u128 = settings.ramp_multiplier as u128;
    let log: u128 = log_nanos as u128;
    assert(ramp * beyond * log <= 0xffff_ffff * 0xffff_ffff * 0xffff_ffff_ffff_ffff)
        by (nonlinear_arith)
        requires
            0 <= ramp <= 0xffff_ffff,
            0 <= beyond <= 0xffff_ffff,
            0 <= log <= 0xffff_ffff_ffff_ffff,
    ;
    assert(ramp * beyond <= 0xffff_ffff * 0xffff_ffff) by (nonlinear_arith)
        requires
            0 <= ramp <= 0xffff_ffff,
            0 <= beyond <= 0xffff_ffff,
    ;
    let seconds: u128 = ramp * beyond * log / 1_000_000_000 + settings.base_delay_seconds as u128;
    if seconds > u64::MAX as u128 {
        u64::MAX
    } else {
        seconds as u64
    }
}

/// Up to the free tries there is no lock.
pub proof fn lemma_free_tries_are_free(fails: u32, settings: SettingsView, log_nanos: u64)
    requires
        fails <= settings.free_tries,
    ensures
        required_delay(fails, settings, log_nanos) == 0,
{
}

/// The lock never shrinks as failures are added, as long as the logarithm
/// that is handed in for the larger count is no smaller than the one for the
/// smaller count, as the logarithm of a larger excess is.
pub proof fn lemma_delay_grows(
    fails1: u32,
    fails2: u32,
    settings: SettingsView,
    log1_nanos: u64,
    log2_nanos: u64,
)
    requires
        fails1 <= fails2,
        log1_nanos <= log2_nanos,
    ensures
        required_delay(fails1, settings, log1_nanos) <= required_delay(
            fails2,
            settings,
            log2_nanos,
        ),
{
    if fails1 > settings.free_tries {
        let ramp = settings.ramp_multiplier as int;
        let beyond1 = fails1 - settings.free_tries;
        let beyond2 = fails2 - settings.free_tries;
        let log1 = log1_nanos as int;
        let log2 = log2_nanos as int;
        assert(ramp * beyond1 * log1 <= ramp * beyond2 * log2) by (nonlinear_arith)
            requires
                0 <= ramp,
                0 < beyond1 <= beyond2,
                0 <= log1 <= log2,
        ;
        assert((ramp * beyond1 * log1) / 1_000_000_000 <= (ramp * beyond2 * log2)
            / 1_000_000_000) by (nonlinear_arith)
            requires
                ramp * beyond1 * log1 <= ramp * beyond2 * log2,
        ;
    }
}

/// At the first failure beyond the free tries the excess is one, whose
/// logarithm is zero, and the lock is the base delay exactly.
pub proof fn lemma_first_lock_is_base(settings: SettingsView)
    requires
        settings.free_tries < u32::MAX,
    ensures
        required_delay((settings.free_tries + 1) as u32, settings, 0) == settings.base_delay_seconds,
{
    let ramp = settings.ramp_multiplier as int;
    assert(ramp * 1 * 0 == 0);
}

/// The time that is left, in words: the hours if there are any, the minutes
/// of the hour if the time is a minute or more, and the seconds of the
/// minute.
pub open spec fn remaining_text(seconds: nat) -> Seq<char> {
    let hours = if seconds / 3600 > 0 {
        decimal_text(seconds / 3600) + " hours "@
    } else {
        Seq::<char>::empty()
    };
    let minutes = if seconds / 60 > 0 {
        decimal_text((seconds / 60) % 60) + " minutes "@
    } else {
        Seq::<char>::empty()
    };
    hours + minutes + decimal_text(seconds % 60) + " seconds"@
}

/// Words the time that is left.
pub fn fmt_remaining_time(seconds: u64) -> (r: String)
    ensures
        r@ == remaining_text(seconds as nat),
{
    let mut formatted_time = String::new();
    if seconds / 3600 > 0 {
        formatted_time.append(decimal(seconds / 3600).as_str());
        formatted_time.append(" hours ");
    }
    if seconds / 60 > 0 {
        formatted_time.append(decimal((seconds / 60) % 60).as_str());
        formatted_time.append(" minutes ");
    }
    formatted_time.append(decimal(seconds % 60).as_str());
    formatted_time.append(" seconds");
    assert(formatted_time@ =~= remaining_text(seconds as nat));
    formatted_time
}

/// What a locked-out user is told while `seconds` are left.
pub open spec fn notice_text(seconds: nat) -> Seq<char> {
    "Account locked! Unlocking in "@ + remaining_text(seconds) + "."@
}

/// What one turn of the wait owes at the instant `now`.
pub open spec fn bounce_outcome(unlock: Timestamp, now: Timestamp, r: Option<String>) -> bool {
    match r {
        Some(notice) => now.micros < unlock.micros && notice@ == notice_text(
            unlock.seconds_after(now),
        ),
        None => now.micros >= unlock.micros,
    }
}

/// One turn of the wait at the instant `now`: the notice to send before
/// sleeping on, or `None` once the lock is over.
pub fn bounce_at(unlock: Timestamp, now: Timestamp) -> (r: Option<String>)
    ensures
        bounce_outcome(unlock, now, r),
{
    if now.micros < unlock.micros {
        let mut notice = String::from_str("Account locked! Unlocking in ");
        notice.append(fmt_remaining_time(unlock.seconds_until(now)).as_str());
        notice.append(".");
        Some(notice)
    } else {
        None
    }
}

/// One turn of the wait at the instant that the clock shows.
pub fn bounce_auth(unlock: Timestamp) -> (r: Option<String>)
    ensures
        exists|now: Timestamp| bounce_outcome(unlock, now, r),
{
    let now = current_instant();
    let r = bounce_at(unlock, now);
    assert(bounce_outcome(unlock, now, r));
    r
}

/// How a checkpoint ends: the code for the host, and the instant until which
/// the caller has to hold the answer back.
#[derive(Debug, Clone, Copy, PartialEq, Eq, Structural)]
pub struct Verdict {
    pub code: ResultCode,
    pub unlock: Option<Timestamp>,
}

/// The end of the lock that a record calls for, if it calls for one.
pub open spec fn lock_end(settings: SettingsView, record: Record, log_nanos: u64) -> Option<
    Timestamp,
> {
    if record.count > settings.free_tries {
        Some(record.instant.later_by(required_delay(record.count, settings, log_nanos)))
    } else {
        None
    }
}

/// The verdict on a record to which the checkpoint was already applied.
/// Before the credentials are checked the attempt goes on, once a lock has
/// run out. After a failure it is denied, again once the lock has run out.
/// After a success it goes on. Where the host named no checkpoint it is
/// denied.
pub open spec fn verdict_of(settings: SettingsView, record: Record, log_nanos: u64) -> Verdict {
    match settings.action {
        Some(Actions::PREAUTH) => Verdict {
            code: ResultCode::Success,
            unlock: lock_end(settings, record, log_nanos),
        },
        Some(Actions::AUTHFAIL) => Verdict {
            code: ResultCode::AuthError,
            unlock: lock_end(settings, record, log_nanos),
        },
        Some(Actions::AUTHSUCC) => Verdict { code: ResultCode::Success, unlock: None },
        None => Verdict { code: ResultCode::AuthError, unlock: None },
    }
}

/// What the host is told where it offers no conversation. A lock is waited
/// out with notices to the user; where none can be sent there is no wait,
/// and an attempt under a lock is denied at once. Without a lock the
/// verdict's code stands.
pub fn answer_without_conversation(verdict: Verdict) -> (r: ResultCode)
    ensures
        r == if verdict.unlock is Some {
            ResultCode::AuthError
        } else {
            verdict.code
        },
{
    match verdict.unlock {
        Some(_) => ResultCode::AuthError,
        None => verdict.code,
    }
}

/// The policy as the host's authentication stack calls it.
pub struct PamRampDelay;

impl PamRampDelay {
    /// Decides an authentication checkpoint on the tally that was opened for
    /// it. `log_nanos` is the natural logarithm of `excess` of the tally's
    /// count, in billionths.
    pub fn sm_authenticate(settings: &Settings, tally: &Tally, log_nanos: u64) -> (r: Verdict)
        ensures
            r == verdict_of(settings@, tally.record(), log_nanos),
    {
        let unlock = if tally.failures_count > settings.free_tries {
            let delay = calc_delay(tally.failures_count, settings, log_nanos);
            proof {
                lemma_later_by_saturates(
                    tally.failure_instant,
                    required_delay(tally.failures_count, settings@, log_nanos),
                );
            }
            Some(tally.failure_instant.plus_seconds(delay))
        } else {
            None
        };
        match settings.action {
            Some(Actions::PREAUTH) => Verdict { code: ResultCode::Success, unlock },
            Some(Actions::AUTHFAIL) => Verdict { code: ResultCode::AuthError, unlock },
            Some(Actions::AUTHSUCC) => Verdict { code: ResultCode::Success, unlock: None },
            None => Verdict { code: ResultCode::AuthError, unlock: None },
        }
    }

    /// Decides the account checkpoint: once the settings are resolved and the
    /// tally is open, nothing stands against the account.
    pub fn acct_mgmt(_settings: &Settings, _tally: &Tally) -> (r: ResultCode)
        ensures
            r == ResultCode::Success,
    {
        ResultCode::Success
    }
}

proof fn lemma_later_by_saturates(at: Timestamp, seconds: nat)
    ensures
        seconds > u64::MAX ==> at.later_by(seconds) == at.later_by(u64::MAX as nat),
{
    if seconds > u64::MAX {
        assert(seconds * 1_000_000 >= u64::MAX * 1_000_000) by (nonlinear_arith)
            requires
                seconds > u64::MAX,
        ;
    }
}

/// Where the host named no known checkpoint the attempt is denied, whatever
/// the record says.
pub proof fn lemma_unknown_checkpoint_is_denied(
    settings: SettingsView,
    record: Record,
    log_nanos: u64,
)
    requires
        settings.action is None,
    ensures
        verdict_of(settings, record, log_nanos).code == ResultCode::AuthError,
        verdict_of(settings, record, log_nanos).unlock is None,
{
}

/// After a success the attempt goes on without a wait and the count is 0,
/// in the tally and in the text to write alike, whatever the count was.
/// Left out are the checkpoints that cannot end well: those without a user,
/// with a record that cannot be read, or with an instant that cannot be
/// written.
pub proof fn lemma_success_goes_on_with_a_cleared_count(
    settings: SettingsView,
    found: Option<Seq<char>>,
    now: Timestamp,
    opened: Result<OpenedTally, ResultCode>,
    log_nanos: u64,
)
    requires
        settings.action == Some(Actions::AUTHSUCC),
        settings.user is Some,
        loaded(found, now) is Some,
        can_be_written(Record { count: 0, instant: loaded(found, now).unwrap().instant }),
        open_outcome(settings, found, now, opened),
    ensures
        opened is Ok,
        opened.unwrap().tally.failures_count == 0,
        opened.unwrap().persist is Some,
        stored(opened.unwrap().persist.unwrap()@) == Some(
            Record { count: 0, instant: loaded(found, now).unwrap().instant },
        ),
        verdict_of(settings, opened.unwrap().tally.record(), log_nanos) == (Verdict {
            code: ResultCode::Success,
            unlock: None,
        }),
{
    lemma_success_clears_the_count(settings, found, now, opened);
}

} // verus!
