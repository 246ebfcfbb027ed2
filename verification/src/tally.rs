//! The record of one user's consecutive failures, and what a checkpoint does
//! to it.

use crate::document::{
    has_section, ini_sections, ini_text, lookup, new_document, no_sections, parse_document,
    parsed_ini, render, section_value, sections_with, set_value,
};
use crate::settings::{Settings, SettingsView};
use crate::text::{decimal, decimal_text, number_from_text, parse_number};
use crate::timestamp::{
    current_instant, instant_from_text, instant_text, read_instant, write_instant, Timestamp,
};
use crate::{Actions, ResultCode};
use vstd::prelude::*;

verus! {

/// What a record says: how often the user failed in a row, and when last.
#[derive(Debug, Clone, Copy, PartialEq, Eq, Structural)]
pub struct Record {
    pub count: u32,
    pub instant: Timestamp,
}

/// The tally of one user at one checkpoint.
#[derive(Debug)]
pub struct Tally {
    /// The file that holds the record.
    pub tally_file: Option<String>,
    /// Failures in a row, this checkpoint included.
    pub failures_count: u32,
    /// When the last failure was recorded.
    pub failure_instant: Timestamp,
}

/// A tally, as contracts speak of it.
pub ghost struct TallyView {
    pub tally_file: Option<Seq<char>>,
    pub failures_count: u32,
    pub failure_instant: Timestamp,
}

impl View for Tally {
    type V = TallyView;

    open spec fn view(&self) -> TallyView {
        TallyView {
            tally_file: match self.tally_file {
                Some(path) => Some(path@),
                None => None,
            },
            failures_count: self.failures_count,
            failure_instant: self.failure_instant,
        }
    }
}

impl Tally {
    /// The record that the tally stands for.
    pub open spec fn record(&self) -> Record {
        Record { count: self.failures_count, instant: self.failure_instant }
    }
}

/// A tally together with the text that has to be written to its file, if the
/// checkpoint changed or created the record.
#[derive(Debug)]
pub struct OpenedTally {
    pub tally: Tally,
    pub persist: Option<String>,
}

impl Default for Tally {
    /// No failure, no file, and the reading of the clock.
    fn default() -> (r: Tally)
        ensures
            r.tally_file is None,
            r.failures_count == 0,
    {
        Tally { tally_file: None, failures_count: 0, failure_instant: current_instant() }
    }
}

/// The file of a user's record: the user's name inside the directory. A
/// name that starts at the root stands for itself.
pub open spec fn record_path(dir: Seq<char>, name: Seq<char>) -> Seq<char> {
    if name.len() > 0 && name[0] == '/' {
        name
    } else if dir.len() == 0 || dir.last() == '/' {
        dir + name
    } else {
        dir + seq!['/'] + name
    }
}

/// What the section `Fails` of a record says. A count that is missing or no
/// number reads as 0; an instant that is missing reads as `now`, one that
/// cannot be read as the first instant of 1970. Without the section the
/// record says nothing.
pub open spec fn record_of(
    sections: Map<Seq<char>, Map<Seq<char>, Seq<char>>>,
    now: Timestamp,
) -> Option<Record> {
    if sections.contains_key("Fails"@) {
        Some(
            Record {
                count: match section_value(sections, "Fails"@, "count"@) {
                    Some(value) => match number_from_text(value) {
                        Some(count) => count,
                        None => 0,
                    },
                    None => 0,
                },
                instant: match section_value(sections, "Fails"@, "instant"@) {
                    Some(value) => match instant_from_text(value) {
                        Some(instant) => instant,
                        None => Timestamp::epoch(),
                    },
                    None => now,
                },
            },
        )
    } else {
        None
    }
}

/// The record at the start of a checkpoint. Where no file was found the
/// record is fresh: no failure, and `now`. A text with wrong syntax or
/// without the section gives nothing.
pub open spec fn loaded(text: Option<Seq<char>>, now: Timestamp) -> Option<Record> {
    match text {
        None => Some(Record { count: 0, instant: now }),
        Some(text) => match parsed_ini(text) {
            Some(sections) => record_of(sections, now),
            None => None,
        },
    }
}

/// The record after a checkpoint. A success clears the count; a failure adds
/// one to it, stopping at the largest count, and moves the instant to `now`.
pub open spec fn applied(action: Option<Actions>, record: Record, now: Timestamp) -> Record {
    match action {
        Some(Actions::AUTHSUCC) => Record { count: 0, instant: record.instant },
        Some(Actions::AUTHFAIL) => Record {
            count: if record.count < u32::MAX {
                (record.count + 1) as u32
            } else {
                record.count
            },
            instant: now,
        },
        _ => record,
    }
}

/// Whether the checkpoint leaves a record to be written: a fresh one always,
/// an old one after a success or a failure.
pub open spec fn persists(action: Option<Actions>, text: Option<Seq<char>>) -> bool {
    text is None || action == Some(Actions::AUTHSUCC) || action == Some(Actions::AUTHFAIL)
}

/// What a text holds for certain: a count and an instant that are both
/// written out and both read back.
pub open spec fn stored(text: Seq<char>) -> Option<Record> {
    match parsed_ini(text) {
        Some(sections) => match section_value(sections, "Fails"@, "count"@) {
            Some(count) => match section_value(sections, "Fails"@, "instant"@) {
                Some(instant) => match number_from_text(count) {
                    Some(count) => match instant_from_text(instant) {
                        Some(instant) => Some(Record { count, instant }),
                        None => None,
                    },
                    None => None,
                },
                None => None,
            },
            None => None,
        },
        None => None,
    }
}

/// The text of a record that may be missing.
pub open spec fn text_of(record: Option<&str>) -> Option<Seq<char>> {
    match record {
        Some(text) => Some(text@),
        None => None,
    }
}

/// The sections of a document that holds nothing but the two fields of a
/// record, under `Fails`.
pub open spec fn record_sections(count: Seq<char>, instant: Seq<char>) -> Map<
    Seq<char>,
    Map<Seq<char>, Seq<char>>,
> {
    sections_with(
        sections_with(no_sections(), "Fails"@, "count"@, count),
        "Fails"@,
        "instant"@,
        instant,
    )
}

/// Whether a document holds the record and nothing else: the count in
/// decimal and the instant as the calendar writes it. No document holds a
/// record whose instant the calendar cannot write.
pub open spec fn holds_record(doc: ini::Ini, record: Record) -> bool {
    match instant_text(record.instant.micros) {
        Some(instant) => ini_sections(doc) == record_sections(
            decimal_text(record.count as nat),
            instant,
        ),
        None => false,
    }
}

/// The characters of a text that may be missing.
pub open spec fn text_view(text: Option<String>) -> Option<Seq<char>> {
    match text {
        Some(text) => Some(text@),
        None => None,
    }
}

/// A text, if there is one and it holds exactly the given record.
pub open spec fn confirmed(text: Option<Seq<char>>, record: Record) -> Option<Seq<char>> {
    match text {
        Some(text) => if stored(text) == Some(record) {
            Some(text)
        } else {
            None
        },
        None => None,
    }
}

/// What writing a record out gives. Where the calendar cannot write the
/// instant there is no text. Otherwise a document is made that holds the
/// record and nothing else, and its text is the result if it reads as the
/// record; if it does not, there is no text either.
pub open spec fn written_outcome(record: Record, text: Option<Seq<char>>) -> bool {
    match instant_text(record.instant.micros) {
        Some(_) => exists|doc: ini::Ini|
            #[trigger] holds_record(doc, record) && text == confirmed(ini_text(doc), record),
        None => text is None,
    }
}

/// Whether a record can be written for certain: the calendar writes its
/// instant, and every document that holds the record and nothing else has a
/// text that reads as the record.
pub open spec fn can_be_written(record: Record) -> bool {
    &&& instant_text(record.instant.micros) is Some
    &&& forall|doc: ini::Ini| #[trigger]
        holds_record(doc, record) ==> confirmed(ini_text(doc), record) is Some
}

/// What `Tally::open_at` owes for given settings, record file and clock.
///
/// Without a user the result is `AuthError`; with a record that cannot be
/// read, `SystemError`. Otherwise the checkpoint is applied. Where that leaves
/// nothing to write the tally is returned. Where it leaves a record to write,
/// the record is written out: the tally is returned with the text if there
/// is one, and the result is `SystemError` if there is none.
pub open spec fn open_outcome(
    settings: SettingsView,
    text: Option<Seq<char>>,
    now: Timestamp,
    r: Result<OpenedTally, ResultCode>,
) -> bool {
    match settings.user {
        None => r == Err::<OpenedTally, ResultCode>(ResultCode::AuthError),
        Some(user) => match loaded(text, now) {
            None => r == Err::<OpenedTally, ResultCode>(ResultCode::SystemError),
            Some(before) => {
                let after = applied(settings.action, before, now);
                match r {
                    Ok(opened) => {
                        &&& opened.tally@ == TallyView {
                            tally_file: Some(record_path(settings.tally_dir, user.name)),
                            failures_count: after.count,
                            failure_instant: after.instant,
                        }
                        &&& match opened.persist {
                            Some(written) => {
                                &&& persists(settings.action, text)
                                &&& written_outcome(after, Some(written@))
                                &&& stored(written@) == Some(after)
                            },
                            None => !persists(settings.action, text),
                        }
                    },
                    Err(code) => {
                        &&& code == ResultCode::SystemError
                        &&& persists(settings.action, text)
                        &&& written_outcome(after, None)
                    },
                }
            },
        },
    }
}

/// Joins a directory and a user's name to the path of the record.
pub fn path_of_record(dir: &str, name: &str) -> (r: String)
    ensures
        r@ == record_path(dir@, name@),
{
    let dir_len = dir.unicode_len();
    if name.unicode_len() > 0 && name.get_char(0) == '/' {
        String::from_str(name)
    } else if dir_len == 0 || dir.get_char(dir_len - 1) == '/' {
        let mut path = String::from_str(dir);
        path.append(name);
        path
    } else {
        proof {
            reveal_strlit("/");
        }
        let mut path = String::from_str(dir);
        path.append("/");
        path.append(name);
        assert("/"@ =~= seq!['/']);
        path
    }
}

/// Reads the section `Fails` of a record.
pub fn read_record(doc: &ini::Ini, now: Timestamp) -> (r: Option<Record>)
    ensures
        r == record_of(ini_sections(*doc), now),
{
    if !has_section(doc, "Fails") {
        return None;
    }
    let count = match lookup(doc, "Fails", "count") {
        Some(value) => match parse_number(value) {
            Some(count) => count,
            None => 0,
        },
        None => 0,
    };
    let instant = match lookup(doc, "Fails", "instant") {
        Some(value) => match read_instant(value) {
            Some(instant) => instant,
            None => Timestamp { micros: 0 },
        },
        None => now,
    };
    Some(Record { count, instant })
}

/// Applies a checkpoint to a record.
pub fn apply(action: Option<Actions>, record: Record, now: Timestamp) -> (r: Record)
    ensures
        r == applied(action, record, now),
{
    match action {
        Some(Actions::AUTHSUCC) => Record { count: 0, instant: record.instant },
        Some(Actions::AUTHFAIL) => Record {
            count: if record.count < u32::MAX {
                record.count + 1
            } else {
                record.count
            },
            instant: now,
        },
        _ => record,
    }
}

/// Writes a record out: a document is made that holds the record and nothing
/// else, and its text is the result. There is none where the calendar cannot
/// write the instant.
fn compose(record: Record) -> (r: Option<String>)
    ensures
        instant_text(record.instant.micros) is None ==> r is None,
        instant_text(record.instant.micros) is Some ==> exists|doc: ini::Ini|
            #[trigger] holds_record(doc, record) && text_view(r) == ini_text(doc),
{
    let instant = match write_instant(record.instant) {
        Some(text) => text,
        None => {
            return None;
        },
    };
    let count = decimal(record.count as u64);
    let mut doc = new_document();
    set_value(&mut doc, "Fails", "count", count.as_str());
    set_value(&mut doc, "Fails", "instant", instant.as_str());
    let r = render(&doc);
    assert(holds_record(doc, record) && text_view(r) == ini_text(doc));
    r
}

/// Lets a text through only if it holds exactly the given record.
pub fn confirm(text: String, record: Record) -> (r: Option<String>)
    ensures
        match r {
            Some(kept) => kept@ == text@ && stored(text@) == Some(record),
            None => stored(text@) != Some(record),
        },
{
    let doc = match parse_document(text.as_str()) {
        Some(doc) => doc,
        None => {
            return None;
        },
    };
    let count = match lookup(&doc, "Fails", "count") {
        Some(value) => parse_number(value),
        None => None,
    };
    let instant = match lookup(&doc, "Fails", "instant") {
        Some(value) => read_instant(value),
        None => None,
    };
    match (count, instant) {
        (Some(count), Some(instant)) => {
            if count == record.count && instant.micros == record.instant.micros {
                Some(text)
            } else {
                None
            }
        },
        _ => None,
    }
}

/// Writes a record out as the text of a record file: the text of a document
/// that holds the record and nothing else, handed back if and only if it
/// reads as the record. There is none where the calendar cannot write the
/// instant.
pub fn written(record: Record) -> (r: Option<String>)
    ensures
        written_outcome(record, text_view(r)),
        r is Some ==> stored(r.unwrap()@) == Some(record),
{
    let composed = compose(record);
    proof {
        if instant_text(record.instant.micros) is Some {
            let doc = choose|doc: ini::Ini|
                #[trigger] holds_record(doc, record) && text_view(composed) == ini_text(doc);
            assert(holds_record(doc, record));
        }
    }
    let ghost text = text_view(composed);
    let r = match composed {
        Some(text) => confirm(text, record),
        None => None,
    };
    assert(text_view(r) == confirmed(text, record));
    r
}

impl Tally {
    /// Opens the tally of the settings' user at the instant `now`. `record`
    /// is the text of the user's record file, `None` where there is no file.
    ///
    /// The record is read, or begun afresh, and the checkpoint applied to it.
    /// Where that leaves something to write, the text is handed back for the
    /// caller to store, and it is handed back only if it reads as the tally
    /// that is returned. A record that cannot be read, and a text that cannot
    /// be written, are a `SystemError`; settings without a user an `AuthError`.
    pub fn open_at(settings: &Settings, record: Option<&str>, now: Timestamp) -> (r: Result<
        OpenedTally,
        ResultCode,
    >)
        ensures
            open_outcome(settings@, text_of(record), now, r),
    {
        let user = match &settings.user {
            Some(user) => user,
            None => {
                return Err(ResultCode::AuthError);
            },
        };
        let path = path_of_record(settings.tally_dir.as_str(), user.name());
        let before = match record {
            None => Record { count: 0, instant: now },
            Some(text) => {
                let found = match parse_document(text) {
                    Some(doc) => read_record(&doc, now),
                    None => None,
                };
                match found {
                    Some(found) => found,
                    None => {
                        return Err(ResultCode::SystemError);
                    },
                }
            },
        };
        let after = apply(settings.action, before, now);
        let changes = match settings.action {
            Some(Actions::AUTHSUCC) => true,
            Some(Actions::AUTHFAIL) => true,
            _ => false,
        };
        let persist = if record.is_none() || changes {
            let text = written(after);
            if text.is_none() {
                return Err(ResultCode::SystemError);
            }
            text
        } else {
            None
        };
        Ok(
            OpenedTally {
                tally: Tally {
                    tally_file: Some(path),
                    failures_count: after.count,
                    failure_instant: after.instant,
                },
                persist,
            },
        )
    }

    /// Opens the tally as `open_at` does, at the instant that the clock shows.
    pub fn open(settings: &Settings, record: Option<&str>) -> (r: Result<OpenedTally, ResultCode>)
        ensures
            exists|now: Timestamp| open_outcome(settings@, text_of(record), now, r),
    {
        let now = current_instant();
        let r = Tally::open_at(settings, record, now);
        assert(open_outcome(settings@, text_of(record), now, r));
        r
    }
}

/// A text that holds a record for certain reads as that record whenever it
/// is loaded.
pub proof fn lemma_stored_record_loads(text: Seq<char>, record: Record, now: Timestamp)
    requires
        stored(text) == Some(record),
    ensures
        loaded(Some(text), now) == Some(record),
{
}

/// What one checkpoint hands back to be written, a later checkpoint that
/// changes nothing reads as the same count and the same instant.
pub proof fn lemma_reopening_yields_what_was_persisted(
    first: SettingsView,
    found: Option<Seq<char>>,
    now: Timestamp,
    opened: OpenedTally,
    second: SettingsView,
    later: Timestamp,
    reopened: Result<OpenedTally, ResultCode>,
)
    requires
        open_outcome(first, found, now, Ok(opened)),
        opened.persist is Some,
        second.user is Some,
        second.action == Some(Actions::PREAUTH) || second.action is None,
        open_outcome(second, Some(opened.persist.unwrap()@), later, reopened),
    ensures
        reopened is Ok,
        reopened.unwrap().tally.record() == opened.tally.record(),
        reopened.unwrap().persist is None,
{
    let text = opened.persist.unwrap()@;
    assert(stored(text) == Some(opened.tally.record()));
    lemma_stored_record_loads(text, opened.tally.record(), later);
}

/// Once there is a user and the record was read, a checkpoint fails only
/// where it has a record to write and that record cannot be written.
pub proof fn lemma_opening_fails_only_on_what_cannot_be_written(
    settings: SettingsView,
    found: Option<Seq<char>>,
    now: Timestamp,
    r: Result<OpenedTally, ResultCode>,
)
    requires
        settings.user is Some,
        loaded(found, now) is Some,
        open_outcome(settings, found, now, r),
    ensures
        r is Err ==> persists(settings.action, found) && !can_be_written(
            applied(settings.action, loaded(found, now).unwrap(), now),
        ),
        can_be_written(applied(settings.action, loaded(found, now).unwrap(), now)) ==> r is Ok,
{
}

/// After a success the count is 0, whatever it was, in the tally and in the
/// text to write alike. Left out are the checkpoints that cannot end well:
/// those without a user, with a record that cannot be read, or with an
/// instant that cannot be written.
pub proof fn lemma_success_clears_the_count(
    settings: SettingsView,
    found: Option<Seq<char>>,
    now: Timestamp,
    r: Result<OpenedTally, ResultCode>,
)
    requires
        settings.action == Some(Actions::AUTHSUCC),
        settings.user is Some,
        loaded(found, now) is Some,
        can_be_written(Record { count: 0, instant: loaded(found, now).unwrap().instant }),
        open_outcome(settings, found, now, r),
    ensures
        r is Ok,
        r.unwrap().tally.failures_count == 0,
        r.unwrap().tally.failure_instant == loaded(found, now).unwrap().instant,
        r.unwrap().persist is Some,
        stored(r.unwrap().persist.unwrap()@) == Some(r.unwrap().tally.record()),
{
}

/// After a failure the count is one more than the record held, a fresh
/// record holding none, and the instant is that of the checkpoint, in the
/// tally and in the text to write alike. Left out are the largest count,
/// which stays as it is, and the checkpoints that cannot end well.
pub proof fn lemma_failure_adds_one(
    settings: SettingsView,
    found: Option<Seq<char>>,
    now: Timestamp,
    r: Result<OpenedTally, ResultCode>,
)
    requires
        settings.action == Some(Actions::AUTHFAIL),
        settings.user is Some,
        loaded(found, now) is Some,
        loaded(found, now).unwrap().count < u32::MAX,
        can_be_written(
            Record { count: (loaded(found, now).unwrap().count + 1) as u32, instant: now },
        ),
        open_outcome(settings, found, now, r),
    ensures
        r is Ok,
        r.unwrap().tally.failures_count == loaded(found, now).unwrap().count + 1,
        r.unwrap().tally.failure_instant == now,
        r.unwrap().persist is Some,
        stored(r.unwrap().persist.unwrap()@) == Some(r.unwrap().tally.record()),
        found is None ==> r.unwrap().tally.failures_count == 1,
{
}

/// Where no record was found one is begun with no failure and the instant
/// of the checkpoint, and it is handed back to be written. A failure at that
/// same checkpoint is counted at once, so that case is left out here, as are
/// the checkpoints that cannot end well.
pub proof fn lemma_fresh_record_is_empty_and_written(
    settings: SettingsView,
    now: Timestamp,
    r: Result<OpenedTally, ResultCode>,
)
    requires
        settings.action != Some(Actions::AUTHFAIL),
        settings.user is Some,
        can_be_written(Record { count: 0, instant: now }),
        open_outcome(settings, None, now, r),
    ensures
        r is Ok,
        r.unwrap().tally.failures_count == 0,
        r.unwrap().tally.failure_instant == now,
        r.unwrap().persist is Some,
        stored(r.unwrap().persist.unwrap()@) == Some(Record { count: 0, instant: now }),
{
}

/// Where the host named no known checkpoint a record that was found stays as
/// it is, and nothing is written.
pub proof fn lemma_unknown_checkpoint_keeps_the_record(
    settings: SettingsView,
    text: Seq<char>,
    now: Timestamp,
    r: Result<OpenedTally, ResultCode>,
)
    requires
        settings.action is None,
        settings.user is Some,
        loaded(Some(text), now) is Some,
        open_outcome(settings, Some(text), now, r),
    ensures
        r is Ok,
        loaded(Some(text), now) == Some(r.unwrap().tally.record()),
        r.unwrap().persist is None,
{
}

/// A failure that finds what an earlier checkpoint wrote counts one more
/// than that checkpoint's tally, at its own instant. Left out are the
/// largest count and a record that cannot be written.
pub proof fn lemma_failure_follows_what_was_persisted(
    first: SettingsView,
    found: Option<Seq<char>>,
    now: Timestamp,
    opened: OpenedTally,
    second: SettingsView,
    later: Timestamp,
    r: Result<OpenedTally, ResultCode>,
)
    requires
        open_outcome(first, found, now, Ok(opened)),
        opened.persist is Some,
        second.user is Some,
        second.action == Some(Actions::AUTHFAIL),
        opened.tally.failures_count < u32::MAX,
        can_be_written(
            Record { count: (opened.tally.failures_count + 1) as u32, instant: later },
        ),
        open_outcome(second, Some(opened.persist.unwrap()@), later, r),
    ensures
        r is Ok,
        r.unwrap().tally.failures_count == opened.tally.failures_count + 1,
        r.unwrap().tally.failure_instant == later,
        r.unwrap().persist is Some,
        stored(r.unwrap().persist.unwrap()@) == Some(r.unwrap().tally.record()),
{
    let text = opened.persist.unwrap()@;
    assert(stored(text) == Some(opened.tally.record()));
    lemma_stored_record_loads(text, opened.tally.record(), later);
}

/// Two failed logins of a user without a record leave a count of two. Each
/// login passes the checkpoint before the credentials and then the one
/// after their rejection, and each checkpoint finds what the one before it
/// stored. Left out are records that cannot be written.
pub proof fn lemma_two_failed_logins_count_two(
    before: SettingsView,
    failed: SettingsView,
    at: Seq<Timestamp>,
    r: Seq<Result<OpenedTally, ResultCode>>,
)
    requires
        before.user is Some,
        failed.user is Some,
        before.action == Some(Actions::PREAUTH),
        failed.action == Some(Actions::AUTHFAIL),
        at.len() == 4,
        r.len() == 4,
        can_be_written(Record { count: 0, instant: at[0] }),
        can_be_written(Record { count: 1, instant: at[1] }),
        can_be_written(Record { count: 2, instant: at[3] }),
        open_outcome(before, None, at[0], r[0]),
        r[0] is Ok ==> open_outcome(failed, text_view(r[0].unwrap().persist), at[1], r[1]),
        r[1] is Ok ==> open_outcome(before, text_view(r[1].unwrap().persist), at[2], r[2]),
        r[1] is Ok ==> open_outcome(failed, text_view(r[1].unwrap().persist), at[3], r[3]),
    ensures
        r[0] is Ok && r[1] is Ok && r[2] is Ok && r[3] is Ok,
        r[0].unwrap().tally.failures_count == 0,
        r[1].unwrap().tally.failures_count == 1,
        r[2].unwrap().tally.failures_count == 1,
        r[2].unwrap().persist is None,
        r[3].unwrap().tally.failures_count == 2,
        r[3].unwrap().persist is Some,
        stored(r[3].unwrap().persist.unwrap()@) == Some(Record { count: 2, instant: at[3] }),
{
    lemma_fresh_record_is_empty_and_written(before, at[0], r[0]);
    let first = r[0].unwrap();
    lemma_failure_follows_what_was_persisted(before, None, at[0], first, failed, at[1], r[1]);
    let second = r[1].unwrap();
    lemma_reopening_yields_what_was_persisted(
        failed,
        text_view(first.persist),
        at[1],
        second,
        before,
        at[2],
        r[2],
    );
    lemma_failure_follows_what_was_persisted(
        failed,
        text_view(first.persist),
        at[1],
        second,
        failed,
        at[3],
        r[3],
    );
}

} // verus!
