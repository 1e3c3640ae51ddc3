//! From the options to what is done: which of the two times change, and
//! which moments they are set to.

use crate::args::{Args, Record};
use crate::calendar::{read_clock, read_rfc3339, rfc3339_reading, Instant, Reading};
use crate::error::{ArgError, ArgErrorKind, Failure, TouchError, Trouble};
use crate::stamp::{admits, parse_timestamp, reason_text, StampError};
use crate::text::same_text;
use vstd::prelude::*;
use vstd::string::*;

verus! {

/// Which of the two times are to change.
#[derive(Debug, Clone, Copy, PartialEq, Eq, Structural)]
pub struct ChangeFlags {
    pub access: bool,
    pub modification: bool,
}

impl ChangeFlags {
    /// At least one of the two times changes.
    pub open spec fn wf(&self) -> bool {
        self.access || self.modification
    }
}

/// The two words classes that `--time` takes.
#[derive(Debug, Clone, Copy, PartialEq, Eq, Structural)]
pub enum TimeWord {
    Access,
    Modification,
}

/// The meaning of a word given to `--time`.
pub open spec fn time_word(word: Seq<char>) -> Option<TimeWord> {
    if word == "access"@ || word == "atime"@ || word == "use"@ {
        Some(TimeWord::Access)
    } else if word == "modify"@ || word == "mtime"@ {
        Some(TimeWord::Modification)
    } else {
        None
    }
}

/// Whether only the access time was asked for, by `-a` or by `--time`.
pub open spec fn wants_access_only(rec: Record) -> bool {
    rec.access || (rec.time is Some && time_word(rec.time->0) == Some(TimeWord::Access))
}

/// Whether only the modification time was asked for, by `-m` or by `--time`.
pub open spec fn wants_modification_only(rec: Record) -> bool {
    rec.modification || (rec.time is Some && time_word(rec.time->0) == Some(
        TimeWord::Modification,
    ))
}

/// Which times change: a word that `--time` does not know is turned down
/// first, then a request for both "only access" and "only modification";
/// asking for one of them leaves the other time alone, and asking for
/// neither changes both.
pub open spec fn change_flags_spec(rec: Record) -> Result<ChangeFlags, Failure> {
    if rec.time is Some && time_word(rec.time->0) is None {
        Err(Failure { kind: ArgErrorKind::InvalidTime, subject: rec.time->0 })
    } else if wants_access_only(rec) && wants_modification_only(rec) {
        Err(Failure { kind: ArgErrorKind::MutuallyExclusive, subject: Seq::empty() })
    } else {
        Ok(
            ChangeFlags {
                access: !wants_modification_only(rec),
                modification: !wants_access_only(rec),
            },
        )
    }
}

/// Whenever the options are accepted, at least one time changes; both do
/// where neither `-a`, `-m` nor `--time` was given; and a time is left
/// alone only where the other one alone was asked for.
pub proof fn lemma_change_flags(rec: Record)
    ensures
        change_flags_spec(rec) matches Ok(flags) ==> {
            &&& flags.wf()
            &&& (!rec.access && !rec.modification && rec.time is None ==> flags.access
                && flags.modification)
            &&& (!flags.access <==> wants_modification_only(rec))
            &&& (!flags.modification <==> wants_access_only(rec))
        },
        rec.access && rec.modification && rec.time is None ==> change_flags_spec(rec) == Err::<
            ChangeFlags,
            Failure,
        >(Failure { kind: ArgErrorKind::MutuallyExclusive, subject: Seq::empty() }),
{
}

/// The meaning of a word given to `--time`.
pub fn read_time_word(word: &str) -> (meaning: Option<TimeWord>)
    ensures
        meaning == time_word(word@),
{
    if same_text(word, "access") || same_text(word, "atime") || same_text(word, "use") {
        Some(TimeWord::Access)
    } else if same_text(word, "modify") || same_text(word, "mtime") {
        Some(TimeWord::Modification)
    } else {
        None
    }
}

/// Decides which of the two times change.
pub fn change_flags(args: &Args) -> (outcome: Result<ChangeFlags, ArgError>)
    ensures
        match outcome {
            Ok(flags) => change_flags_spec(args@) == Ok::<ChangeFlags, Failure>(flags)
                && flags.wf(),
            Err(e) => change_flags_spec(args@) == Err::<ChangeFlags, Failure>(e@),
        },
{
    let word = match &args.time {
        Some(text) => match read_time_word(text.as_str()) {
            Some(word) => Some(word),
            None => {
                return Err(ArgError::new(ArgErrorKind::InvalidTime, text.clone()));
            },
        },
        None => None,
    };
    let access_only = args.access || word == Some(TimeWord::Access);
    let modification_only = args.modification || word == Some(TimeWord::Modification);
    if access_only && modification_only {
        Err(ArgError::plain(ArgErrorKind::MutuallyExclusive))
    } else {
        Ok(ChangeFlags { access: !modification_only, modification: !access_only })
    }
}

/// Where the times come from.
#[derive(Debug, Clone, PartialEq, Eq)]
pub enum TimeSource {
    /// A date written out in full.
    Date(String),
    /// A compact timestamp.
    Stamp(String),
    /// The times of another file.
    Reference(String),
    /// The clock.
    Now,
}

/// The mathematical value of a [`TimeSource`].
pub enum Source {
    Date(Seq<char>),
    Stamp(Seq<char>),
    Reference(Seq<char>),
    Now,
}

impl View for TimeSource {
    type V = Source;

    open spec fn view(&self) -> Source {
        match self {
            TimeSource::Date(text) => Source::Date(text@),
            TimeSource::Stamp(text) => Source::Stamp(text@),
            TimeSource::Reference(path) => Source::Reference(path@),
            TimeSource::Now => Source::Now,
        }
    }
}

/// The source that the options name: a date goes before a timestamp, a
/// timestamp before a reference file, and the clock is what is left.
pub open spec fn source_of(rec: Record) -> Source {
    if rec.date is Some {
        Source::Date(rec.date->0)
    } else if rec.timestamp is Some {
        Source::Stamp(rec.timestamp->0)
    } else if rec.reference is Some {
        Source::Reference(rec.reference->0)
    } else {
        Source::Now
    }
}

/// Picks the source of the times.
pub fn time_source(args: &Args) -> (source: TimeSource)
    ensures
        source@ == source_of(args@),
{
    if let Some(date) = &args.date {
        TimeSource::Date(date.clone())
    } else if let Some(stamp) = &args.timestamp {
        TimeSource::Stamp(stamp.clone())
    } else if let Some(path) = &args.reference {
        TimeSource::Reference(path.clone())
    } else {
        TimeSource::Now
    }
}

/// The two moments to apply.
#[derive(Debug, Clone, Copy, PartialEq, Eq, Structural)]
pub struct TimePair {
    pub accessed: Instant,
    pub modified: Instant,
}

/// The same moment for both times.
pub open spec fn both(t: Instant) -> TimePair {
    TimePair { accessed: t, modified: t }
}

/// The times for a date, given what the reader made of it.
pub open spec fn date_times_spec(date: Seq<char>, reading: Result<Instant, Seq<char>>) -> Result<
    TimePair,
    Trouble,
> {
    match reading {
        Ok(t) => Ok(both(t)),
        Err(why) => Err(Trouble::DateParse { input: date, reason: why }),
    }
}

/// The value of a resolution.
pub open spec fn times_view(got: Result<TimePair, TouchError>) -> Result<TimePair, Trouble> {
    match got {
        Ok(pair) => Ok(pair),
        Err(e) => Err(e@),
    }
}

/// The times for a date, given what the reader made of it: both times are
/// the moment that was read, or the reader's complaint is passed on with
/// the date.
pub fn date_times(date: &str, reading: Result<Instant, String>) -> (outcome: Result<
    TimePair,
    TouchError,
>)
    ensures
        times_view(outcome) == date_times_spec(
            date@,
            match reading {
                Ok(t) => Ok(t),
                Err(why) => Err(why@),
            },
        ),
{
    match reading {
        Ok(t) => Ok(TimePair { accessed: t, modified: t }),
        Err(why) => Err(TouchError::DateParse { input: String::from_str(date), reason: why }),
    }
}

/// The times for a date written in the RFC 3339 format.
pub fn times_from_date(date: &str) -> (outcome: Result<TimePair, TouchError>)
    ensures
        times_view(outcome) == date_times_spec(date@, rfc3339_reading(date@)),
{
    let reading = read_rfc3339(date);
    date_times(date, reading)
}

/// The times for a compact timestamp, given the moment it came to.
pub open spec fn stamp_times_spec(stamp: Seq<char>, moment: Result<Instant, StampError>) -> Result<
    TimePair,
    Trouble,
> {
    match moment {
        Ok(t) => Ok(both(t)),
        Err(e) => Err(Trouble::DateParse { input: stamp, reason: reason_text(e) }),
    }
}

/// The times for a compact timestamp, given the moment it came to: both
/// times are that moment, or the reason is passed on with the timestamp.
pub fn stamp_times(stamp: &str, moment: Result<Instant, StampError>) -> (outcome: Result<
    TimePair,
    TouchError,
>)
    ensures
        times_view(outcome) == stamp_times_spec(stamp@, moment),
{
    match moment {
        Ok(t) => Ok(TimePair { accessed: t, modified: t }),
        Err(e) => Err(
            TouchError::DateParse { input: String::from_str(stamp), reason: e.reason() },
        ),
    }
}

/// The times for a compact timestamp, read against the local clock. The
/// outcome is that of some moment that the timestamp can come to.
pub fn times_from_stamp(stamp: &str) -> (outcome: Result<TimePair, TouchError>)
    ensures
        exists|moment: Result<Instant, StampError>| #[trigger]
            admits(stamp@, moment) && times_view(outcome) == stamp_times_spec(stamp@, moment),
{
    let moment = parse_timestamp(stamp);
    stamp_times(stamp, moment)
}

/// What was found out about the reference file.
#[derive(Debug, Clone, Copy, PartialEq, Eq, Structural)]
pub enum ReferenceStat {
    /// There is no such file.
    Missing,
    /// The file is there, but cannot be examined.
    Unreadable,
    /// The file's times, each as far as the file system tells it.
    Times { accessed: Option<Instant>, modified: Option<Instant> },
}

/// `t`, or `fallback` where there is none.
pub open spec fn or_else(t: Option<Instant>, fallback: Instant) -> Instant {
    match t {
        Some(t) => t,
        None => fallback,
    }
}

/// The times taken from a reference file, with `fallback` for each time
/// that the file system does not tell.
pub open spec fn reference_times_spec(path: Seq<char>, stat: ReferenceStat, fallback: Instant) -> Result<
    TimePair,
    Trouble,
> {
    match stat {
        ReferenceStat::Missing => Err(Trouble::ReferenceMissing { path }),
        ReferenceStat::Unreadable => Err(Trouble::ReferenceUnreadable { path }),
        ReferenceStat::Times { accessed, modified } => Ok(
            TimePair {
                accessed: or_else(accessed, fallback),
                modified: or_else(modified, fallback),
            },
        ),
    }
}

/// The times taken from a reference file, with `fallback` for each time
/// that the file system does not tell.
pub fn reference_times(path: &str, stat: ReferenceStat, fallback: Instant) -> (outcome: Result<
    TimePair,
    TouchError,
>)
    ensures
        times_view(outcome) == reference_times_spec(path@, stat, fallback),
{
    match stat {
        ReferenceStat::Missing => Err(
            TouchError::ReferenceMissing { path: String::from_str(path) },
        ),
        ReferenceStat::Unreadable => Err(
            TouchError::ReferenceUnreadable { path: String::from_str(path) },
        ),
        ReferenceStat::Times { accessed, modified } => Ok(
            TimePair {
                accessed: match accessed {
                    Some(t) => t,
                    None => fallback,
                },
                modified: match modified {
                    Some(t) => t,
                    None => fallback,
                },
            },
        ),
    }
}

/// The times taken from a reference file; the present moment stands in for
/// each time that the file system does not tell.
pub fn times_from_reference(path: &str, stat: ReferenceStat) -> (outcome: Result<
    TimePair,
    TouchError,
>)
    ensures
        exists|fallback: Instant| #[trigger]
            times_view(outcome) == reference_times_spec(path@, stat, fallback),
{
    let fallback = read_clock().moment;
    reference_times(path, stat, fallback)
}

/// The times for a reading of the clock: the moment that it shows, for
/// both of them.
pub fn clock_times(reading: Reading) -> (pair: TimePair)
    ensures
        pair == both(reading.moment),
{
    TimePair { accessed: reading.moment, modified: reading.moment }
}

/// The present moment for both times.
pub fn times_now() -> (pair: TimePair)
    ensures
        pair.accessed == pair.modified,
{
    clock_times(read_clock())
}

/// Whether `times` can be what a source comes to, on some machine at some
/// time: a date reads as its reader says, a timestamp comes to a moment
/// that it admits, a reference file gives its times with some moment
/// standing in for a time that is not told, and the clock gives one moment
/// for both times.
pub open spec fn source_admits(source: Source, stat: ReferenceStat, times: Result<
    TimePair,
    Trouble,
>) -> bool {
    match source {
        Source::Date(date) => times == date_times_spec(date, rfc3339_reading(date)),
        Source::Stamp(stamp) => exists|moment: Result<Instant, StampError>| #[trigger]
            admits(stamp, moment) && times == stamp_times_spec(stamp, moment),
        Source::Reference(path) => exists|fallback: Instant|
            times == #[trigger] reference_times_spec(path, stat, fallback),
        Source::Now => times is Ok && times->Ok_0.accessed == times->Ok_0.modified,
    }
}

/// Resolves the two times from their source. `stat` is what was found out
/// about the reference file, and is looked at for that source only.
pub fn resolve_times(source: &TimeSource, stat: ReferenceStat) -> (outcome: Result<
    TimePair,
    TouchError,
>)
    ensures
        source_admits(source@, stat, times_view(outcome)),
{
    match source {
        TimeSource::Date(date) => times_from_date(date.as_str()),
        TimeSource::Stamp(stamp) => times_from_stamp(stamp.as_str()),
        TimeSource::Reference(path) => times_from_reference(path.as_str(), stat),
        TimeSource::Now => Ok(times_now()),
    }
}

} // verus!
