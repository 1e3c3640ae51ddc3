//! What is done to one file: whether it is created, and what each of its
//! two times is set to.

use crate::args::{Args, Record};
use crate::calendar::Instant;
use crate::error::{ArgError, ArgErrorKind, Failure, TouchError, Trouble};
use crate::resolve::{
    change_flags, change_flags_spec, resolve_times, source_admits, source_of, time_source,
    ChangeFlags, ReferenceStat, TimePair,
};
use crate::text::join;
use vstd::prelude::*;
use vstd::string::*;

verus! {

/// Everything that decides what is done to each file.
#[derive(Debug, Clone, Copy, PartialEq, Eq, Structural)]
pub struct TouchFlags {
    pub change_access_time: bool,
    pub change_modification_time: bool,
    /// Whether a symbolic link is followed to the file that it names.
    pub affect_symlinks: bool,
    pub no_creating_files: bool,
    pub accessed_time: Instant,
    pub modified_time: Instant,
}

impl TouchFlags {
    /// At least one of the two times changes.
    pub open spec fn wf(&self) -> bool {
        self.change_access_time || self.change_modification_time
    }
}

/// The flags for a run, where at least one file was named.
pub open spec fn touch_flags_spec(rec: Record, changes: ChangeFlags, times: TimePair) -> Result<
    TouchFlags,
    Failure,
> {
    if rec.files.len() == 0 {
        Err(Failure { kind: ArgErrorKind::MissingFiles, subject: Seq::empty() })
    } else {
        Ok(
            TouchFlags {
                change_access_time: changes.access,
                change_modification_time: changes.modification,
                affect_symlinks: rec.no_dereference,
                no_creating_files: rec.no_create,
                accessed_time: times.accessed,
                modified_time: times.modified,
            },
        )
    }
}

/// Gathers the flags for a run, and turns down a run that names no file.
pub fn touch_flags(args: &Args, changes: ChangeFlags, times: TimePair) -> (outcome: Result<
    TouchFlags,
    ArgError,
>)
    ensures
        match outcome {
            Ok(flags) => touch_flags_spec(args@, changes, times) == Ok::<TouchFlags, Failure>(
                flags,
            ) && (changes.wf() ==> flags.wf()),
            Err(e) => touch_flags_spec(args@, changes, times) == Err::<TouchFlags, Failure>(e@),
        },
{
    if args.files.len() == 0 {
        Err(ArgError::plain(ArgErrorKind::MissingFiles))
    } else {
        Ok(
            TouchFlags {
                change_access_time: changes.access,
                change_modification_time: changes.modification,
                affect_symlinks: args.no_dereference,
                no_creating_files: args.no_create,
                accessed_time: times.accessed,
                modified_time: times.modified,
            },
        )
    }
}

/// The value of an outcome of the preparation.
pub open spec fn flags_view(got: Result<TouchFlags, TouchError>) -> Result<TouchFlags, Trouble> {
    match got {
        Ok(flags) => Ok(flags),
        Err(e) => Err(e@),
    }
}

/// The flags for a run, given what its times resolved to: a fault in which
/// times are to change comes first, then a fault in the times, then the
/// lack of a file.
pub open spec fn prepared(rec: Record, times: Result<TimePair, Trouble>) -> Result<
    TouchFlags,
    Trouble,
> {
    match change_flags_spec(rec) {
        Err(f) => Err(Trouble::Argument(f)),
        Ok(changes) => match times {
            Err(t) => Err(t),
            Ok(pair) => match touch_flags_spec(rec, changes, pair) {
                Err(f) => Err(Trouble::Argument(f)),
                Ok(flags) => Ok(flags),
            },
        },
    }
}

/// Whatever the times resolve to, a run that is prepared changes at least
/// one of the two times, and a command line that asks for both "only
/// access" and "only modification", or gives `--time` an unknown word, is
/// turned down for that.
pub proof fn lemma_prepared(rec: Record, times: Result<TimePair, Trouble>)
    ensures
        prepared(rec, times) matches Ok(flags) ==> flags.wf() && rec.files.len() > 0,
        change_flags_spec(rec) matches Err(f) ==> prepared(rec, times) == Err::<
            TouchFlags,
            Trouble,
        >(Trouble::Argument(f)),
{
}

/// Prepares a run from the options: decides which times change, resolves
/// the moments from their source, and gathers the flags. `stat` is what
/// was found out about the reference file, and is looked at only where the
/// times come from one. Nothing is read from the clock where the options
/// are turned down first.
pub fn prepare(args: &Args, stat: ReferenceStat) -> (outcome: Result<TouchFlags, TouchError>)
    ensures
        match change_flags_spec(args@) {
            Err(f) => flags_view(outcome) == Err::<TouchFlags, Trouble>(Trouble::Argument(f)),
            Ok(_) => exists|times: Result<TimePair, Trouble>| #[trigger]
                source_admits(source_of(args@), stat, times) && flags_view(outcome) == prepared(
                    args@,
                    times,
                ),
        },
{
    let changes = match change_flags(args) {
        Ok(changes) => changes,
        Err(e) => {
            return Err(TouchError::Argument(e));
        },
    };
    let source = time_source(args);
    let times = match resolve_times(&source, stat) {
        Ok(times) => times,
        Err(e) => {
            let ghost times = Err::<TimePair, Trouble>(e@);
            assert(source_admits(source_of(args@), stat, times));
            return Err(e);
        },
    };
    assert(source_admits(source_of(args@), stat, Ok::<TimePair, Trouble>(times)));
    match touch_flags(args, changes, times) {
        Ok(flags) => Ok(flags),
        Err(e) => Err(TouchError::Argument(e)),
    }
}

/// What one of a file's two times becomes.
#[derive(Debug, Clone, Copy, PartialEq, Eq, Structural)]
pub enum TimeSpec {
    /// The time is set to this moment.
    At(Instant),
    /// The time is left as it is.
    Omit,
}

/// What is done to one file.
#[derive(Debug, Clone, Copy, PartialEq, Eq, Structural)]
pub enum TouchPlan {
    /// Nothing: the file is missing and is not to be created.
    Skip,
    /// The file is created empty where `create` says so, and then both
    /// times are applied in one step.
    Apply { create: bool, access: TimeSpec, modification: TimeSpec, follow_symlinks: bool },
}

/// A moment where the time changes, and the omission where it does not.
pub open spec fn time_spec(change: bool, t: Instant) -> TimeSpec {
    if change {
        TimeSpec::At(t)
    } else {
        TimeSpec::Omit
    }
}

/// What is done to a file that exists or not, under the given flags.
pub open spec fn touch_plan_spec(exists: bool, flags: TouchFlags) -> TouchPlan {
    if !exists && flags.no_creating_files {
        TouchPlan::Skip
    } else {
        TouchPlan::Apply {
            create: !exists,
            access: time_spec(flags.change_access_time, flags.accessed_time),
            modification: time_spec(flags.change_modification_time, flags.modified_time),
            follow_symlinks: flags.affect_symlinks,
        }
    }
}

/// A file that exists is never created anew; a missing file is left
/// missing where creating is switched off; and a time that is not to
/// change is omitted, never set.
pub proof fn lemma_touch_plan(exists: bool, flags: TouchFlags)
    ensures
        !exists && flags.no_creating_files ==> touch_plan_spec(exists, flags) == TouchPlan::Skip,
        touch_plan_spec(exists, flags) matches TouchPlan::Apply {
            create,
            access,
            modification,
            ..
        } ==> {
            &&& create == !exists
            &&& (access is Omit <==> !flags.change_access_time)
            &&& (modification is Omit <==> !flags.change_modification_time)
            &&& (flags.wf() ==> access is At || modification is At)
        },
{
}

/// Decides what is done to one file.
pub fn touch_plan(exists: bool, flags: &TouchFlags) -> (plan: TouchPlan)
    ensures
        plan == touch_plan_spec(exists, *flags),
{
    if !exists && flags.no_creating_files {
        TouchPlan::Skip
    } else {
        TouchPlan::Apply {
            create: !exists,
            access: if flags.change_access_time {
                TimeSpec::At(flags.accessed_time)
            } else {
                TimeSpec::Omit
            },
            modification: if flags.change_modification_time {
                TimeSpec::At(flags.modified_time)
            } else {
                TimeSpec::Omit
            },
            follow_symlinks: flags.affect_symlinks,
        }
    }
}

/// The notice for a file that was skipped.
pub fn skip_notice(path: &str) -> (line: String)
    ensures
        line@ == "Skipping "@ + path@
            + " as --no-create was passed and it does not already exist"@,
{
    let head = join("Skipping ", path);
    join(head.as_str(), " as --no-create was passed and it does not already exist")
}

/// The outcome of applying the times to `path`: a status other than zero
/// is a failure that carries the path and the system's word for the error.
pub fn set_times_outcome(path: &str, status: i64, os_error: &str) -> (outcome: Result<
    (),
    TouchError,
>)
    ensures
        status == 0 ==> outcome is Ok,
        status != 0 ==> outcome is Err && outcome->Err_0@ == (Trouble::SetTimes {
            path: path@,
            reason: os_error@,
        }),
{
    if status != 0 {
        Err(
            TouchError::SetTimes {
                path: String::from_str(path),
                reason: String::from_str(os_error),
            },
        )
    } else {
        Ok(())
    }
}

} // verus!
