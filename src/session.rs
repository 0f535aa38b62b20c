use vstd::prelude::*;
use vstd::string::StringExecFns;
use crate::clock::{
    format_rfc3339, local_now, minutes_between, minutes_left, parse_rfc3339, rfc3339_instant,
    rfc3339_text, Moment, LATEST_MILLIS, MILLIS_PER_MINUTE,
};
use crate::record::{Pom, PomError, PomView};

verus! {

/// Minutes in a session when no other length is asked for.
pub const DEFAULT_MINUTES: i64 = 25;

/// The length of a session to start, in minutes.
pub fn get_duration() -> (r: Option<i64>)
    ensures
        r == Some(25i64),
{
    Some(DEFAULT_MINUTES)
}

/// What `start` decided.
#[derive(Clone, Debug)]
pub enum StartOutcome {
    /// A session is still running, with minutes left: it is kept unchanged.
    Active { session: Pom, minutes_left: i64 },
    /// A new running session, which is to be stored.
    Started(Pom),
}

/// What `stop` decided.
#[derive(Clone, Debug)]
pub enum StopOutcome {
    /// The stored session was not running: nothing is to be written.
    NotRunning,
    /// The cleared record, which is to be stored in place of the old one.
    Stopped(Pom),
}

/// What the status command reports.
#[derive(Clone, Copy, Debug, PartialEq, Eq, Structural)]
pub enum Status {
    /// The stored session is not running.
    Idle,
    /// Whole minutes left (zero or more).
    Remaining(i64),
    /// The end has passed: minus the whole minutes gone since.
    Overdue(i64),
}

/// What a `StartOutcome` holds, as mathematical values.
pub enum StartView {
    Active { session: PomView, minutes_left: int },
    Started(PomView),
}

/// What a `StopOutcome` holds, as mathematical values.
pub enum StopView {
    NotRunning,
    Stopped(PomView),
}

/// The stored session, if any, as mathematical values.
pub open spec fn stored_view(stored: Option<Pom>) -> Option<PomView> {
    match stored {
        Some(p) => Some(p@),
        None => None,
    }
}

/// The decision of `start`, as mathematical values.
pub open spec fn start_view(r: Result<StartOutcome, PomError>) -> Result<StartView, PomError> {
    match r {
        Ok(StartOutcome::Active { session, minutes_left }) => Ok(
            StartView::Active { session: session@, minutes_left: minutes_left as int },
        ),
        Ok(StartOutcome::Started(p)) => Ok(StartView::Started(p@)),
        Err(e) => Err(e),
    }
}

/// The decision of `stop`, as mathematical values.
pub open spec fn stop_view(r: Result<StopOutcome, PomError>) -> Result<StopView, PomError> {
    match r {
        Ok(StopOutcome::NotRunning) => Ok(StopView::NotRunning),
        Ok(StopOutcome::Stopped(p)) => Ok(StopView::Stopped(p@)),
        Err(e) => Err(e),
    }
}

/// The instant, in milliseconds, at which a session of `duration` minutes
/// started at `now` ends.
pub open spec fn end_millis(duration: int, now: Moment) -> int {
    now.millis + duration * 60000
}

/// A running session of `duration` minutes from `now`, its end written at
/// the offset of `now`.
pub open spec fn new_session(duration: int, now: Moment) -> Result<PomView, PomError> {
    let end = end_millis(duration, now);
    if end < i64::MIN || end > i64::MAX {
        Err(PomError::OutOfRange)
    } else {
        match rfc3339_text(end as i64, now.offset_secs) {
            Some(s) => Ok(PomView { running: true, ends_at: s }),
            None => Err(PomError::OutOfRange),
        }
    }
}

/// `start` beginning a new session.
pub open spec fn fresh_start(duration: int, now: Moment) -> Result<StartView, PomError> {
    match new_session(duration, now) {
        Ok(s) => Ok(StartView::Started(s)),
        Err(e) => Err(e),
    }
}

/// The decision of `start`: a stored session that runs with minutes left is
/// kept; otherwise (none stored, stopped, or past its end) a new one begins.
pub open spec fn start_result(stored: Option<PomView>, duration: int, now: Moment) -> Result<
    StartView,
    PomError,
> {
    match stored {
        Some(p) => if p.running {
            match rfc3339_instant(p.ends_at) {
                Some(end) => {
                    let m = minutes_between(end as int, now.millis as int);
                    if m > 0 {
                        Ok(StartView::Active { session: p, minutes_left: m })
                    } else {
                        fresh_start(duration, now)
                    }
                },
                None => Err(PomError::Corrupt),
            }
        } else {
            fresh_start(duration, now)
        },
        None => fresh_start(duration, now),
    }
}

/// The record that stopping a session leaves: not running, with no end.
pub open spec fn cleared() -> PomView {
    PomView { running: false, ends_at: Seq::empty() }
}

/// The decision of `stop`: a running session is cleared; one that does not
/// run is left as it is; with none stored there is nothing to stop; a
/// running one whose end is no date-time is corrupt.
pub open spec fn stop_result(stored: Option<PomView>) -> Result<StopView, PomError> {
    match stored {
        Some(p) => if p.running {
            match rfc3339_instant(p.ends_at) {
                Some(_) => Ok(StopView::Stopped(cleared())),
                None => Err(PomError::Corrupt),
            }
        } else {
            Ok(StopView::NotRunning)
        },
        None => Err(PomError::NotFound),
    }
}

/// No session that `start` would keep is stored at `now`: none is, or it
/// does not run, or its end has come.
pub open spec fn replaceable(stored: Option<PomView>, now: Moment) -> bool {
    match stored {
        Some(p) => !p.running || match rfc3339_instant(p.ends_at) {
            Some(end) => minutes_between(end as int, now.millis as int) <= 0,
            None => false,
        },
        None => true,
    }
}

/// The new session's end lies within chrono's range.
pub open spec fn end_in_range(duration: int, now: Moment) -> bool {
    0 <= end_millis(duration, now) <= LATEST_MILLIS
}

/// What the status command reports at `now`.
pub open spec fn status_result(stored: Option<PomView>, now: Moment) -> Result<Status, PomError> {
    match stored {
        Some(p) => if p.running {
            match rfc3339_instant(p.ends_at) {
                Some(end) => {
                    let m = minutes_between(end as int, now.millis as int);
                    if m < 0 {
                        Ok(Status::Overdue(m as i64))
                    } else {
                        Ok(Status::Remaining(m as i64))
                    }
                },
                None => Err(PomError::Corrupt),
            }
        } else {
            Ok(Status::Idle)
        },
        None => Err(PomError::NotFound),
    }
}

impl Pom {
    /// A copy of this record.
    pub fn copied(&self) -> (r: Pom)
        ensures
            r@ == self@,
    {
        Pom { running: self.running, ends_at: String::from_str(self.ends_at.as_str()) }
    }

    /// A session of `duration` minutes from `now`, running or not.
    pub fn new(duration: &i64, running: bool, now: Moment) -> (r: Result<Pom, PomError>)
        ensures
            match r {
                Ok(p) => p.running == running && new_session(*duration as int, now) == Ok::<
                    PomView,
                    PomError,
                >(PomView { running: true, ends_at: p@.ends_at }),
                Err(e) => new_session(*duration as int, now) == Err::<PomView, PomError>(e),
            },
            now.wf() && end_in_range(*duration as int, now) ==> r is Ok,
    {
        let end: i128 = (now.millis as i128) + (*duration as i128) * (MILLIS_PER_MINUTE as i128);
        if end < i64::MIN as i128 || end > i64::MAX as i128 {
            return Err(PomError::OutOfRange);
        }
        match format_rfc3339(end as i64, now.offset_secs) {
            Some(s) => Ok(Pom { running, ends_at: s }),
            None => Err(PomError::OutOfRange),
        }
    }

    /// Decides what starting a session of `duration` minutes at `now` does,
    /// given the stored session, if any.
    pub fn start_at(stored: &Option<Pom>, duration: &i64, now: Moment) -> (r: Result<
        StartOutcome,
        PomError,
    >)
        ensures
            start_view(r) == start_result(stored_view(*stored), *duration as int, now),
            now.wf() && end_in_range(*duration as int, now) && replaceable(stored_view(*stored), now)
                ==> (r matches Ok(StartOutcome::Started(s)) && s.running),
    {
        if let Some(p) = stored {
            if p.running {
                match parse_rfc3339(p.ends_at.as_str()) {
                    Some(end) => {
                        let m = minutes_left(end, now.millis);
                        if m > 0 {
                            return Ok(StartOutcome::Active { session: p.copied(), minutes_left: m });
                        }
                    },
                    None => {
                        return Err(PomError::Corrupt);
                    },
                }
            }
        }
        match Pom::new(duration, true, now) {
            Ok(s) => Ok(StartOutcome::Started(s)),
            Err(e) => Err(e),
        }
    }

    /// Decides what starting a session of `duration` minutes does now, given
    /// the stored session, if any: the decision of `start_at` at the instant
    /// that the local clock gives.
    pub fn start(stored: &Option<Pom>, duration: &i64) -> (r: Result<StartOutcome, PomError>)
        ensures
            exists|now: Moment|
                {
                    &&& now.wf()
                    &&& now.in_range()
                    &&& start_view(r) == start_result(stored_view(*stored), *duration as int, now)
                    &&& end_in_range(*duration as int, now) && replaceable(stored_view(*stored), now)
                        ==> (r matches Ok(StartOutcome::Started(s)) && s.running)
                },
    {
        let now = local_now();
        Pom::start_at(stored, duration, now)
    }

    /// Decides what stopping does, given the stored session, if any.
    pub fn stop(stored: &Option<Pom>) -> (r: Result<StopOutcome, PomError>)
        ensures
            stop_view(r) == stop_result(stored_view(*stored)),
    {
        match stored {
            Some(p) => if p.running {
                match parse_rfc3339(p.ends_at.as_str()) {
                    Some(_) => Ok(StopOutcome::Stopped(Pom { running: false, ends_at: String::new() })),
                    None => Err(PomError::Corrupt),
                }
            } else {
                Ok(StopOutcome::NotRunning)
            },
            None => Err(PomError::NotFound),
        }
    }

    /// The status of the stored session, if any, at `now`.
    pub fn status_at(stored: &Option<Pom>, now: Moment) -> (r: Result<Status, PomError>)
        ensures
            r == status_result(stored_view(*stored), now),
    {
        match stored {
            Some(p) => if p.running {
                match parse_rfc3339(p.ends_at.as_str()) {
                    Some(end) => {
                        let m = minutes_left(end, now.millis);
                        if m < 0 {
                            Ok(Status::Overdue(m))
                        } else {
                            Ok(Status::Remaining(m))
                        }
                    },
                    None => Err(PomError::Corrupt),
                }
            } else {
                Ok(Status::Idle)
            },
            None => Err(PomError::NotFound),
        }
    }

    /// The status of the stored session, if any, at the instant that the
    /// local clock gives: what the status line shows.
    pub fn print(stored: &Option<Pom>) -> (r: Result<Status, PomError>)
        ensures
            exists|now: Moment|
                now.wf() && now.in_range() && r == status_result(stored_view(*stored), now),
    {
        let now = local_now();
        Pom::status_at(stored, now)
    }
}

} // verus!
