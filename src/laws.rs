use vstd::prelude::*;
use crate::clock::{rfc3339_instant, rfc3339_text, Moment};
use crate::record::{
    document, ends_key, parse_document, read_document, readable_end, running_line, storable,
    PomError, PomView,
};
use crate::session::{
    cleared, end_millis, fresh_start, start_result, status_result, stop_result, StartView, Status,
    StopView,
};

verus! {

/// Reading back the document of a session gives the same session, for every
/// session whose end is readable and storable (as every RFC 3339 text and the
/// empty text are).
pub proof fn lemma_round_trip(p: PomView)
    requires
        storable(p.ends_at),
        readable_end(p),
    ensures
        read_document(document(p)) == Ok::<PomView, PomError>(p),
{
    lemma_document_parses(p);
}

/// The fields of a session come back from its document, for every session
/// whose end is storable.
pub proof fn lemma_document_parses(p: PomView)
    requires
        storable(p.ends_at),
    ensures
        parse_document(document(p)) == Some(p),
{
    let t = document(p);
    let head = running_line(p.running);
    let n = head.len() as int;
    let e = p.ends_at;
    assert(t.subrange(0, n) =~= head);
    if !p.running {
        assert(t[9] != running_line(true)[9]);
        assert(t.subrange(0, running_line(true).len() as int)[9] != running_line(true)[9]);
    }
    assert(t.subrange(n, n + 9) =~= ends_key());
    let line = t.subrange(n + 9, t.len() as int);
    assert(line =~= seq!['\''] + e + seq!['\'', '\n']);
    let v = line.drop_last();
    assert(v =~= seq!['\''] + e + seq!['\'']);
    assert(v.subrange(1, v.len() - 1) =~= e);
    if v.contains('\n') {
        let k = choose|k: int| 0 <= k < v.len() && v[k] == '\n';
        assert(e[k - 1] == '\n');
    }
}

/// Starting with no stored session always begins a running one that ends
/// `duration` minutes after `now`, written at the offset of `now`; it fails
/// only where that end cannot be written as a date-time.
pub proof fn lemma_start_on_empty(duration: i64, now: Moment)
    ensures
        match start_result(None, duration as int, now) {
            Ok(StartView::Started(s)) => {
                &&& s.running
                &&& i64::MIN <= end_millis(duration as int, now) <= i64::MAX
                &&& rfc3339_text(end_millis(duration as int, now) as i64, now.offset_secs) == Some(
                    s.ends_at,
                )
            },
            Ok(StartView::Active { .. }) => false,
            Err(e) => {
                &&& e == PomError::OutOfRange
                &&& (end_millis(duration as int, now) < i64::MIN || end_millis(duration as int, now)
                    > i64::MAX || rfc3339_text(end_millis(duration as int, now) as i64, now.offset_secs)
                    is None)
            },
        },
{
}

/// A running session that ends ten minutes after `now` is kept unchanged by
/// `start`, whatever the duration asked for, with ten minutes reported left.
pub proof fn lemma_no_clobber(p: PomView, end: i64, duration: i64, now: Moment)
    requires
        p.running,
        rfc3339_instant(p.ends_at) == Some(end),
        end == now.millis + 600000,
    ensures
        start_result(Some(p), duration as int, now) == Ok::<StartView, PomError>(
            StartView::Active { session: p, minutes_left: 10 },
        ),
{
}

/// A running session whose end has passed is replaced by `start` with a new
/// one, as if none were stored.
pub proof fn lemma_expired_restart(p: PomView, end: i64, duration: i64, now: Moment)
    requires
        p.running,
        rfc3339_instant(p.ends_at) == Some(end),
        end < now.millis,
    ensures
        start_result(Some(p), duration as int, now) == fresh_start(duration as int, now),
        start_result(Some(p), duration as int, now) == start_result(None, duration as int, now),
{
}

/// Stopping twice: the first stop clears a running session, and a second
/// stop on what the first left finds nothing running and writes nothing. This
/// holds of every record that a document can be read into.
pub proof fn lemma_stop_twice(p: PomView)
    requires
        readable_end(p),
    ensures
        p.running ==> stop_result(Some(p)) == Ok::<StopView, PomError>(StopView::Stopped(cleared())),
        !cleared().running,
        ({
            let after = match stop_result(Some(p)) {
                Ok(StopView::Stopped(q)) => q,
                _ => p,
            };
            stop_result(Some(after)) == Ok::<StopView, PomError>(StopView::NotRunning)
        }),
{
}

/// A running session five minutes past its end reports five minutes
/// overdue; one five minutes before its end reports five minutes left.
pub proof fn lemma_status_sign(p: PomView, end: i64, now: Moment)
    requires
        p.running,
        rfc3339_instant(p.ends_at) == Some(end),
    ensures
        end == now.millis - 300000 ==> status_result(Some(p), now) == Ok::<Status, PomError>(
            Status::Overdue(-5i64),
        ),
        end == now.millis + 300000 ==> status_result(Some(p), now) == Ok::<Status, PomError>(
            Status::Remaining(5),
        ),
{
}

/// With no stored session, both stop and status fail with `NotFound`, and so
/// hand nothing back to be written.
pub proof fn lemma_missing(now: Moment)
    ensures
        stop_result(None) == Err::<StopView, PomError>(PomError::NotFound),
        status_result(None, now) == Err::<Status, PomError>(PomError::NotFound),
{
}

} // verus!
