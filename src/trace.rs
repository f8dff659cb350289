//! Whole runs: what a session asks for after any sequence of outcomes, and
//! the properties that every run has.
use vstd::prelude::*;

use crate::answer::affirmative;
use crate::session::{Action, Event, Options, Phase, Session, TouchError};

verus! {

/// The state after the outcomes `events`, handed back in order from `s`.
pub open spec fn run(s: Session, events: Seq<Event>) -> Session
    decreases events.len(),
{
    if events.len() == 0 {
        s
    } else {
        run(s, events.drop_last()).next(events.last().positive())
    }
}

/// The `k`-th action of a run from `s` fed with `events` (the 0-th is the
/// one asked for before any outcome).
pub open spec fn action_at(s: Session, events: Seq<Event>, k: int) -> Action {
    run(s, events.take(k)).action_spec()
}

/// What holds of every state that a run from `initial(options)` reaches.
pub open spec fn reachable_inv(options: Options, s: Session) -> bool {
    &&& s.options == options
    &&& (s.phase is Finished || s.index < options.path_count)
    &&& (options.quiet ==> !(s.phase is Report))
    &&& (!options.interactive ==> !(s.phase is Check) && !(s.phase is Confirm))
    &&& (s.phase matches Phase::Finished(Err(e)) ==> e.index_spec() == s.index)
}

proof fn lemma_next_inv(options: Options, s: Session, p: bool)
    requires
        reachable_inv(options, s),
    ensures
        reachable_inv(options, s.next(p)),
        s.next(p).index >= s.index,
        !(s.phase is Report) ==> s.next(p).banner_shown == s.banner_shown,
        s.phase is Report ==> s.next(p).banner_shown,
{
}

proof fn lemma_run_inv(options: Options, events: Seq<Event>)
    ensures
        reachable_inv(options, run(Session::initial(options), events)),
    decreases events.len(),
{
    if events.len() > 0 {
        lemma_run_inv(options, events.drop_last());
        lemma_next_inv(options, run(Session::initial(options), events.drop_last()), events.last().positive());
    }
}

/// Feeding two sequences one after the other is feeding their concatenation.
proof fn lemma_run_append(s: Session, a: Seq<Event>, b: Seq<Event>)
    ensures
        run(s, a + b) == run(run(s, a), b),
    decreases b.len(),
{
    if b.len() == 0 {
        assert(a + b =~= a);
    } else {
        assert((a + b).drop_last() =~= a + b.drop_last());
        lemma_run_append(s, a, b.drop_last());
    }
}

/// A finished session never changes.
proof fn lemma_finished_stays(s: Session, events: Seq<Event>)
    requires
        s.phase is Finished,
    ensures
        run(s, events) == s,
    decreases events.len(),
{
    if events.len() > 0 {
        lemma_finished_stays(s, events.drop_last());
    }
}

/// From the `j`-th state on, the run continues with the rest of the events.
proof fn lemma_split(s: Session, events: Seq<Event>, j: int, k: int)
    requires
        0 <= j <= k <= events.len(),
    ensures
        run(s, events.take(k)) == run(run(s, events.take(j)), events.subrange(j, k)),
{
    assert(events.take(k) =~= events.take(j) + events.subrange(j, k));
    lemma_run_append(s, events.take(j), events.subrange(j, k));
}

/// Under a reachable state the path number never goes down.
proof fn lemma_index_grows(options: Options, s: Session, events: Seq<Event>)
    requires
        reachable_inv(options, s),
    ensures
        reachable_inv(options, run(s, events)),
        run(s, events).index >= s.index,
    decreases events.len(),
{
    if events.len() > 0 {
        lemma_index_grows(options, s, events.drop_last());
        lemma_next_inv(options, run(s, events.drop_last()), events.last().positive());
    }
}

/// Without paths, a run asks for nothing but its successful end, whatever
/// it is handed.
pub proof fn law_empty_input(options: Options, events: Seq<Event>, k: int)
    requires
        options.path_count == 0,
        0 <= k <= events.len(),
    ensures
        action_at(Session::initial(options), events, k) == Action::Finish(Ok(())),
{
    lemma_finished_stays(Session::initial(options), events.take(k));
}

/// A quiet run never asks for a report line; a quiet run that is not
/// interactive does not ask the operator either, so it prints nothing.
pub proof fn law_quiet_is_silent(options: Options, events: Seq<Event>, k: int)
    requires
        options.quiet,
        0 <= k <= events.len(),
    ensures
        !(action_at(Session::initial(options), events, k) is Report),
        !options.interactive ==> !(action_at(Session::initial(options), events, k) is Confirm),
{
    lemma_run_inv(options, events.take(k));
}

/// Once a run has finished, with success or an error, it asks for nothing
/// else.
pub proof fn law_finish_is_final(options: Options, events: Seq<Event>, j: int, k: int)
    requires
        0 <= j <= k <= events.len(),
        action_at(Session::initial(options), events, j) is Finish,
    ensures
        action_at(Session::initial(options), events, k) == action_at(
            Session::initial(options),
            events,
            j,
        ),
{
    let s = Session::initial(options);
    lemma_split(s, events, j, k);
    lemma_finished_stays(run(s, events.take(j)), events.subrange(j, k));
}

/// Paths are handled in their order: an action never names an earlier path
/// than an action before it.
pub proof fn law_paths_in_order(options: Options, events: Seq<Event>, j: int, k: int)
    requires
        0 <= j <= k <= events.len(),
        action_at(Session::initial(options), events, j).target() is Some,
        action_at(Session::initial(options), events, k).target() is Some,
    ensures
        action_at(Session::initial(options), events, j).target().unwrap()
            <= action_at(Session::initial(options), events, k).target().unwrap(),
{
    let s = Session::initial(options);
    lemma_split(s, events, j, k);
    lemma_run_inv(options, events.take(j));
    lemma_index_grows(options, run(s, events.take(j)), events.subrange(j, k));
}

/// A run that ends with an error on a path never names a later path, and
/// asks for nothing after the error.
pub proof fn law_fail_fast(options: Options, events: Seq<Event>, k: int, e: TouchError, j: int)
    requires
        0 <= k <= events.len(),
        0 <= j <= events.len(),
        action_at(Session::initial(options), events, k) == Action::Finish(Err(e)),
    ensures
        action_at(Session::initial(options), events, j).target() is Some
            ==> action_at(Session::initial(options), events, j).target().unwrap() <= e.index_spec(),
        j >= k ==> action_at(Session::initial(options), events, j) == Action::Finish(Err(e)),
{
    let s = Session::initial(options);
    if j >= k {
        law_finish_is_final(options, events, k, j);
    } else {
        lemma_split(s, events, j, k);
        lemma_run_inv(options, events.take(j));
        lemma_run_inv(options, events.take(k));
        lemma_index_grows(options, run(s, events.take(j)), events.subrange(j, k));
    }
}

/// A path that the operator declines to overwrite is left alone: no action
/// after the answer names it.
pub proof fn law_decline_skips(options: Options, events: Seq<Event>, k: int, b: Option<u8>, j: int)
    requires
        0 <= k < j <= events.len(),
        action_at(Session::initial(options), events, k) is Confirm,
        events[k] == Event::Answer(b),
        !affirmative(b),
    ensures
        action_at(Session::initial(options), events, j).target() is Some
            ==> action_at(Session::initial(options), events, j).target().unwrap()
            > action_at(Session::initial(options), events, k).target().unwrap(),
{
    let s = Session::initial(options);
    let sk = run(s, events.take(k));
    assert(events.take(k + 1).drop_last() =~= events.take(k));
    let sk1 = run(s, events.take(k + 1));
    assert(sk1 == sk.next(false));
    lemma_run_inv(options, events.take(k + 1));
    lemma_split(s, events, k + 1, j);
    if sk1.phase is Finished {
        lemma_finished_stays(sk1, events.subrange(k + 1, j));
    } else {
        lemma_index_grows(options, sk1, events.subrange(k + 1, j));
    }
}

/// A path is opened only right after its parent directories were created.
pub proof fn law_directories_before_open(options: Options, events: Seq<Event>, k: int)
    requires
        0 <= k <= events.len(),
        action_at(Session::initial(options), events, k) is OpenAppend,
    ensures
        k > 0,
        action_at(Session::initial(options), events, k - 1) == Action::CreateParentDir(
            action_at(Session::initial(options), events, k).target().unwrap(),
        ),
        events[k - 1].positive(),
{
    if k == 0 {
        assert(events.take(0) =~= Seq::<Event>::empty());
    } else {
        assert(events.take(k).drop_last() =~= events.take(k - 1));
    }
}

/// The banner has been asked for exactly when some report has.
proof fn lemma_banner_tracks_reports(options: Options, events: Seq<Event>)
    ensures
        run(Session::initial(options), events).banner_shown <==> exists|j: int|
            0 <= j < events.len() && #[trigger] action_at(Session::initial(options), events, j) is Report,
    decreases events.len(),
{
    let s = Session::initial(options);
    if events.len() > 0 {
        let prev = events.drop_last();
        lemma_banner_tracks_reports(options, prev);
        lemma_run_inv(options, prev);
        lemma_next_inv(options, run(s, prev), events.last().positive());
        assert forall|j: int| 0 <= j < events.len() implies action_at(s, events, j) == action_at(
            s,
            prev,
            j,
        ) by {
            assert(events.take(j) =~= prev.take(j));
        }
        assert(prev.take(prev.len() as int) =~= prev);
        if run(s, prev).phase is Report {
            assert(action_at(s, events, prev.len() as int) is Report);
        }
        if run(s, events).banner_shown && !run(s, prev).banner_shown {
            assert(action_at(s, events, prev.len() as int) is Report);
        }
        if exists|j: int| 0 <= j < events.len() && #[trigger] action_at(s, events, j) is Report {
            let j = choose|j: int| 0 <= j < events.len() && #[trigger] action_at(s, events, j) is Report;
            if j < prev.len() {
                assert(action_at(s, prev, j) is Report);
            }
        }
    }
}

/// The banner comes with the first report of a run and with no other.
pub proof fn law_banner_once(options: Options, events: Seq<Event>, k: int)
    requires
        0 <= k <= events.len(),
        action_at(Session::initial(options), events, k) is Report,
    ensures
        action_at(Session::initial(options), events, k)->banner <==> forall|j: int|
            0 <= j < k ==> !(#[trigger] action_at(Session::initial(options), events, j) is Report),
{
    let s = Session::initial(options);
    let pre = events.take(k);
    lemma_banner_tracks_reports(options, pre);
    assert forall|j: int| 0 <= j < k implies action_at(s, events, j) == action_at(s, pre, j) by {
        assert(events.take(j) =~= pre.take(j));
    }
}

} // verus!
