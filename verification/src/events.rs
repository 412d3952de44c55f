use vstd::prelude::*;

use crate::models::RepoEventKind;

verus! {

/// One recorded user action, as the event log holds it.
#[derive(Clone, Debug)]
pub struct EventRow {
    pub id: i64,
    pub repository_id: i64,
    pub kind: RepoEventKind,
    pub created_at: String,
}

/// Every event of the log has its own id.
pub open spec fn distinct_event_ids(events: Seq<EventRow>) -> bool {
    forall|i: int, j: int|
        0 <= i < events.len() && 0 <= j < events.len() && i != j ==> #[trigger] events[i].id
            != #[trigger] events[j].id
}

/// Whether the log holds any event for the repository.
pub open spec fn has_event_for(events: Seq<EventRow>, repository_id: i64) -> bool {
    exists|j: int| 0 <= j < events.len() && #[trigger] events[j].repository_id == repository_id
}

/// Whether any event was recorded for the repository: a repository that the user has
/// already seen, saved, skipped, returned to or opened goes back into no queue.
pub fn has_prior_interaction(events: &Vec<EventRow>, repository_id: i64) -> (r: bool)
    ensures
        r == has_event_for(events@, repository_id),
{
    let n = events.len();
    for i in 0..n
        invariant
            n == events@.len(),
            forall|j: int| 0 <= j < i ==> #[trigger] events@[j].repository_id != repository_id,
    {
        if events[i].repository_id == repository_id {
            return true;
        }
    }
    false
}

// ---------------------------------------------------------------------------
// Latest event per repository (the history view)
// ---------------------------------------------------------------------------

/// Event `i` is the most recent event of its repository: no event of the same repository
/// has a greater id.
pub open spec fn is_latest_event(events: Seq<EventRow>, i: int) -> bool {
    &&& 0 <= i < events.len()
    &&& forall|j: int|
        0 <= j < events.len() && #[trigger] events[j].repository_id == events[i].repository_id
            ==> events[j].id <= events[i].id
}

/// The indices `order` list, newest first, exactly the latest event of each repository.
pub open spec fn is_history_order(events: Seq<EventRow>, order: Seq<usize>) -> bool {
    &&& forall|k: int| 0 <= k < order.len() ==> is_latest_event(events, #[trigger] order[k] as int)
    &&& forall|i: int| is_latest_event(events, i) ==> exists|k: int|
        0 <= k < order.len() && #[trigger] order[k] as int == i
    &&& forall|k: int, l: int|
        0 <= k < l < order.len() ==> events[#[trigger] order[k] as int].id > events[#[trigger] order[l] as int].id
}

/// Whether event `i` is the most recent event of its repository.
fn is_latest_at(events: &Vec<EventRow>, i: usize) -> (r: bool)
    requires
        i < events@.len(),
    ensures
        r == is_latest_event(events@, i as int),
{
    let n = events.len();
    let repo = events[i].repository_id;
    let id = events[i].id;
    for j in 0..n
        invariant
            n == events@.len(),
            i < n,
            repo == events@[i as int].repository_id,
            id == events@[i as int].id,
            forall|x: int|
                0 <= x < j && #[trigger] events@[x].repository_id == repo ==> events@[x].id <= id,
    {
        if events[j].repository_id == repo && events[j].id > id {
            return false;
        }
    }
    true
}

/// The entries of `order` are indices below `bound`, each the latest event of its
/// repository, listed with strictly decreasing ids.
pub open spec fn is_newest_first(events: Seq<EventRow>, order: Seq<usize>, bound: int) -> bool {
    &&& forall|k: int| 0 <= k < order.len() ==> #[trigger] order[k] < bound
    &&& forall|k: int| 0 <= k < order.len() ==> is_latest_event(events, #[trigger] order[k] as int)
    &&& forall|k: int, l: int|
        0 <= k < l < order.len() ==> events[#[trigger] order[k] as int].id > events[#[trigger] order[l] as int].id
}

/// Puts the latest event `i` into `order` at the place that keeps the ids decreasing.
fn insert_newest_first(events: &Vec<EventRow>, order: &mut Vec<usize>, i: usize)
    requires
        distinct_event_ids(events@),
        is_latest_event(events@, i as int),
        is_newest_first(events@, old(order)@, i as int),
    ensures
        is_newest_first(events@, final(order)@, i + 1),
        final(order)@.contains(i),
        forall|x: usize| old(order)@.contains(x) ==> final(order)@.contains(x),
{
    let id = events[i].id;
    let mut pos: usize = 0;
    while pos < order.len() && events[order[pos]].id > id
        invariant
            i < events@.len(),
            id == events@[i as int].id,
            pos <= order@.len(),
            is_newest_first(events@, order@, i as int),
            forall|k: int| 0 <= k < pos ==> events@[#[trigger] order@[k] as int].id > id,
        decreases order@.len() - pos,
    {
        pos = pos + 1;
    }
    let ghost old_order = order@;
    proof {
        assert forall|k: int| pos <= k < order@.len() implies events@[#[trigger] order@[k] as int].id
            < id by {
            assert(events@[order@[pos as int] as int].id <= id);
            if k > pos {
                assert(events@[order@[pos as int] as int].id > events@[order@[k] as int].id);
            }
            assert(order@[k] != i);
        }
    }
    order.insert(pos, i);
    proof {
        assert(order@[pos as int] == i);
        assert forall|x: usize| old_order.contains(x) implies order@.contains(x) by {
            let k = choose|k: int| 0 <= k < old_order.len() && old_order[k] == x;
            if k < pos {
                assert(order@[k] == x);
            } else {
                assert(order@[k + 1] == x);
            }
        }
        assert forall|k: int, l: int| 0 <= k < l < order@.len() implies events@[#[trigger] order@[k] as int].id
            > events@[#[trigger] order@[l] as int].id by {
            if l < pos {
                assert(order@[k] == old_order[k] && order@[l] == old_order[l]);
            } else if l == pos {
                assert(order@[k] == old_order[k]);
            } else if k < pos {
                assert(order@[k] == old_order[k] && order@[l] == old_order[l - 1]);
            } else if k == pos {
                assert(order@[l] == old_order[l - 1]);
            } else {
                assert(order@[k] == old_order[k - 1] && order@[l] == old_order[l - 1]);
            }
        }
        assert forall|k: int| 0 <= k < order@.len() implies #[trigger] order@[k] < i + 1
            && is_latest_event(events@, order@[k] as int) by {
            if k < pos {
                assert(order@[k] == old_order[k]);
            } else if k > pos {
                assert(order@[k] == old_order[k - 1]);
            }
        }
    }
}

/// The history of the log: for each repository its latest event, the most recent first.
/// The result holds indices into `events`.
pub fn history_order(events: &Vec<EventRow>) -> (order: Vec<usize>)
    requires
        distinct_event_ids(events@),
    ensures
        is_history_order(events@, order@),
{
    let n = events.len();
    let mut order: Vec<usize> = Vec::new();
    for i in 0..n
        invariant
            n == events@.len(),
            distinct_event_ids(events@),
            is_newest_first(events@, order@, i as int),
            forall|x: int| 0 <= x < i && is_latest_event(events@, x) ==> order@.contains(x as usize),
    {
        if is_latest_at(events, i) {
            let ghost before = order@;
            insert_newest_first(events, &mut order, i);
            proof {
                assert forall|x: int| 0 <= x < i + 1 && is_latest_event(events@, x) implies order@.contains(
                    x as usize,
                ) by {
                    if x < i {
                        assert(before.contains(x as usize));
                    }
                }
            }
        }
    }
    proof {
        assert forall|x: int| is_latest_event(events@, x) implies exists|k: int|
            0 <= k < order@.len() && #[trigger] order@[k] as int == x by {
            assert(order@.contains(x as usize));
            let k = choose|k: int| 0 <= k < order@.len() && order@[k] == x as usize;
            assert(order@[k] as int == x);
        }
    }
    order
}

/// What was just recorded leads the history: an event newer than every event of the log
/// becomes the first history entry, so the history shows its kind for its repository.
pub proof fn law_new_event_leads_history(events: Seq<EventRow>, event: EventRow, order: Seq<usize>)
    requires
        distinct_event_ids(events),
        forall|j: int| 0 <= j < events.len() ==> (#[trigger] events[j]).id < event.id,
        is_history_order(events.push(event), order),
    ensures
        order.len() > 0,
        order[0] == events.len(),
        events.push(event)[order[0] as int] == event,
{
    let log = events.push(event);
    let n = events.len() as int;
    assert(log[n] == event);
    assert forall|j: int| 0 <= j < log.len() && #[trigger] log[j].repository_id == log[n].repository_id implies log[j].id
        <= log[n].id by {
        if j < n {
            assert(log[j] == events[j]);
        }
    }
    assert(is_latest_event(log, n));
    let k = choose|k: int| 0 <= k < order.len() && #[trigger] order[k] as int == n;
    if k > 0 {
        assert(log[order[0] as int].id > log[order[k] as int].id);
        assert(is_latest_event(log, order[0] as int));
        assert(order[0] as int != n);
        assert(log[order[0] as int] == events[order[0] as int]);
    }
}

// ---------------------------------------------------------------------------
// Going back through the reel
// ---------------------------------------------------------------------------

/// Where the reel stands after a log: the repositories viewed so far, in order, and the
/// 1-based position of the one shown now (0 when none was viewed).
pub open spec fn reel_step(trail: (Seq<i64>, nat), event: EventRow) -> (Seq<i64>, nat) {
    match event.kind {
        RepoEventKind::Viewed => (trail.0.push(event.repository_id), trail.0.len() + 1),
        RepoEventKind::Returned => if trail.1 >= 2 {
            (trail.0, (trail.1 - 1) as nat)
        } else {
            trail
        },
        _ => trail,
    }
}

/// The reel's trail after all events of the log, in the order they were recorded.
/// Viewing a repository appends it and makes it current; going back moves the current
/// position one step towards the start; other events leave the trail as it is.
pub open spec fn reel_trail(events: Seq<EventRow>) -> (Seq<i64>, nat)
    decreases events.len(),
{
    if events.len() == 0 {
        (Seq::empty(), 0)
    } else {
        reel_step(reel_trail(events.drop_last()), events.last())
    }
}

/// The repository that "previous" goes back to: the one viewed just before the current
/// one.
pub open spec fn previous_target(events: Seq<EventRow>) -> Option<i64> {
    let trail = reel_trail(events);
    if trail.1 >= 2 {
        Some(trail.0[trail.1 - 2])
    } else {
        None
    }
}

/// The repository that going back from the current position of the log shows, if any.
pub fn previous_reel_repository_id(events: &Vec<EventRow>) -> (r: Option<i64>)
    ensures
        r == previous_target(events@),
{
    let n = events.len();
    let mut viewed: Vec<i64> = Vec::new();
    let mut current: usize = 0;
    for i in 0..n
        invariant
            n == events@.len(),
            (viewed@, current as nat) == reel_trail(events@.take(i as int)),
            current <= viewed@.len(),
            viewed@.len() <= i,
    {
        proof {
            assert(events@.take(i + 1).drop_last() =~= events@.take(i as int));
        }
        match events[i].kind {
            RepoEventKind::Viewed => {
                viewed.push(events[i].repository_id);
                current = viewed.len();
            },
            RepoEventKind::Returned => {
                if current >= 2 {
                    current = current - 1;
                }
            },
            _ => {},
        }
    }
    proof {
        assert(events@.take(n as int) =~= events@);
    }
    if current >= 2 {
        Some(viewed[current - 2])
    } else {
        None
    }
}

/// Viewing two repositories one after the other makes the first one the target of going
/// back, whatever came before.
pub proof fn law_previous_after_two_views(log: Seq<EventRow>, first: EventRow, second: EventRow)
    requires
        first.kind == RepoEventKind::Viewed,
        second.kind == RepoEventKind::Viewed,
    ensures
        previous_target(log.push(first).push(second)) == Some(first.repository_id),
{
    let once = log.push(first);
    let twice = once.push(second);
    assert(twice.drop_last() =~= once);
    assert(once.drop_last() =~= log);
    let t0 = reel_trail(log);
    assert(reel_trail(once) == reel_step(t0, first));
    assert(reel_trail(twice) == reel_step(reel_trail(once), second));
    assert(reel_trail(twice).0[reel_trail(twice).1 - 2] == first.repository_id);
}

/// Going back walks the trail backwards: after returning to the previous repository, the
/// next step back is the repository viewed before that one, and nothing else changes.
pub proof fn law_previous_walks_back(log: Seq<EventRow>, back: EventRow)
    requires
        back.kind == RepoEventKind::Returned,
        previous_target(log) is Some,
    ensures
        reel_trail(log.push(back)).0 == reel_trail(log).0,
        reel_trail(log.push(back)).1 == reel_trail(log).1 - 1,
        previous_target(log.push(back)) == if reel_trail(log).1 >= 3 {
            Some(reel_trail(log).0[reel_trail(log).1 - 3])
        } else {
            None::<i64>
        },
{
    assert(log.push(back).drop_last() =~= log);
}

/// Only viewing and going back move the reel: any other event (saving, skipping, opening
/// the details) leaves the repository that "previous" goes back to as it was.
pub proof fn law_other_events_keep_previous(log: Seq<EventRow>, event: EventRow)
    requires
        event.kind != RepoEventKind::Viewed,
        event.kind != RepoEventKind::Returned,
    ensures
        reel_trail(log.push(event)) == reel_trail(log),
        previous_target(log.push(event)) == previous_target(log),
{
    assert(log.push(event).drop_last() =~= log);
}

/// Viewing two repositories and then skipping, saving or opening the second goes back to
/// the first.
pub proof fn law_previous_after_views_and_other_event(log: Seq<EventRow>, first: EventRow, second: EventRow, other: EventRow)
    requires
        first.kind == RepoEventKind::Viewed,
        second.kind == RepoEventKind::Viewed,
        other.kind != RepoEventKind::Viewed,
        other.kind != RepoEventKind::Returned,
    ensures
        previous_target(log.push(first).push(second).push(other)) == Some(first.repository_id),
{
    law_previous_after_two_views(log, first, second);
    law_other_events_keep_previous(log.push(first).push(second), other);
}

} // verus!
