use vstd::prelude::*;

use crate::events::{has_event_for, has_prior_interaction, EventRow};
use crate::auth::{auth_access_token, usable_token, AuthRow};
use crate::config::opt_text;
use crate::github::GitHubError;
use crate::models::NewRepository;

verus! {

/// A repository that a discovery source proposes for the reel.
#[derive(Clone, Debug)]
pub struct DiscoveryCandidate {
    repository: NewRepository,
}

impl DiscoveryCandidate {
    /// The candidate's repository.
    pub closed spec fn spec_repository(self) -> NewRepository {
        self.repository
    }

    /// A candidate for the given repository.
    pub fn from_new_repository(repository: NewRepository) -> (r: Self)
        ensures
            r.spec_repository() == repository,
    {
        Self { repository }
    }

    /// The candidate's repository.
    pub fn repository(&self) -> (r: &NewRepository)
        ensures
            *r == self.spec_repository(),
    {
        &self.repository
    }
}

/// The repositories a batch accepts, given the local ids its candidates got, in candidate
/// order: a candidate is taken when nothing was recorded for its repository yet and no
/// earlier candidate of the batch took the same repository.
pub open spec fn accepted_ids_spec(ids: Seq<i64>, events: Seq<EventRow>) -> Seq<i64>
    decreases ids.len(),
{
    if ids.len() == 0 {
        Seq::empty()
    } else {
        let taken = accepted_ids_spec(ids.drop_last(), events);
        let id = ids.last();
        if has_event_for(events, id) || taken.contains(id) {
            taken
        } else {
            taken.push(id)
        }
    }
}

/// The local repository ids that a discovery batch queues, in candidate order.
pub fn accepted_repository_ids(candidate_ids: &Vec<i64>, events: &Vec<EventRow>) -> (accepted: Vec<i64>)
    ensures
        accepted@ == accepted_ids_spec(candidate_ids@, events@),
{
    let n = candidate_ids.len();
    let mut accepted: Vec<i64> = Vec::new();
    for i in 0..n
        invariant
            n == candidate_ids@.len(),
            accepted@ == accepted_ids_spec(candidate_ids@.take(i as int), events@),
    {
        proof {
            assert(candidate_ids@.take(i + 1).drop_last() =~= candidate_ids@.take(i as int));
        }
        let id = candidate_ids[i];
        let mut seen = false;
        for k in 0..accepted.len()
            invariant
                seen <==> exists|x: int| 0 <= x < k && accepted@[x] == id,
        {
            if accepted[k] == id {
                seen = true;
            }
        }
        if !seen && !has_prior_interaction(events, id) {
            accepted.push(id);
        }
    }
    proof {
        assert(candidate_ids@.take(n as int) =~= candidate_ids@);
    }
    accepted
}

/// A batch queues each repository at most once, never one that the user already
/// interacted with, and every other candidate repository.
pub proof fn law_accepted_ids(ids: Seq<i64>, events: Seq<EventRow>)
    ensures
        accepted_ids_spec(ids, events).no_duplicates(),
        forall|x: i64| #[trigger] accepted_ids_spec(ids, events).contains(x) <==> (ids.contains(x)
            && !has_event_for(events, x)),
        accepted_ids_spec(ids, events).len() <= ids.len(),
    decreases ids.len(),
{
    if ids.len() > 0 {
        let rest = ids.drop_last();
        law_accepted_ids(rest, events);
        let taken = accepted_ids_spec(rest, events);
        let id = ids.last();
        assert forall|x: i64| #[trigger] accepted_ids_spec(ids, events).contains(x) <==> (ids.contains(x)
            && !has_event_for(events, x)) by {
            if ids.contains(x) && x != id {
                let j = choose|j: int| 0 <= j < ids.len() && ids[j] == x;
                assert(rest[j] == x);
            }
            if rest.contains(x) {
                let j = choose|j: int| 0 <= j < rest.len() && rest[j] == x;
                assert(ids[j] == x);
            }
            if accepted_ids_spec(ids, events) != taken {
                assert(accepted_ids_spec(ids, events) == taken.push(id));
                if x == id {
                    assert(taken.push(id)[taken.len() as int] == id);
                    assert(ids[ids.len() - 1] == id);
                }
                if taken.push(id).contains(x) && x != id {
                    let j = choose|j: int| 0 <= j < taken.push(id).len() && taken.push(id)[j] == x;
                    assert(taken[j] == x);
                }
                if taken.contains(x) {
                    let j = choose|j: int| 0 <= j < taken.len() && taken[j] == x;
                    assert(taken.push(id)[j] == x);
                }
            } else if x == id {
                assert(ids[ids.len() - 1] == id);
            }
        }
    }
}

/// A repository that the user already did anything with is never queued again: once an
/// event is recorded for it, no later batch accepts it.
pub proof fn law_interacted_repository_is_not_requeued(ids: Seq<i64>, events: Seq<EventRow>, event: EventRow)
    ensures
        !accepted_ids_spec(ids, events.push(event)).contains(event.repository_id),
{
    let log = events.push(event);
    assert(log[events.len() as int] == event);
    assert(has_event_for(log, event.repository_id));
    law_accepted_ids(ids, log);
}

/// The token to refill the queue with: none while a repository is still waiting, else the
/// stored OAuth token, if the account is connected with one. Without a token the queue
/// stays empty; nothing else fills it.
pub fn refill_token(queue_has_head: bool, row: &Option<AuthRow>) -> (r: Option<String>)
    ensures
        opt_text(r) == if queue_has_head {
            None
        } else {
            usable_token(*row)
        },
{
    if queue_has_head {
        None
    } else {
        auth_access_token(row)
    }
}

/// The candidates for a list of repositories, in the same order.
pub fn candidates_from(repositories: Vec<NewRepository>) -> (r: Vec<DiscoveryCandidate>)
    ensures
        r@.len() == repositories@.len(),
        forall|i: int| 0 <= i < r@.len() ==> (#[trigger] r@[i]).spec_repository() == repositories@[i],
{
    let ghost all = repositories@;
    let n = repositories.len();
    let mut rest = repositories;
    let mut reversed: Vec<DiscoveryCandidate> = Vec::new();
    while rest.len() > 0
        invariant
            n == all.len(),
            reversed@.len() + rest@.len() == n,
            rest@ == all.subrange(0, rest@.len() as int),
            forall|j: int| 0 <= j < reversed@.len() ==> (#[trigger] reversed@[j]).spec_repository() == all[n - 1 - j],
        decreases rest@.len(),
    {
        let repository = rest.pop().unwrap();
        reversed.push(DiscoveryCandidate::from_new_repository(repository));
    }
    let mut out: Vec<DiscoveryCandidate> = Vec::new();
    while reversed.len() > 0
        invariant
            n == all.len(),
            out@.len() + reversed@.len() == n,
            forall|j: int| 0 <= j < out@.len() ==> (#[trigger] out@[j]).spec_repository() == all[j],
            forall|j: int| 0 <= j < reversed@.len() ==> (#[trigger] reversed@[j]).spec_repository() == all[n - 1 - j],
        decreases reversed@.len(),
    {
        let candidate = reversed.pop().unwrap();
        out.push(candidate);
    }
    out
}

/// What a discovery run does with GitHub's search: the query it ran and its repositories
/// become a batch of candidates; a failed search makes no batch, so nothing is recorded or
/// queued and the run still ends without an error.
pub fn discovery_batch(search: Result<(String, Vec<NewRepository>), GitHubError>) -> (r: Option<(String, Vec<DiscoveryCandidate>)>)
    ensures
        search is Err <==> r is None,
        search matches Ok((query, repositories)) ==> (r matches Some((q, candidates)) && q@ == query@
            && candidates@.len() == repositories@.len() && forall|i: int|
            0 <= i < candidates@.len() ==> (#[trigger] candidates@[i]).spec_repository() == repositories@[i]),
{
    match search {
        Ok((query, repositories)) => Some((query, candidates_from(repositories))),
        Err(_) => None,
    }
}

/// The strategy name recorded for batches that the OAuth search fills.
pub const OAUTH_SEARCH_STRATEGY: &'static str = "recently_updated_oauth_search";

} // verus!
