use vstd::prelude::*;

use crate::text::{joined, same_text};

verus! {

/// A repository as discovery hands it over, before it has a local id.
#[derive(Clone, Debug)]
pub struct NewRepository {
    pub github_id: Option<i64>,
    pub owner: String,
    pub name: String,
    pub full_name: String,
    pub description: Option<String>,
    pub primary_language: Option<String>,
    pub stars: i64,
    pub forks: i64,
    pub license: Option<String>,
    pub updated_at: String,
    pub topics: Vec<String>,
    pub html_url: String,
    pub readme_preview: Option<String>,
}

/// A repository as it is stored locally, with its local id.
#[derive(Clone, Debug)]
pub struct Repository {
    pub id: i64,
    pub github_id: Option<i64>,
    pub owner: String,
    pub name: String,
    pub full_name: String,
    pub description: Option<String>,
    pub primary_language: Option<String>,
    pub stars: i64,
    pub forks: i64,
    pub license: Option<String>,
    pub updated_at: String,
    pub topics: Vec<String>,
    pub html_url: String,
    pub readme_preview: Option<String>,
}

/// What the user did with a repository.
#[derive(Clone, Copy, Debug, PartialEq, Eq, Structural)]
pub enum RepoEventKind {
    Viewed,
    Saved,
    Skipped,
    Returned,
    DetailOpened,
}

/// The stored name of an event kind.
pub open spec fn event_kind_name(kind: RepoEventKind) -> Seq<char> {
    match kind {
        RepoEventKind::Viewed => "viewed"@,
        RepoEventKind::Saved => "saved"@,
        RepoEventKind::Skipped => "skipped"@,
        RepoEventKind::Returned => "returned"@,
        RepoEventKind::DetailOpened => "detail_opened"@,
    }
}

/// The event kind stored under `name`, if any.
pub open spec fn event_kind_named(name: Seq<char>) -> Option<RepoEventKind> {
    if name == "viewed"@ {
        Some(RepoEventKind::Viewed)
    } else if name == "saved"@ {
        Some(RepoEventKind::Saved)
    } else if name == "skipped"@ {
        Some(RepoEventKind::Skipped)
    } else if name == "returned"@ {
        Some(RepoEventKind::Returned)
    } else if name == "detail_opened"@ {
        Some(RepoEventKind::DetailOpened)
    } else {
        None
    }
}

/// The message of the error for a name that no event kind has.
pub open spec fn unknown_event_kind_message(name: Seq<char>) -> Seq<char> {
    "unknown event kind: "@ + name
}

/// Reading back the stored name of an event kind gives that kind again, so no two kinds
/// share a name.
pub proof fn law_event_kind_name_round_trip(kind: RepoEventKind)
    ensures
        event_kind_named(event_kind_name(kind)) == Some(kind),
{
    reveal_strlit("viewed");
    reveal_strlit("saved");
    reveal_strlit("skipped");
    reveal_strlit("returned");
    reveal_strlit("detail_opened");
    assert("viewed"@.len() == 6 && "saved"@.len() == 5 && "skipped"@.len() == 7
        && "returned"@.len() == 8 && "detail_opened"@.len() == 13);
}

impl RepoEventKind {
    /// The stored name of this event kind.
    pub fn as_str(self) -> (r: &'static str)
        ensures
            r@ == event_kind_name(self),
    {
        match self {
            RepoEventKind::Viewed => "viewed",
            RepoEventKind::Saved => "saved",
            RepoEventKind::Skipped => "skipped",
            RepoEventKind::Returned => "returned",
            RepoEventKind::DetailOpened => "detail_opened",
        }
    }

    /// The event kind stored under `value`, or the error message for an unknown name.
    pub fn from_name(value: &str) -> (r: Result<RepoEventKind, String>)
        ensures
            match event_kind_named(value@) {
                Some(k) => r == Ok::<RepoEventKind, String>(k),
                None => r matches Err(e) && e@ == unknown_event_kind_message(value@),
            },
    {
        if same_text(value, "viewed") {
            Ok(RepoEventKind::Viewed)
        } else if same_text(value, "saved") {
            Ok(RepoEventKind::Saved)
        } else if same_text(value, "skipped") {
            Ok(RepoEventKind::Skipped)
        } else if same_text(value, "returned") {
            Ok(RepoEventKind::Returned)
        } else if same_text(value, "detail_opened") {
            Ok(RepoEventKind::DetailOpened)
        } else {
            Err(joined("unknown event kind: ", value))
        }
    }
}

impl TryFrom<String> for RepoEventKind {
    type Error = String;

    /// The event kind stored under `value`, or the error message for an unknown name.
    fn try_from(value: String) -> (r: Result<Self, Self::Error>)
        ensures
            match event_kind_named(value@) {
                Some(k) => r == Ok::<RepoEventKind, String>(k),
                None => r matches Err(e) && e@ == unknown_event_kind_message(value@),
            },
    {
        RepoEventKind::from_name(value.as_str())
    }
}

impl vstd::std_specs::convert::TryFromSpecImpl<String> for RepoEventKind {
    /// The error of an unknown name is a `String`, which no spec value can spell out, so
    /// the result is stated on `try_from` itself instead.
    open spec fn obeys_try_from_spec() -> bool {
        false
    }

    open spec fn try_from_spec(v: String) -> Result<Self, String> {
        arbitrary()
    }
}

/// A repository together with the latest thing the user did with it.
#[derive(Clone, Debug)]
pub struct HistoryItem {
    pub repository: Repository,
    pub latest_event: RepoEventKind,
    pub latest_event_at: String,
}

/// What the reel shows: a repository, or the reason why there is none.
#[derive(Clone, Debug)]
pub struct ReelResponse {
    pub repository: Option<Repository>,
    pub empty_reason: Option<String>,
}

impl ReelResponse {
    /// The reel before the user connected GitHub: nothing to show, and the reason.
    pub fn auth_required() -> (r: Self)
        ensures
            r.repository is None,
            r.empty_reason matches Some(reason) && reason@ == "auth_required"@,
    {
        ReelResponse { repository: None, empty_reason: Some(String::from_str("auth_required")) }
    }

    /// The reel showing the head of the queue, or saying that the queue is empty.
    pub fn from_queue(repository: Option<Repository>) -> (r: Self)
        ensures
            r.repository == repository,
            repository is None ==> (r.empty_reason matches Some(reason) && reason@ == "queue_empty"@),
            repository is Some ==> r.empty_reason is None,
    {
        let empty_reason = if repository.is_none() {
            Some(String::from_str("queue_empty"))
        } else {
            None
        };
        ReelResponse { repository, empty_reason }
    }

    /// The reel after going back: the earlier repository, if there was one; going back
    /// gives no reason when there is none.
    pub fn went_back(repository: Option<Repository>) -> (r: Self)
        ensures
            r.repository == repository,
            r.empty_reason is None,
    {
        ReelResponse { repository, empty_reason: None }
    }
}

/// What the detail view of a repository shows.
#[derive(Clone, Debug)]
pub struct DetailView {
    pub repository_id: i64,
    pub memo: String,
    pub tags: Vec<String>,
    pub readme_preview: Option<String>,
    pub detail_error: Option<String>,
}

impl DetailView {
    /// The detail view: the memo (empty when there is none), the tags and the README
    /// preview of the repository.
    pub fn new(repository_id: i64, memo: Option<String>, tags: Vec<String>, readme_preview: Option<String>) -> (r: Self)
        ensures
            r.repository_id == repository_id,
            r.memo@ == match memo {
                Some(m) => m@,
                None => Seq::<char>::empty(),
            },
            r.tags == tags,
            r.readme_preview == readme_preview,
            r.detail_error is None,
    {
        let memo = match memo {
            Some(m) => m,
            None => String::new(),
        };
        DetailView { repository_id, memo, tags, readme_preview, detail_error: None }
    }
}

/// A saved repository with its memo and tags.
#[derive(Clone, Debug)]
pub struct SavedRepository {
    pub repository: Repository,
    pub memo: Option<String>,
    pub tags: Vec<String>,
    pub saved_at: String,
}

/// The body of a request that sets a memo.
#[derive(Clone, Debug)]
pub struct NoteRequest {
    pub body: String,
}

/// The body of a request that replaces the tags.
#[derive(Clone, Debug)]
pub struct TagsRequest {
    pub tags: Vec<String>,
}

} // verus!
