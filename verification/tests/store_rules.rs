use git_reel_server::discovery::{candidates_from, discovery_batch};
use git_reel_server::github::GitHubError;
use git_reel_server::discovery::{accepted_repository_ids, refill_token, DiscoveryCandidate};
use git_reel_server::auth::AuthRow;
use git_reel_server::events::{has_prior_interaction, history_order, previous_reel_repository_id, EventRow};
use git_reel_server::models::{NewRepository, RepoEventKind};
use git_reel_server::queue::{next_position, queue_head, rows_to_consume, QueueRow};
use git_reel_server::repositories::{normalize_full_name, repository_from_row, stored_from_new, RepositoryRow};
use git_reel_server::search::{like_matches, saved_matches};
use git_reel_server::tags::{normalize_tag, sort_tag_names, tags_to_store};
use git_reel_server::error::ApiError;

fn event(id: i64, repository_id: i64, kind: RepoEventKind) -> EventRow {
    EventRow { id, repository_id, kind, created_at: format!("2026-05-20 10:00:{id:02}") }
}

fn sample_repo(full_name: &str, github_id: i64) -> NewRepository {
    let (owner, name) = full_name.split_once('/').unwrap();
    NewRepository {
        github_id: Some(github_id),
        owner: owner.to_string(),
        name: name.to_string(),
        full_name: full_name.to_string(),
        description: Some("A useful local-first tool".to_string()),
        primary_language: Some("Rust".to_string()),
        stars: 42,
        forks: 3,
        license: Some("MIT".to_string()),
        updated_at: "2026-05-20T10:00:00Z".to_string(),
        topics: vec!["cli".to_string(), "sqlite".to_string()],
        html_url: format!("https://github.com/{full_name}"),
        readme_preview: Some("README preview".to_string()),
    }
}

#[test]
fn history_keeps_the_latest_event_per_repository() {
    let events = vec![
        event(1, 7, RepoEventKind::Viewed),
        event(2, 7, RepoEventKind::Skipped),
    ];
    let order = history_order(&events);
    assert_eq!(order, vec![1]);
    assert_eq!(events[order[0]].kind, RepoEventKind::Skipped);
}

#[test]
fn history_lists_newest_first() {
    let events = vec![
        event(1, 10, RepoEventKind::Viewed),
        event(2, 11, RepoEventKind::Viewed),
        event(3, 10, RepoEventKind::Saved),
        event(4, 12, RepoEventKind::Viewed),
        event(5, 11, RepoEventKind::DetailOpened),
    ];
    assert_eq!(history_order(&events), vec![4, 3, 2]);
    assert_eq!(history_order(&Vec::new()), Vec::<usize>::new());
}

#[test]
fn going_back_walks_the_view_history() {
    let mut events = vec![
        event(1, 503, RepoEventKind::Viewed),
        event(2, 504, RepoEventKind::Viewed),
        event(3, 505, RepoEventKind::Viewed),
    ];
    let back = previous_reel_repository_id(&events);
    assert_eq!(back, Some(504));
    events.push(event(4, 504, RepoEventKind::Returned));
    let back = previous_reel_repository_id(&events);
    assert_eq!(back, Some(503));
    events.push(event(5, 503, RepoEventKind::Returned));
    assert_eq!(previous_reel_repository_id(&events), None);
}

#[test]
fn previous_ignores_other_events_and_resumes_after_a_new_view() {
    let events = vec![
        event(1, 1, RepoEventKind::Viewed),
        event(2, 1, RepoEventKind::Saved),
        event(3, 2, RepoEventKind::Viewed),
        event(4, 1, RepoEventKind::Returned),
        event(5, 3, RepoEventKind::Viewed),
        event(6, 3, RepoEventKind::DetailOpened),
    ];
    assert_eq!(previous_reel_repository_id(&events), Some(2));
    assert_eq!(previous_reel_repository_id(&vec![event(1, 1, RepoEventKind::Viewed)]), None);
}

#[test]
fn prior_interaction_is_any_event() {
    let events = vec![event(1, 201, RepoEventKind::Viewed), event(2, 9, RepoEventKind::Skipped)];
    assert!(has_prior_interaction(&events, 201));
    assert!(has_prior_interaction(&events, 9));
    assert!(!has_prior_interaction(&events, 202));
}

#[test]
fn accepted_ids_skip_repositories_with_events() {
    let events = vec![event(1, 1, RepoEventKind::Viewed), event(2, 3, RepoEventKind::Skipped)];
    assert_eq!(accepted_repository_ids(&vec![1, 2, 3], &events), vec![2]);
}

#[test]
fn accepted_ids_keep_each_repository_once() {
    assert_eq!(accepted_repository_ids(&vec![5, 5, 6], &Vec::new()), vec![5, 6]);
    assert_eq!(accepted_repository_ids(&vec![6, 5, 6, 5], &Vec::new()), vec![6, 5]);
}

#[test]
fn candidate_keeps_its_repository() {
    let candidate = DiscoveryCandidate::from_new_repository(sample_repo("acme/fresh", 202));
    assert_eq!(candidate.repository().full_name, "acme/fresh");
    assert_eq!(candidate.repository().github_id, Some(202));
}

fn auth_row(connected: i64, token: Option<&str>) -> Option<AuthRow> {
    Some(AuthRow {
        connected,
        username: Some("octocat".to_string()),
        access_token: token.map(|t| t.to_string()),
        oauth_state: None,
    })
}

#[test]
fn discovery_refills_only_an_empty_queue_with_a_connected_token() {
    assert_eq!(refill_token(false, &auth_row(1, Some("gho_oauth_token"))), Some("gho_oauth_token".to_string()));
    assert_eq!(refill_token(true, &auth_row(1, Some("gho_oauth_token"))), None);
    assert_eq!(refill_token(false, &None), None);
    assert_eq!(refill_token(false, &auth_row(0, Some("gho_disconnected_token"))), None);
    assert_eq!(refill_token(false, &auth_row(1, None)), None);
}

fn row(id: i64, repository_id: i64, position: i64, consumed: bool) -> QueueRow {
    QueueRow { id, repository_id, position, consumed }
}

#[test]
fn queue_head_moves_on_after_each_claim() {
    let mut queue = vec![row(1, 205, 1, false), row(2, 206, 2, false)];
    let first = queue_head(&queue).unwrap();
    assert_eq!(queue[first].repository_id, 205);
    queue[first].consumed = true;
    let second = queue_head(&queue).unwrap();
    assert_eq!(queue[second].repository_id, 206);
    assert_ne!(first, second);
    queue[second].consumed = true;
    assert_eq!(queue_head(&queue), None);
}

#[test]
fn queue_head_takes_the_smallest_position() {
    let queue = vec![row(1, 1, 5, false), row(2, 2, 3, false), row(3, 3, 1, true), row(4, 4, 3, false)];
    assert_eq!(queue_head(&queue), Some(1));
    assert_eq!(queue_head(&Vec::new()), None);
}

#[test]
fn new_rows_go_after_every_position() {
    assert_eq!(next_position(&Vec::new()), 1);
    assert_eq!(next_position(&vec![row(1, 1, 4, true), row(2, 2, 2, false)]), 5);
}

#[test]
fn skip_consumes_only_the_open_rows_of_the_repository() {
    let queue = vec![row(1, 7, 1, false), row(2, 8, 2, false), row(3, 7, 3, true), row(4, 7, 4, false)];
    assert_eq!(rows_to_consume(&queue, 7), vec![1, 4]);
    assert_eq!(rows_to_consume(&queue, 9), Vec::<i64>::new());
}

#[test]
fn stored_tags_list_in_code_point_order() {
    let stored = tags_to_store(&vec!["rust".to_string(), "local-first".to_string()]);
    assert_eq!(stored, vec!["rust".to_string(), "local-first".to_string()]);
    assert_eq!(sort_tag_names(&stored), vec!["local-first".to_string(), "rust".to_string()]);
}

#[test]
fn tags_are_trimmed_lower_cased_and_kept_once() {
    let stored = tags_to_store(&vec![
        "  Rust ".to_string(),
        "rust".to_string(),
        "   ".to_string(),
        "\tCLI\n".to_string(),
        "".to_string(),
    ]);
    assert_eq!(stored, vec!["rust".to_string(), "cli".to_string()]);
    assert_eq!(normalize_tag("\u{3000}Éclair\u{00a0}"), "Éclair");
}

#[test]
fn tags_sort_by_code_point() {
    let names = vec!["rust".to_string(), "Zig".to_string(), "a".to_string(), "ab".to_string(), "日本".to_string()];
    assert_eq!(
        sort_tag_names(&names),
        vec!["Zig".to_string(), "a".to_string(), "ab".to_string(), "rust".to_string(), "日本".to_string()]
    );
}

#[test]
fn full_names_are_normalized() {
    assert_eq!(normalize_full_name("  Acme/Renamed "), "acme/renamed");
    assert_eq!(normalize_full_name("okw0204/git-reel"), "okw0204/git-reel");
}

#[test]
fn like_follows_sqlite() {
    assert!(like_matches("acme/saved", "%saved%"));
    assert!(like_matches("acme/saved", "%SAVED%"));
    assert!(like_matches("acme/saved", "acme_saved"));
    assert!(like_matches("acme/saved", "%"));
    assert!(like_matches("", "%"));
    assert!(!like_matches("acme/saved", "saved"));
    assert!(!like_matches("acme", "acme_"));
    assert!(like_matches("a%b", "a%b"));
    assert!(!like_matches("", "_"));
}

#[test]
fn saved_search_looks_at_name_and_description() {
    let desc = Some("A useful local-first tool".to_string());
    assert!(saved_matches("acme/saved", &desc, ""));
    assert!(saved_matches("acme/saved", &desc, "ACME"));
    assert!(saved_matches("acme/saved", &desc, "local-first"));
    assert!(!saved_matches("acme/saved", &desc, "python"));
    assert!(!saved_matches("acme/saved", &None, "tool"));
    assert!(saved_matches("Acme/Saved", &None, "e/s"));
}

#[test]
fn stored_row_reads_back_the_repository() {
    let stored = stored_from_new(sample_repo("Acme/Renamed", 100)).unwrap();
    assert_eq!(stored.normalized_full_name, "acme/renamed");
    assert_eq!(stored.full_name, "Acme/Renamed");
    assert_eq!(stored.topics_json, "[\"cli\",\"sqlite\"]");
    let back = repository_from_row(RepositoryRow { id: 9, stored }).unwrap();
    assert_eq!(back.id, 9);
    assert_eq!(back.full_name, "Acme/Renamed");
    assert_eq!(back.github_id, Some(100));
    assert_eq!(back.topics, vec!["cli".to_string(), "sqlite".to_string()]);
    assert_eq!(back.readme_preview.as_deref(), Some("README preview"));
}

#[test]
fn broken_topics_are_a_serialization_error() {
    let mut stored = stored_from_new(sample_repo("acme/broken", 101)).unwrap();
    stored.topics_json = "not json".to_string();
    match repository_from_row(RepositoryRow { id: 1, stored }) {
        Err(ApiError::Serialization(message)) => assert!(!message.is_empty()),
        other => panic!("unexpected {other:?}"),
    }
}

#[test]
fn new_rows_queue_behind_waiting_ones() {
    let mut queue = vec![row(1, 10, 1, true), row(2, 11, 2, false)];
    let position = next_position(&queue);
    queue.push(row(3, 12, position, false));
    assert_eq!(queue_head(&queue), Some(1));
    queue[1].consumed = true;
    assert_eq!(queue_head(&queue), Some(2));
    let mut drained = vec![row(1, 10, 1, true)];
    let position = next_position(&drained);
    drained.push(row(2, 11, position, false));
    assert_eq!(queue_head(&drained), Some(1));
}

#[test]
fn next_position_follows_negative_positions() {
    assert_eq!(next_position(&vec![row(1, 1, -5, false)]), -4);
    assert_eq!(next_position(&vec![row(1, 1, -5, true), row(2, 2, -9, false)]), -4);
    assert_eq!(next_position(&vec![row(1, 1, 0, false)]), 1);
}

#[test]
fn trimming_and_normalizing_settle_after_one_pass() {
    assert_eq!(normalize_tag(" Rust "), "rust");
    assert_eq!(normalize_tag(&normalize_tag("\t Rust\n")), normalize_tag("\t Rust\n"));
    assert_eq!(normalize_full_name("  Acme/Tool "), "acme/tool");
    assert_eq!(normalize_full_name(&normalize_full_name("  Acme/Tool ")), "acme/tool");
}

#[test]
fn a_failed_search_makes_no_batch() {
    assert!(discovery_batch(Err(GitHubError::HttpStatus(500))).is_none());
    let repos = vec![sample_repo("acme/one", 1), sample_repo("acme/two", 2), sample_repo("acme/three", 3)];
    let (query, candidates) = discovery_batch(Ok(("stars:10..5000".to_string(), repos.clone()))).unwrap();
    assert_eq!(query, "stars:10..5000");
    let names: Vec<String> = candidates.iter().map(|c| c.repository().full_name.clone()).collect();
    assert_eq!(names, vec!["acme/one", "acme/two", "acme/three"]);
    assert_eq!(candidates_from(Vec::new()).len(), 0);
}
