use git_reel_server::github::{decimal_text, github_error_text, status_text};
use git_reel_server::auth::{github_oauth_http_timeout, github_token_exchange_form};
use git_reel_server::github::{
    build_recently_updated_search_query, check_status, github_http_timeout, readme_preview_from_graphql,
    recently_updated_search_params, repositories_from_search, search_query_for, with_readme_previews,
    CalendarDate, GitHubError, GraphQlData, GraphQlRepository, GraphQlResponse, ReadmeObject, SearchLicense,
    SearchOwner, SearchRepository, SearchResponse, GITHUB_HTTP_TIMEOUT_SECS, README_PREVIEW_MAX_CHARS,
};
use git_reel_server::models::NewRepository;
use std::time::Duration;

#[test]
fn github_http_timeout_is_explicit() {
    assert_eq!(github_http_timeout(), Duration::from_secs(10));
    assert_eq!(GITHUB_HTTP_TIMEOUT_SECS, 10);
}

#[test]
fn recently_updated_search_params_request_updated_sort_order() {
    let params = recently_updated_search_params("stars:10..5000");

    assert_eq!(
        params,
        vec![
            ("q", "stars:10..5000".to_string()),
            ("per_page", "30".to_string()),
            ("sort", "updated".to_string()),
            ("order", "desc".to_string()),
        ]
    );
}

#[test]
fn github_token_exchange_form_includes_redirect_uri() {
    let form = github_token_exchange_form(
        "test-client",
        "test-secret",
        "code-from-github",
        "http://127.0.0.1:4317/api/auth/github/callback",
    );

    assert!(form.contains(&(
        "redirect_uri",
        "http://127.0.0.1:4317/api/auth/github/callback"
    )));
}

#[test]
fn github_oauth_http_timeout_matches_discovery_client() {
    assert_eq!(github_oauth_http_timeout(), github_http_timeout());
}

#[test]
fn token_exchange_form_lists_the_four_fields_in_order() {
    let form = github_token_exchange_form("id", "secret", "code", "uri");
    assert_eq!(
        form,
        vec![("client_id", "id"), ("client_secret", "secret"), ("code", "code"), ("redirect_uri", "uri")]
    );
}

#[test]
fn search_query_goes_back_ninety_days() {
    let today = CalendarDate::new(2026, 5, 25).unwrap();
    assert_eq!(
        build_recently_updated_search_query(today),
        "stars:10..5000 fork:false archived:false pushed:>2026-02-24 sort:updated-desc"
    );
}

#[test]
fn search_query_crosses_a_leap_day_and_a_year() {
    let today = CalendarDate::new(2024, 3, 1).unwrap();
    assert_eq!(
        build_recently_updated_search_query(today),
        "stars:10..5000 fork:false archived:false pushed:>2023-12-02 sort:updated-desc"
    );
}

#[test]
fn search_query_wraps_the_date() {
    assert_eq!(
        search_query_for("2026-01-01"),
        "stars:10..5000 fork:false archived:false pushed:>2026-01-01 sort:updated-desc"
    );
}

#[test]
fn calendar_dates_must_exist() {
    assert!(CalendarDate::new(2024, 2, 29).is_some());
    assert!(CalendarDate::new(2023, 2, 29).is_none());
    assert!(CalendarDate::new(1900, 2, 29).is_none());
    assert!(CalendarDate::new(2000, 2, 29).is_some());
    assert!(CalendarDate::new(-4, 2, 29).is_some());
    assert!(CalendarDate::new(2015, 0, 14).is_none());
    assert!(CalendarDate::new(2015, 4, 31).is_none());
    assert!(CalendarDate::new(400000, 1, 1).is_none());
    assert!(CalendarDate::new(-400000, 1, 1).is_none());
}

#[test]
fn only_success_statuses_go_on() {
    assert_eq!(check_status(200), Ok(()));
    assert_eq!(check_status(299), Ok(()));
    assert_eq!(check_status(199), Err(GitHubError::HttpStatus(199)));
    assert_eq!(check_status(401), Err(GitHubError::HttpStatus(401)));
    assert_eq!(check_status(500), Err(GitHubError::HttpStatus(500)));
}

fn search_item() -> SearchRepository {
    SearchRepository {
        id: 12345,
        name: "git-reel".to_string(),
        full_name: "okw0204/git-reel".to_string(),
        owner: SearchOwner { login: "okw0204".to_string() },
        html_url: "https://github.com/okw0204/git-reel".to_string(),
        description: Some("A local-first discovery app.".to_string()),
        stargazers_count: 42,
        forks_count: 3,
        language: Some("Rust".to_string()),
        license: Some(SearchLicense { spdx_id: "MIT".to_string() }),
        topics: vec!["github".to_string(), "discovery".to_string()],
        updated_at: "2026-05-20T10:00:00Z".to_string(),
    }
}

#[test]
fn search_items_become_new_repositories() {
    let repositories = repositories_from_search(SearchResponse { items: vec![search_item()] });
    assert_eq!(repositories.len(), 1);
    let repo = &repositories[0];
    assert_eq!(repo.github_id, Some(12345));
    assert_eq!(repo.owner, "okw0204");
    assert_eq!(repo.name, "git-reel");
    assert_eq!(repo.full_name, "okw0204/git-reel");
    assert_eq!(repo.primary_language.as_deref(), Some("Rust"));
    assert_eq!(repo.license.as_deref(), Some("MIT"));
    assert_eq!(repo.stars, 42);
    assert_eq!(repo.forks, 3);
    assert_eq!(repo.topics, vec!["github".to_string(), "discovery".to_string()]);
    assert_eq!(repo.readme_preview, None);
}

#[test]
fn search_item_without_license_has_none() {
    let mut item = search_item();
    item.license = None;
    let repositories = repositories_from_search(SearchResponse { items: vec![item] });
    assert_eq!(repositories[0].license, None);
}

fn graphql(text: Option<&str>, repository: bool) -> GraphQlResponse {
    GraphQlResponse {
        data: GraphQlData {
            repository: if repository {
                Some(GraphQlRepository { object: text.map(|t| ReadmeObject { text: t.to_string() }) })
            } else {
                None
            },
        },
    }
}

#[test]
fn graphql_answer_gives_readme_preview() {
    let preview = readme_preview_from_graphql(graphql(Some("# Git Reel\n\nA local-first discovery app."), true));
    assert_eq!(preview, Some("# Git Reel\n\nA local-first discovery app.".to_string()));
}

#[test]
fn missing_graphql_repository_gives_no_preview() {
    assert_eq!(readme_preview_from_graphql(graphql(None, false)), None);
    assert_eq!(readme_preview_from_graphql(graphql(None, true)), None);
}

#[test]
fn readme_preview_keeps_the_first_thousand_characters() {
    let long: String = "あ".repeat(1500);
    let preview = readme_preview_from_graphql(graphql(Some(&long), true)).unwrap();
    assert_eq!(preview.chars().count(), README_PREVIEW_MAX_CHARS);
    assert_eq!(preview, "あ".repeat(1000));
    let exact: String = "x".repeat(1000);
    assert_eq!(readme_preview_from_graphql(graphql(Some(&exact), true)), Some(exact.clone()));
}

fn new_repo(full_name: &str) -> NewRepository {
    let (owner, name) = full_name.split_once('/').unwrap();
    NewRepository {
        github_id: Some(1),
        owner: owner.to_string(),
        name: name.to_string(),
        full_name: full_name.to_string(),
        description: None,
        primary_language: None,
        stars: 0,
        forks: 0,
        license: None,
        updated_at: "2026-05-20T10:00:00Z".to_string(),
        topics: vec![],
        html_url: format!("https://github.com/{full_name}"),
        readme_preview: None,
    }
}

#[test]
fn failed_readme_fetch_keeps_repository_without_preview() {
    let repositories = vec![new_repo("acme/a"), new_repo("acme/b"), new_repo("acme/c")];
    let previews = vec![
        Ok(Some("A".to_string())),
        Err(GitHubError::HttpStatus(502)),
    ];
    let merged = with_readme_previews(repositories, previews);
    assert_eq!(merged.len(), 3);
    assert_eq!(merged[0].readme_preview.as_deref(), Some("A"));
    assert_eq!(merged[1].readme_preview, None);
    assert_eq!(merged[2].readme_preview, None);
    assert_eq!(merged[2].full_name, "acme/c");
}

#[test]
fn search_query_pads_early_years_and_signs_negative_ones() {
    let today = CalendarDate::new(5, 1, 1).unwrap();
    assert_eq!(
        build_recently_updated_search_query(today),
        "stars:10..5000 fork:false archived:false pushed:>0004-10-03 sort:updated-desc"
    );
    let today = CalendarDate::new(0, 3, 1).unwrap();
    assert_eq!(
        build_recently_updated_search_query(today),
        "stars:10..5000 fork:false archived:false pushed:>-0001-12-02 sort:updated-desc"
    );
}

#[test]
fn calendar_dates_stay_in_chronos_range() {
    assert!(CalendarDate::new(-262144, 1, 1).is_none());
    assert!(CalendarDate::new(-262143, 1, 1).is_some());
    assert!(CalendarDate::new(262142, 12, 31).is_some());
    assert!(CalendarDate::new(262143, 1, 1).is_none());
}

#[test]
fn statuses_and_errors_read_as_http_shows_them() {
    assert_eq!(decimal_text(0), "0");
    assert_eq!(decimal_text(404), "404");
    assert_eq!(decimal_text(u64::MAX), u64::MAX.to_string());
    assert_eq!(status_text(404), "404 Not Found");
    assert_eq!(status_text(599), "599 <unknown status code>");
    assert_eq!(status_text(42), "42");
    assert_eq!(github_error_text(&GitHubError::HttpStatus(403)), "github http status: 403 Forbidden");
    assert_eq!(github_error_text(&GitHubError::Http("boom".to_string())), "github http error: boom");
    assert_eq!(github_error_text(&GitHubError::Json("eof".to_string())), "json error: eof");
}
