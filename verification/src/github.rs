use vstd::prelude::*;

use chrono::Datelike;
use std::time::Duration;

use crate::config::opt_text;
use crate::models::NewRepository;
use crate::text::{first_chars, joined, prefix_chars, push_char};

verus! {

/// Why a request to GitHub failed.
#[derive(Clone, Debug, PartialEq, Eq)]
pub enum GitHubError {
    /// The request did not get an answer; the text is the HTTP client's message.
    Http(String),
    /// GitHub answered with a status outside 200..=299.
    HttpStatus(u16),
    /// The answer was not the JSON expected; the text is the parser's message.
    Json(String),
}

/// The timeout of every GitHub HTTP request, in seconds.
pub const GITHUB_HTTP_TIMEOUT_SECS: u64 = 10;

/// The longest README preview kept, in characters.
pub const README_PREVIEW_MAX_CHARS: usize = 1000;

/// The GraphQL query that asks for a repository's README.
pub const README_PREVIEW_QUERY: &'static str = "\nquery RepositoryReadme($owner: String!, $name: String!) {\n  repository(owner: $owner, name: $name) {\n    object(expression: \"HEAD:README.md\") {\n      ... on Blob {\n        text\n      }\n    }\n  }\n}\n";

/// The duration std's `Duration::from_secs` makes of a number of seconds.
pub uninterp spec fn duration_of_secs(secs: u64) -> Duration;

/// std's `Duration::from_secs`; its result is named, not spelled out.
#[verifier::external_body]
fn duration_from_secs(secs: u64) -> (d: Duration)
    ensures
        d == duration_of_secs(secs),
{
    Duration::from_secs(secs)
}

/// The timeout of the discovery client's HTTP requests.
pub fn github_http_timeout() -> (d: Duration)
    ensures
        d == duration_of_secs(GITHUB_HTTP_TIMEOUT_SECS),
{
    duration_from_secs(GITHUB_HTTP_TIMEOUT_SECS)
}

/// Whether an HTTP status counts as success.
pub open spec fn is_success_status(status: u16) -> bool {
    200 <= status <= 299
}

/// A GitHub answer goes on only with a success status.
pub fn check_status(status: u16) -> (r: Result<(), GitHubError>)
    ensures
        is_success_status(status) ==> r is Ok,
        !is_success_status(status) ==> r == Err::<(), GitHubError>(GitHubError::HttpStatus(status)),
{
    if 200 <= status && status <= 299 {
        Ok(())
    } else {
        Err(GitHubError::HttpStatus(status))
    }
}

/// The decimal digit character of a number below ten.
fn digit_char(d: u64) -> (c: char)
    requires
        d < 10,
    ensures
        c == (d + 48) as char,
{
    if d == 0 {
        '0'
    } else if d == 1 {
        '1'
    } else if d == 2 {
        '2'
    } else if d == 3 {
        '3'
    } else if d == 4 {
        '4'
    } else if d == 5 {
        '5'
    } else if d == 6 {
        '6'
    } else if d == 7 {
        '7'
    } else if d == 8 {
        '8'
    } else {
        '9'
    }
}

/// The decimal digits of a number.
pub fn decimal_text(n: u64) -> (r: String)
    ensures
        r@ == decimal(n as nat),
    decreases n,
{
    if n < 10 {
        let mut r = String::new();
        push_char(&mut r, digit_char(n));
        r
    } else {
        let mut r = decimal_text(n / 10);
        push_char(&mut r, digit_char(n % 10));
        r
    }
}

/// The reason phrase http's `StatusCode` shows after the number: its canonical reason, or
/// `<unknown status code>` where the code has none.
pub uninterp spec fn status_reason(status: u16) -> Seq<char>;

/// http's `Display` of a `StatusCode` (as re-exported by reqwest): the number, a space and
/// the reason phrase, which is named, not spelled out. Codes from 100 to 999 are the ones
/// `StatusCode::from_u16` accepts.
#[verifier::external_body]
fn status_code_text(status: u16) -> (r: String)
    requires
        100 <= status <= 999,
    ensures
        r@ == decimal(status as nat) + seq![' '] + status_reason(status),
{
    match reqwest::StatusCode::from_u16(status) {
        Ok(code) => code.to_string(),
        Err(_) => String::new(),
    }
}

/// How a status is shown: as an HTTP status code where it is one, else as its number.
pub open spec fn status_text_of(status: u16) -> Seq<char> {
    if 100 <= status <= 999 {
        decimal(status as nat) + seq![' '] + status_reason(status)
    } else {
        decimal(status as nat)
    }
}

/// How a status is shown in error messages.
pub fn status_text(status: u16) -> (r: String)
    ensures
        r@ == status_text_of(status),
{
    if 100 <= status && status <= 999 {
        status_code_text(status)
    } else {
        decimal_text(status as u64)
    }
}

/// The text a GitHub error is reported with.
pub open spec fn github_error_message(error: GitHubError) -> Seq<char> {
    match error {
        GitHubError::Http(m) => "github http error: "@ + m@,
        GitHubError::HttpStatus(s) => "github http status: "@ + status_text_of(s),
        GitHubError::Json(m) => "json error: "@ + m@,
    }
}

/// The text a GitHub error is reported with.
pub fn github_error_text(error: &GitHubError) -> (r: String)
    ensures
        r@ == github_error_message(*error),
{
    match error {
        GitHubError::Http(m) => joined("github http error: ", m.as_str()),
        GitHubError::HttpStatus(s) => {
            let t = status_text(*s);
            joined("github http status: ", t.as_str())
        },
        GitHubError::Json(m) => joined("json error: ", m.as_str()),
    }
}

/// The `Authorization` header value for a token.
pub fn bearer_value(token: &str) -> (r: String)
    ensures
        r@ == "Bearer "@ + token@,
{
    joined("Bearer ", token)
}

/// The query parameters of the search for recently updated repositories: the query, 30
/// results, most recently updated first.
pub fn recently_updated_search_params(query: &str) -> (params: Vec<(&'static str, String)>)
    ensures
        params@.len() == 4,
        params@[0].0@ == "q"@ && params@[0].1@ == query@,
        params@[1].0@ == "per_page"@ && params@[1].1@ == "30"@,
        params@[2].0@ == "sort"@ && params@[2].1@ == "updated"@,
        params@[3].0@ == "order"@ && params@[3].1@ == "desc"@,
{
    let mut params: Vec<(&'static str, String)> = Vec::new();
    params.push(("q", String::from_str(query)));
    params.push(("per_page", String::from_str("30")));
    params.push(("sort", String::from_str("updated")));
    params.push(("order", String::from_str("desc")));
    params
}

/// The search query for repositories pushed after the given day (written `YYYY-MM-DD`).
pub open spec fn search_query_text(pushed_after: Seq<char>) -> Seq<char> {
    "stars:10..5000 fork:false archived:false pushed:>"@ + pushed_after + " sort:updated-desc"@
}

/// The search query for repositories pushed after the given day: between 10 and 5000
/// stars, no forks, nothing archived, most recently updated first.
pub fn search_query_for(pushed_after: &str) -> (r: String)
    ensures
        r@ == search_query_text(pushed_after@),
{
    let mut r = String::from_str("stars:10..5000 fork:false archived:false pushed:>");
    r.append(pushed_after);
    r.append(" sort:updated-desc");
    r
}

// ---------------------------------------------------------------------------
// Calendar dates
// ---------------------------------------------------------------------------

/// The first year that chrono's `NaiveDate` holds.
pub open spec fn min_year() -> int {
    -262143
}

/// The last year that chrono's `NaiveDate` holds.
pub open spec fn max_year() -> int {
    262142
}

/// Whether a year of the proleptic Gregorian calendar is a leap year.
pub open spec fn is_leap_year(year: int) -> bool {
    year % 4 == 0 && (year % 100 != 0 || year % 400 == 0)
}

/// The number of days of a month (1 to 12) of a year.
pub open spec fn days_in_month(year: int, month: int) -> int {
    if month == 2 {
        if is_leap_year(year) {
            29
        } else {
            28
        }
    } else if month == 4 || month == 6 || month == 9 || month == 11 {
        30
    } else {
        31
    }
}

/// A day of the proleptic Gregorian calendar.
#[derive(Clone, Copy, Debug, PartialEq, Eq)]
pub struct CalendarDate {
    pub year: i32,
    pub month: u32,
    pub day: u32,
}

impl CalendarDate {
    /// The date exists and lies in the range that chrono holds.
    pub open spec fn valid(self) -> bool {
        &&& min_year() <= self.year <= max_year()
        &&& 1 <= self.month <= 12
        &&& 1 <= self.day <= days_in_month(self.year as int, self.month as int)
    }

    /// The date with the given year, month and day, if it exists in the range chrono
    /// holds.
    pub fn new(year: i32, month: u32, day: u32) -> (r: Option<CalendarDate>)
        ensures
            match r {
                Some(d) => d.year == year && d.month == month && d.day == day && d.valid(),
                None => !(CalendarDate { year, month, day }).valid(),
            },
    {
        if year < -262143 || year > 262142 || month < 1 || month > 12 || day < 1 {
            return None;
        }
        let leap = year % 4 == 0 && (year % 100 != 0 || year % 400 == 0);
        assert(leap == is_leap_year(year as int));
        let last: u32 = if month == 2 {
            if leap {
                29
            } else {
                28
            }
        } else if month == 4 || month == 6 || month == 9 || month == 11 {
            30
        } else {
            31
        };
        if day > last {
            None
        } else {
            Some(CalendarDate { year, month, day })
        }
    }
}

/// Whether (year, month, day) names a day of the calendar: a month from 1 to 12 and a day
/// that the month has. Any year.
pub open spec fn is_calendar_day(year: int, month: int, day: int) -> bool {
    1 <= month <= 12 && 1 <= day <= days_in_month(year, month)
}

/// The day after a day of the calendar.
pub open spec fn next_day(year: int, month: int, day: int) -> (int, int, int) {
    if day < days_in_month(year, month) {
        (year, month, day + 1)
    } else if month < 12 {
        (year, month + 1, 1)
    } else {
        (year + 1, 1, 1)
    }
}

/// The day `n` days after a day of the calendar.
pub open spec fn days_after(year: int, month: int, day: int, n: nat) -> (int, int, int)
    decreases n,
{
    if n == 0 {
        (year, month, day)
    } else {
        let (y, m, d) = next_day(year, month, day);
        days_after(y, m, d, (n - 1) as nat)
    }
}

/// Whether `earlier` is a date in chrono's range that lies `n` days before `date`.
pub open spec fn is_days_before(earlier: CalendarDate, date: CalendarDate, n: nat) -> bool {
    &&& earlier.valid()
    &&& days_after(earlier.year as int, earlier.month as int, earlier.day as int, n) == (
        date.year as int,
        date.month as int,
        date.day as int,
    )
}

/// The date `n` days before `date`, where one lies in chrono's range.
pub open spec fn date_days_before(date: CalendarDate, n: nat) -> CalendarDate {
    choose|earlier: CalendarDate| is_days_before(earlier, date, n)
}

/// The day after a day of the calendar is one too.
pub proof fn lemma_next_day_is_calendar_day(year: int, month: int, day: int)
    requires
        is_calendar_day(year, month, day),
    ensures
        is_calendar_day(next_day(year, month, day).0, next_day(year, month, day).1, next_day(year, month, day).2),
{
}

/// Two different days of the calendar have different next days.
pub proof fn lemma_next_day_injective(y1: int, m1: int, d1: int, y2: int, m2: int, d2: int)
    requires
        is_calendar_day(y1, m1, d1),
        is_calendar_day(y2, m2, d2),
        next_day(y1, m1, d1) == next_day(y2, m2, d2),
    ensures
        y1 == y2 && m1 == m2 && d1 == d2,
{
}

/// Counting the same number of days forward from two different days of the calendar never
/// lands on the same day.
pub proof fn lemma_days_after_injective(y1: int, m1: int, d1: int, y2: int, m2: int, d2: int, n: nat)
    requires
        is_calendar_day(y1, m1, d1),
        is_calendar_day(y2, m2, d2),
        days_after(y1, m1, d1, n) == days_after(y2, m2, d2, n),
    ensures
        y1 == y2 && m1 == m2 && d1 == d2,
    decreases n,
{
    if n > 0 {
        let (a1, b1, c1) = next_day(y1, m1, d1);
        let (a2, b2, c2) = next_day(y2, m2, d2);
        lemma_next_day_is_calendar_day(y1, m1, d1);
        lemma_next_day_is_calendar_day(y2, m2, d2);
        lemma_days_after_injective(a1, b1, c1, a2, b2, c2, (n - 1) as nat);
        lemma_next_day_injective(y1, m1, d1, y2, m2, d2);
    }
}

/// At most one date in chrono's range lies `n` days before a given date.
pub proof fn law_one_date_days_before(date: CalendarDate, n: nat, earlier: CalendarDate)
    requires
        is_days_before(earlier, date, n),
    ensures
        date_days_before(date, n) == earlier,
{
    let other = date_days_before(date, n);
    lemma_days_after_injective(
        earlier.year as int,
        earlier.month as int,
        earlier.day as int,
        other.year as int,
        other.month as int,
        other.day as int,
        n,
    );
}

/// chrono's `NaiveDate::checked_sub_signed` with a whole number of days: the date that
/// many days earlier in the proleptic Gregorian calendar, or `None` where it would fall
/// before chrono's first day. chrono's dates are always valid, and going back at most 365
/// days from a date after chrono's first year (which has 365 days) stays at or after
/// chrono's first day.
#[verifier::external_body]
fn days_before(date: CalendarDate, days: u32) -> (r: Option<CalendarDate>)
    requires
        date.valid(),
    ensures
        match r {
            Some(d) => is_days_before(d, date, days as nat),
            None => !exists|d: CalendarDate| is_days_before(d, date, days as nat),
        },
        date.year > min_year() && days <= 365 ==> r is Some,
{
    let base = chrono::NaiveDate::from_ymd_opt(date.year, date.month, date.day)?;
    let shifted = base.checked_sub_signed(chrono::TimeDelta::days(days as i64))?;
    Some(CalendarDate { year: shifted.year(), month: shifted.month(), day: shifted.day() })
}

/// The decimal digits of a natural number, without leading zeros ("0" for zero).
pub open spec fn decimal(n: nat) -> Seq<char>
    decreases n,
{
    if n < 10 {
        seq![(n + 48) as char]
    } else {
        decimal(n / 10).push(((n % 10) + 48) as char)
    }
}

/// `digits` preceded by as many `0` as make it `width` characters long.
pub open spec fn zero_padded(digits: Seq<char>, width: nat) -> Seq<char> {
    if digits.len() < width {
        Seq::new((width - digits.len()) as nat, |i: int| '0') + digits
    } else {
        digits
    }
}

/// chrono's `%Y`: years 0 to 9999 as four digits; other years with their sign and at least
/// four digits.
pub open spec fn year_text(year: int) -> Seq<char> {
    if 0 <= year <= 9999 {
        zero_padded(decimal(year as nat), 4)
    } else if year < 0 {
        seq!['-'] + zero_padded(decimal((-year) as nat), 4)
    } else {
        seq!['+'] + zero_padded(decimal(year as nat), 4)
    }
}

/// chrono's `%Y-%m-%d` for a date: the year, then month and day as two digits each.
pub open spec fn ymd_text(year: int, month: int, day: int) -> Seq<char> {
    year_text(year) + seq!['-'] + zero_padded(decimal(month as nat), 2) + seq!['-'] + zero_padded(
        decimal(day as nat),
        2,
    )
}

/// chrono's `NaiveDate::format` with `%Y-%m-%d`: `%Y` writes years 0 to 9999 zero-padded to
/// four digits and other years as `{:+05}`; `%m` and `%d` write two zero-padded digits.
#[verifier::external_body]
fn format_ymd(date: CalendarDate) -> (r: String)
    requires
        date.valid(),
    ensures
        r@ == ymd_text(date.year as int, date.month as int, date.day as int),
{
    match chrono::NaiveDate::from_ymd_opt(date.year, date.month, date.day) {
        Some(d) => d.format("%Y-%m-%d").to_string(),
        None => String::new(),
    }
}

/// The search query for repositories pushed in the 90 days before `today`.
pub open spec fn recently_updated_query_text(today: CalendarDate) -> Seq<char> {
    let earlier = date_days_before(today, 90);
    search_query_text(ymd_text(earlier.year as int, earlier.month as int, earlier.day as int))
}

/// The search query for repositories pushed in the 90 days before `today`.
pub fn build_recently_updated_search_query(today: CalendarDate) -> (r: String)
    requires
        today.valid(),
        today.year > min_year(),
    ensures
        r@ == recently_updated_query_text(today),
{
    let pushed_after = match days_before(today, 90) {
        Some(d) => d,
        None => {
            return String::new();
        },
    };
    proof {
        law_one_date_days_before(today, 90, pushed_after);
    }
    let text = format_ymd(pushed_after);
    search_query_for(text.as_str())
}

// ---------------------------------------------------------------------------
// GitHub answers
// ---------------------------------------------------------------------------

/// The owner of a repository in a search answer.
#[derive(Clone, Debug)]
pub struct SearchOwner {
    pub login: String,
}

/// The license of a repository in a search answer.
#[derive(Clone, Debug)]
pub struct SearchLicense {
    pub spdx_id: String,
}

/// A repository in a search answer.
#[derive(Clone, Debug)]
pub struct SearchRepository {
    pub id: i64,
    pub name: String,
    pub full_name: String,
    pub owner: SearchOwner,
    pub html_url: String,
    pub description: Option<String>,
    pub stargazers_count: i64,
    pub forks_count: i64,
    pub language: Option<String>,
    pub license: Option<SearchLicense>,
    pub topics: Vec<String>,
    pub updated_at: String,
}

/// A search answer.
#[derive(Clone, Debug)]
pub struct SearchResponse {
    pub items: Vec<SearchRepository>,
}

/// The repository that discovery proposes for a search result; the README preview comes
/// later.
pub open spec fn repository_of_item(item: SearchRepository) -> NewRepository {
    NewRepository {
        github_id: Some(item.id),
        owner: item.owner.login,
        name: item.name,
        full_name: item.full_name,
        description: item.description,
        primary_language: item.language,
        stars: item.stargazers_count,
        forks: item.forks_count,
        license: match item.license {
            Some(l) => Some(l.spdx_id),
            None => None,
        },
        updated_at: item.updated_at,
        topics: item.topics,
        html_url: item.html_url,
        readme_preview: None,
    }
}

/// A repository made from a search result keeps the result's fields: its GitHub id, owner,
/// name, full name, description, language, stars, forks, license id, update time, topics
/// and page; only the README preview is left for later.
pub proof fn law_search_result_keeps_its_fields(item: SearchRepository)
    ensures
        repository_of_item(item).github_id == Some(item.id),
        repository_of_item(item).owner == item.owner.login,
        repository_of_item(item).name == item.name,
        repository_of_item(item).full_name == item.full_name,
        repository_of_item(item).description == item.description,
        repository_of_item(item).primary_language == item.language,
        repository_of_item(item).stars == item.stargazers_count,
        repository_of_item(item).forks == item.forks_count,
        item.license matches Some(l) ==> repository_of_item(item).license == Some(l.spdx_id),
        item.license is None ==> repository_of_item(item).license is None,
        repository_of_item(item).updated_at == item.updated_at,
        repository_of_item(item).topics == item.topics,
        repository_of_item(item).html_url == item.html_url,
        repository_of_item(item).readme_preview is None,
{
}

/// Each repository of a search answer keeps the fields of the result at its place.
pub proof fn law_search_answer_keeps_fields(response: SearchResponse, k: int)
    requires
        0 <= k < response.items@.len(),
    ensures
        response.items@.map_values(|item: SearchRepository| repository_of_item(item)).len() == response.items@.len(),
        response.items@.map_values(|item: SearchRepository| repository_of_item(item))[k].description
            == response.items@[k].description,
        response.items@.map_values(|item: SearchRepository| repository_of_item(item))[k].full_name
            == response.items@[k].full_name,
        response.items@.map_values(|item: SearchRepository| repository_of_item(item))[k].html_url
            == response.items@[k].html_url,
        response.items@.map_values(|item: SearchRepository| repository_of_item(item))[k].updated_at
            == response.items@[k].updated_at,
        response.items@.map_values(|item: SearchRepository| repository_of_item(item))[k].github_id == Some(
            response.items@[k].id,
        ),
{
    law_search_result_keeps_its_fields(response.items@[k]);
}

/// The repository for one search result.
pub fn repository_from_item(item: SearchRepository) -> (r: NewRepository)
    ensures
        r == repository_of_item(item),
        r.github_id == Some(item.id),
        r.owner == item.owner.login,
        r.name == item.name,
        r.full_name == item.full_name,
        r.description == item.description,
        r.primary_language == item.language,
        r.stars == item.stargazers_count,
        r.forks == item.forks_count,
        r.updated_at == item.updated_at,
        r.topics == item.topics,
        r.html_url == item.html_url,
        r.readme_preview is None,
{
    NewRepository {
        github_id: Some(item.id),
        owner: item.owner.login,
        name: item.name,
        full_name: item.full_name,
        description: item.description,
        primary_language: item.language,
        stars: item.stargazers_count,
        forks: item.forks_count,
        license: match item.license {
            Some(l) => Some(l.spdx_id),
            None => None,
        },
        updated_at: item.updated_at,
        topics: item.topics,
        html_url: item.html_url,
        readme_preview: None,
    }
}

/// The repositories of a search answer, in its order.
pub fn repositories_from_search(response: SearchResponse) -> (r: Vec<NewRepository>)
    ensures
        r@ == response.items@.map_values(|item: SearchRepository| repository_of_item(item)),
{
    let mut items = response.items;
    let ghost all = items@;
    let mut r: Vec<NewRepository> = Vec::new();
    while items.len() > 0
        invariant
            all.len() == r@.len() + items@.len(),
            items@ == all.skip(r@.len() as int),
            r@ == all.take(r@.len() as int).map_values(|item: SearchRepository| repository_of_item(item)),
        decreases items@.len(),
    {
        let item = items.remove(0);
        let ghost k = r@.len();
        r.push(repository_from_item(item));
        proof {
            assert(items@ =~= all.skip(r@.len() as int));
            assert(all.take(k + 1 as int) =~= all.take(k as int).push(all[k as int]));
            assert(r@ =~= all.take(r@.len() as int).map_values(
                |item: SearchRepository| repository_of_item(item),
            ));
        }
    }
    proof {
        assert(all.take(r@.len() as int) =~= all);
    }
    r
}

/// The README blob of a repository in a GraphQL answer.
#[derive(Clone, Debug)]
pub struct ReadmeObject {
    pub text: String,
}

/// A repository in a GraphQL answer.
#[derive(Clone, Debug)]
pub struct GraphQlRepository {
    pub object: Option<ReadmeObject>,
}

/// The data of a GraphQL answer.
#[derive(Clone, Debug)]
pub struct GraphQlData {
    pub repository: Option<GraphQlRepository>,
}

/// A GraphQL answer for the README query.
#[derive(Clone, Debug)]
pub struct GraphQlResponse {
    pub data: GraphQlData,
}

/// The preview of a README as a GraphQL answer gives it: its first 1000 characters, or
/// nothing when the repository or its README is missing.
pub open spec fn readme_preview_of(response: GraphQlResponse) -> Option<Seq<char>> {
    match response.data.repository {
        Some(repository) => match repository.object {
            Some(object) => Some(first_chars(object.text@, README_PREVIEW_MAX_CHARS as nat)),
            None => None,
        },
        None => None,
    }
}

/// The README preview of a GraphQL answer. A missing README is no failure.
pub fn readme_preview_from_graphql(response: GraphQlResponse) -> (r: Option<String>)
    ensures
        opt_text(r) == readme_preview_of(response),
{
    match response.data.repository {
        Some(repository) => match repository.object {
            Some(object) => Some(prefix_chars(object.text.as_str(), README_PREVIEW_MAX_CHARS)),
            None => None,
        },
        None => None,
    }
}

/// A repository with the README preview that was fetched for it; a failed fetch keeps
/// the repository as it was.
pub open spec fn with_preview(repository: NewRepository, preview: Result<Option<String>, GitHubError>) -> NewRepository {
    match preview {
        Ok(p) => NewRepository { readme_preview: p, ..repository },
        Err(_) => repository,
    }
}

/// The repositories with the README previews fetched for them, paired in order; a
/// repository without a fetch result stays as it was.
pub fn with_readme_previews(repositories: Vec<NewRepository>, previews: Vec<Result<Option<String>, GitHubError>>) -> (r: Vec<NewRepository>)
    ensures
        r@.len() == repositories@.len(),
        forall|i: int| 0 <= i < r@.len() ==> #[trigger] r@[i] == if i < previews@.len() {
            with_preview(repositories@[i], previews@[i])
        } else {
            repositories@[i]
        },
{
    let mut rest = repositories;
    let mut fetched = previews;
    let ghost all = rest@;
    let ghost all_previews = fetched@;
    let mut r: Vec<NewRepository> = Vec::new();
    while rest.len() > 0
        invariant
            all.len() == r@.len() + rest@.len(),
            rest@ == all.skip(r@.len() as int),
            fetched@ == if r@.len() <= all_previews.len() {
                all_previews.skip(r@.len() as int)
            } else {
                Seq::empty()
            },
            forall|i: int| 0 <= i < r@.len() ==> #[trigger] r@[i] == if i < all_previews.len() {
                with_preview(all[i], all_previews[i])
            } else {
                all[i]
            },
        decreases rest@.len(),
    {
        let repository = rest.remove(0);
        let ghost k = r@.len() as int;
        if fetched.len() > 0 {
            let preview = fetched.remove(0);
            match preview {
                Ok(p) => {
                    r.push(NewRepository { readme_preview: p, ..repository });
                },
                Err(_) => {
                    r.push(repository);
                },
            }
        } else {
            r.push(repository);
        }
        proof {
            assert(rest@ =~= all.skip(r@.len() as int));
            if r@.len() <= all_previews.len() {
                assert(fetched@ =~= all_previews.skip(r@.len() as int));
            } else {
                assert(fetched@ =~= Seq::<Result<Option<String>, GitHubError>>::empty());
            }
            assert(r@[k] == if k < all_previews.len() {
                with_preview(all[k], all_previews[k])
            } else {
                all[k]
            });
        }
    }
    r
}

} // verus!
