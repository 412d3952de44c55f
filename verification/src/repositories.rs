use vstd::prelude::*;

use crate::error::ApiError;
use crate::models::{NewRepository, Repository};
use crate::tags::texts;
use crate::text::{ascii_lower, to_ascii_lowercase, trim_text, trimmed};

verus! {

/// The key that tells repositories apart by name: the full name, trimmed and ASCII
/// lower-cased.
pub open spec fn normalized_name(full_name: Seq<char>) -> Seq<char> {
    ascii_lower(trimmed(full_name))
}

/// The name key of a name key is itself.
pub proof fn law_normalized_name_idempotent(full_name: Seq<char>)
    ensures
        normalized_name(normalized_name(full_name)) == normalized_name(full_name),
{
    crate::text::law_trim_lower_idempotent(full_name);
}

/// The key that tells repositories apart by name.
pub fn normalize_full_name(full_name: &str) -> (r: String)
    ensures
        r@ == normalized_name(full_name@),
{
    let t = trim_text(full_name);
    to_ascii_lowercase(t.as_str())
}

/// The JSON text serde_json writes for a list of strings.
pub uninterp spec fn json_of_texts(items: Seq<Seq<char>>) -> Seq<char>;

/// What serde_json reads from a text as a list of strings: the strings, or the parser's
/// message.
pub uninterp spec fn texts_of_json(text: Seq<char>) -> Result<Seq<Seq<char>>, Seq<char>>;

/// serde_json's `to_string` on a list of strings. serde_json fails only for a value whose
/// `Serialize` fails or for a map with non-string keys, so a list of strings always
/// encodes; the text is named, not spelled out.
#[verifier::external_body]
fn encode_texts(items: &Vec<String>) -> (r: Result<String, String>)
    ensures
        r is Ok,
        r matches Ok(s) ==> s@ == json_of_texts(texts(items@)),
{
    serde_json::to_string(items).map_err(|error| error.to_string())
}

/// serde_json's `from_str` into a list of strings; the outcome is named, not spelled out,
/// except that a text serde_json wrote for a list reads back as that list.
#[verifier::external_body]
fn decode_texts(text: &str) -> (r: Result<Vec<String>, String>)
    ensures
        r matches Ok(v) ==> (texts_of_json(text@) matches Ok(items) && items == texts(v@)),
        r matches Err(e) ==> (texts_of_json(text@) matches Err(m) && m == e@),
        r is Ok <==> texts_of_json(text@) is Ok,
        r is Err ==> forall|items: Seq<Seq<char>>| text@ != json_of_texts(items),
        r matches Ok(v) ==> forall|items: Seq<Seq<char>>| text@ == json_of_texts(items) ==> texts(v@) == items,
{
    serde_json::from_str::<Vec<String>>(text).map_err(|e| e.to_string())
}

/// A repository as its database row holds it, before it has an id.
#[derive(Clone, Debug)]
pub struct StoredRepository {
    pub github_id: Option<i64>,
    pub owner: String,
    pub name: String,
    pub full_name: String,
    pub normalized_full_name: String,
    pub description: Option<String>,
    pub primary_language: Option<String>,
    pub stars: i64,
    pub forks: i64,
    pub license: Option<String>,
    pub updated_at: String,
    pub topics_json: String,
    pub html_url: String,
    pub readme_preview: Option<String>,
}

/// `stored` is the row of `repo`: the same fields, with the name key and the topics in
/// JSON.
pub open spec fn is_stored_form(stored: StoredRepository, repo: NewRepository) -> bool {
    &&& stored.github_id == repo.github_id
    &&& stored.owner == repo.owner
    &&& stored.name == repo.name
    &&& stored.full_name == repo.full_name
    &&& stored.normalized_full_name@ == normalized_name(repo.full_name@)
    &&& stored.description == repo.description
    &&& stored.primary_language == repo.primary_language
    &&& stored.stars == repo.stars
    &&& stored.forks == repo.forks
    &&& stored.license == repo.license
    &&& stored.updated_at == repo.updated_at
    &&& stored.topics_json@ == json_of_texts(texts(repo.topics@))
    &&& stored.html_url == repo.html_url
    &&& stored.readme_preview == repo.readme_preview
}

/// The row to write for a discovered repository; the topics of a repository always encode,
/// so this always succeeds.
pub fn stored_from_new(repo: NewRepository) -> (r: Result<StoredRepository, ApiError>)
    ensures
        r matches Ok(stored) && is_stored_form(stored, repo),
{
    let normalized_full_name = normalize_full_name(repo.full_name.as_str());
    let topics_json = match encode_texts(&repo.topics) {
        Ok(text) => text,
        Err(message) => {
            return Err(ApiError::Serialization(message));
        },
    };
    Ok(StoredRepository {
        github_id: repo.github_id,
        owner: repo.owner,
        name: repo.name,
        full_name: repo.full_name,
        normalized_full_name,
        description: repo.description,
        primary_language: repo.primary_language,
        stars: repo.stars,
        forks: repo.forks,
        license: repo.license,
        updated_at: repo.updated_at,
        topics_json,
        html_url: repo.html_url,
        readme_preview: repo.readme_preview,
    })
}

/// A repository's database row as it is read back.
#[derive(Clone, Debug)]
pub struct RepositoryRow {
    pub id: i64,
    pub stored: StoredRepository,
}

/// The repository a row holds, with the given topics.
pub open spec fn repository_of_row(row: RepositoryRow, topics: Vec<String>) -> Repository {
    Repository {
        id: row.id,
        github_id: row.stored.github_id,
        owner: row.stored.owner,
        name: row.stored.name,
        full_name: row.stored.full_name,
        description: row.stored.description,
        primary_language: row.stored.primary_language,
        stars: row.stored.stars,
        forks: row.stored.forks,
        license: row.stored.license,
        updated_at: row.stored.updated_at,
        topics,
        html_url: row.stored.html_url,
        readme_preview: row.stored.readme_preview,
    }
}

/// `r` is what reading `row` gives: the repository it holds with the topics its JSON
/// lists (the very list that was written, for JSON written for a list), or the
/// serialization error of topics that do not read as a list of strings.
pub open spec fn reads_as(row: RepositoryRow, r: Result<Repository, ApiError>) -> bool {
    &&& match texts_of_json(row.stored.topics_json@) {
        Ok(items) => r matches Ok(repo) && texts(repo.topics@) == items && repo == repository_of_row(
            row,
            repo.topics,
        ),
        Err(m) => r matches Err(ApiError::Serialization(e)) && e@ == m,
    }
    &&& forall|items: Seq<Seq<char>>| row.stored.topics_json@ == json_of_texts(items) ==> (r matches Ok(
        repo,
    ) && texts(repo.topics@) == items)
}

/// The repository a row holds; topics that do not read as a JSON list of strings are a
/// serialization error.
pub fn repository_from_row(row: RepositoryRow) -> (r: Result<Repository, ApiError>)
    ensures
        reads_as(row, r),
{
    let topics = match decode_texts(row.stored.topics_json.as_str()) {
        Ok(t) => t,
        Err(m) => {
            return Err(ApiError::Serialization(m));
        },
    };
    let s = row.stored;
    Ok(
        Repository {
            id: row.id,
            github_id: s.github_id,
            owner: s.owner,
            name: s.name,
            full_name: s.full_name,
            description: s.description,
            primary_language: s.primary_language,
            stars: s.stars,
            forks: s.forks,
            license: s.license,
            updated_at: s.updated_at,
            topics,
            html_url: s.html_url,
            readme_preview: s.readme_preview,
        },
    )
}

/// What is written is read back: the row written for a discovered repository reads back,
/// under whatever id it got, as that repository with the same fields and topics.
pub proof fn law_stored_repository_reads_back(repo: NewRepository, stored: StoredRepository, id: i64, r: Result<Repository, ApiError>)
    requires
        is_stored_form(stored, repo),
        reads_as(RepositoryRow { id, stored }, r),
    ensures
        r matches Ok(back) && back.id == id && back.github_id == repo.github_id && back.owner == repo.owner
            && back.name == repo.name && back.full_name == repo.full_name && back.description
            == repo.description && back.primary_language == repo.primary_language && back.stars
            == repo.stars && back.forks == repo.forks && back.license == repo.license
            && back.updated_at == repo.updated_at && texts(back.topics@) == texts(repo.topics@)
            && back.html_url == repo.html_url && back.readme_preview == repo.readme_preview,
{
}

} // verus!
