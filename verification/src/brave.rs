use vstd::prelude::*;

use crate::text::{decimal, push_decimal, push_str};

verus! {

/// Why a web search gave nothing.
#[derive(Debug, Clone, PartialEq)]
pub enum BraveSearchError {
    /// The request failed; the failure's text.
    Api(String),
    /// No API key is configured; what is missing.
    MissingApiKey(String),
    /// The answer could not be parsed; the failure's text.
    Json(String),
    /// The search found nothing.
    NoResults,
}

/// The message of a search error.
pub open spec fn brave_error_text(e: BraveSearchError) -> Seq<char> {
    match e {
        BraveSearchError::Api(s) => "API communication failure: "@ + s@,
        BraveSearchError::MissingApiKey(s) => "Missing API key: "@ + s@,
        BraveSearchError::Json(s) => "Unable to parse response: "@ + s@,
        BraveSearchError::NoResults => "No search results found"@,
    }
}

impl BraveSearchError {
    /// The message of this error.
    pub fn message(&self) -> (s: String)
        ensures
            s@ == brave_error_text(*self),
    {
        match self {
            BraveSearchError::Api(x) => {
                let mut s = "API communication failure: ".to_string();
                push_str(&mut s, x.as_str());
                s
            },
            BraveSearchError::MissingApiKey(x) => {
                let mut s = "Missing API key: ".to_string();
                push_str(&mut s, x.as_str());
                s
            },
            BraveSearchError::Json(x) => {
                let mut s = "Unable to parse response: ".to_string();
                push_str(&mut s, x.as_str());
                s
            },
            BraveSearchError::NoResults => "No search results found".to_string(),
        }
    }
}

/// The error for a search without a configured API key.
pub fn missing_api_key() -> (e: BraveSearchError)
    ensures
        e matches BraveSearchError::MissingApiKey(m) && m@
            == "BRAVE_API_KEY not found in environment variables"@,
{
    BraveSearchError::MissingApiKey("BRAVE_API_KEY not found in environment variables".to_string())
}

/// One web result.
pub struct BraveWebResult {
    pub title: String,
    pub url: String,
    pub description: String,
}

/// The web results of a search.
pub struct BraveWebResults {
    pub results: Vec<BraveWebResult>,
}

/// The answer of the search API.
pub struct BraveSearchResponse {
    pub web: BraveWebResults,
}

/// The results of a search answer; an answer without results is `NoResults`.
pub fn search_results(response: BraveSearchResponse) -> (r: Result<Vec<BraveWebResult>, BraveSearchError>)
    ensures
        response.web.results@.len() == 0 ==> r == Err::<Vec<BraveWebResult>, BraveSearchError>(
            BraveSearchError::NoResults,
        ),
        response.web.results@.len() > 0 ==> (r matches Ok(v) && v@ == response.web.results@),
{
    if response.web.results.len() == 0 {
        return Err(BraveSearchError::NoResults);
    }
    Ok(response.web.results)
}

/// The text of result number `k`.
pub open spec fn result_entry(k: nat, r: BraveWebResult) -> Seq<char> {
    decimal(k) + ". "@ + r.title@ + "\n   URL: "@ + r.url@ + "\n   "@ + r.description@ + "\n\n"@
}

/// The texts of the first `n` results, numbered from 1.
pub open spec fn result_entries(results: Seq<BraveWebResult>, n: nat) -> Seq<char>
    decreases n,
{
    if n == 0 {
        Seq::empty()
    } else {
        result_entries(results, (n - 1) as nat) + result_entry(n, results[n - 1])
    }
}

/// How many results the summary shows.
pub open spec fn shown_results(len: nat) -> nat {
    if len < 5 {
        len
    } else {
        5
    }
}

/// The search results as text for the AI model: the query, then the first five
/// results with title, link and description.
pub fn format_search_results(results: &Vec<BraveWebResult>, query: &str) -> (s: String)
    ensures
        s@ == "Search results for: \""@ + query@ + "\"\n\n"@ + result_entries(
            results@,
            shown_results(results@.len()),
        ),
{
    let mut s = "Search results for: \"".to_string();
    push_str(&mut s, query);
    push_str(&mut s, "\"\n\n");
    let ghost head = s@;
    let n: usize = if results.len() < 5 {
        results.len()
    } else {
        5
    };
    let mut i: usize = 0;
    while i < n
        invariant
            n <= results@.len(),
            n == shown_results(results@.len()),
            i <= n,
            s@ == head + result_entries(results@, i as nat),
        decreases n - i,
    {
        let r = &results[i];
        let ghost before = s@;
        push_decimal(&mut s, (i + 1) as u64);
        push_str(&mut s, ". ");
        push_str(&mut s, r.title.as_str());
        push_str(&mut s, "\n   URL: ");
        push_str(&mut s, r.url.as_str());
        push_str(&mut s, "\n   ");
        push_str(&mut s, r.description.as_str());
        push_str(&mut s, "\n\n");
        assert(s@ =~= before + result_entry((i + 1) as nat, results@[i as int]));
        i = i + 1;
    }
    s
}

/// The question put to the AI model about formatted search results.
pub fn search_prompt(formatted_results: &str) -> (s: String)
    ensures
        s@ == "I need you to analyze these search results and provide a helpful summary:\n\n"@
            + formatted_results@
            + "\n\nPlease provide a concise summary of the information, highlighting the most relevant points related to the query."@,
{
    let mut s = "I need you to analyze these search results and provide a helpful summary:\n\n".to_string();
    push_str(&mut s, formatted_results);
    push_str(
        &mut s,
        "\n\nPlease provide a concise summary of the information, highlighting the most relevant points related to the query.",
    );
    s
}

/// The answer to a search: the query and the AI model's summary.
pub fn search_summary(query: &str, content: &str) -> (s: String)
    ensures
        s@ == "**Search Query**: "@ + query@ + "\n\n**AI Summary**: "@ + content@,
{
    let mut s = "**Search Query**: ".to_string();
    push_str(&mut s, query);
    push_str(&mut s, "\n\n**AI Summary**: ");
    push_str(&mut s, content);
    s
}

/// The answer when the search itself failed.
pub fn search_failure(error: &BraveSearchError) -> (s: String)
    ensures
        s@ == "Error performing search: "@ + brave_error_text(*error),
{
    let mut s = "Error performing search: ".to_string();
    let m = error.message();
    push_str(&mut s, m.as_str());
    s
}

/// The answer when searching is not configured.
pub fn search_disabled_text() -> (s: String)
    ensures
        s@ == "Search functionality is disabled: Missing API key configuration."@,
{
    "Search functionality is disabled: Missing API key configuration.".to_string()
}

} // verus!
