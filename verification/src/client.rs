//! Client-side request planning and upstream-outcome interpretation.
//!
//! The client never performs I/O itself: it builds a [`RequestPlan`] that a
//! transport shell executes, and it interprets what the transport observed
//! (a body, a status code, or a transport failure) into the typed outcomes
//! that the tool layer renders.

use vstd::prelude::*;

use crate::text::{spec_nat_chars, str_eq, u64_to_decimal};

verus! {

/// Fallback token budget when a request names none.
pub const DEFAULT_TOKENS: u32 = 5000;

/// Smallest token budget ever sent upstream; lower requests are raised to it.
pub const MINIMUM_TOKENS: u32 = 1000;

/// One library returned by the upstream search endpoint.
///
/// The trust score arrives from the wire as a number with one decimal place
/// of significance; it is held here in tenths, so a score of 9.0 is stored as
/// 90. A negative snippet count of -1 and a negative trust score are
/// sentinels meaning "not applicable".
#[derive(Debug)]
pub struct SearchResult {
    pub id: String,
    pub title: String,
    pub description: String,
    pub total_snippets: Option<i32>,
    pub trust_score: Option<i64>,
    pub versions: Option<Vec<String>>,
}

/// The mathematical value of a [`SearchResult`].
pub ghost struct SearchResultView {
    pub id: Seq<char>,
    pub title: Seq<char>,
    pub description: Seq<char>,
    pub total_snippets: Option<i32>,
    pub trust_score: Option<i64>,
    pub versions: Option<Seq<Seq<char>>>,
}

impl View for SearchResult {
    type V = SearchResultView;

    open spec fn view(&self) -> SearchResultView {
        SearchResultView {
            id: self.id@,
            title: self.title@,
            description: self.description@,
            total_snippets: self.total_snippets,
            trust_score: self.trust_score,
            versions: match self.versions {
                Some(v) => Some(v.deep_view()),
                None => None,
            },
        }
    }
}

/// What a search produced: the matches, or a soft error to report verbatim.
#[derive(Debug)]
pub struct SearchResponse {
    pub results: Vec<SearchResult>,
    pub error: Option<String>,
}

/// The mathematical value of a [`SearchResponse`].
pub ghost struct SearchResponseView {
    pub results: Seq<SearchResultView>,
    pub error: Option<Seq<char>>,
}

impl View for SearchResponse {
    type V = SearchResponseView;

    open spec fn view(&self) -> SearchResponseView {
        SearchResponseView {
            results: self.results.deep_view(),
            error: match self.error {
                Some(e) => Some(e@),
                None => None,
            },
        }
    }
}

impl DeepView for SearchResult {
    type V = SearchResultView;

    open spec fn deep_view(&self) -> SearchResultView {
        self.view()
    }
}

/// Read-only configuration for upstream calls, fixed at construction.
#[derive(Debug)]
pub struct Context7Client {
    pub api_key: Option<String>,
    pub base_url: String,
    pub insecure: bool,
}

/// A fully-determined outbound GET request: the transport shell executes it
/// without further decisions.
#[derive(Debug)]
pub struct RequestPlan {
    pub url: String,
    pub query_params: Vec<(String, String)>,
    pub headers: Vec<(String, String)>,
    pub insecure: bool,
}

/// What the transport observed for one request against the fetch endpoint.
#[derive(Debug)]
pub enum UpstreamResult {
    /// A success status: the body text.
    Body(String),
    /// A non-success status code, with the transport's description of it.
    Status(u16, String),
    /// No HTTP response at all: the description of the failure.
    Failure(String),
}

/// What the transport observed for one request against the search endpoint.
/// A success body is JSON; the shell parses it before handing it over, so a
/// success arrives either parsed or as the description of the parse failure.
#[derive(Debug)]
pub enum SearchUpstreamResult {
    /// A success status whose body parsed.
    Parsed(SearchResponse),
    /// A success status whose body did not parse: the description.
    Malformed(String),
    /// A non-success status code, with the transport's description of it.
    Status(u16, String),
    /// No HTTP response at all: the description of the failure.
    Failure(String),
}

/// The token budget actually sent: the default when absent, never below the
/// minimum, and never lowered.
pub open spec fn spec_resolve_tokens(tokens: Option<u32>) -> u32 {
    match tokens {
        None => DEFAULT_TOKENS,
        Some(t) => if t < MINIMUM_TOKENS {
            MINIMUM_TOKENS
        } else {
            t
        },
    }
}

/// Resolves an optional requested token budget to the value sent upstream.
pub fn resolve_tokens(tokens: Option<u32>) -> (r: u32)
    ensures
        r == spec_resolve_tokens(tokens),
{
    match tokens {
        None => DEFAULT_TOKENS,
        Some(t) => if t < MINIMUM_TOKENS {
            MINIMUM_TOKENS
        } else {
            t
        },
    }
}

/// A library identifier with exactly one leading slash removed, if any.
pub open spec fn spec_normalize_id(s: Seq<char>) -> Seq<char> {
    if s.len() > 0 && s[0] == '/' {
        s.subrange(1, s.len() as int)
    } else {
        s
    }
}

/// Strips exactly one leading `/` from a library identifier, so that it can
/// stand as a URL path segment. An identifier without a leading slash is
/// returned unchanged.
pub fn normalize_library_id(library_id: &str) -> (r: String)
    ensures
        r@ == spec_normalize_id(library_id@),
{
    let n = library_id.unicode_len();
    if n > 0 && library_id.get_char(0) == '/' {
        library_id.substring_char(1, n).to_owned()
    } else {
        library_id.to_owned()
    }
}

/// The soft error text for a search that ended with status `code`, where
/// `detail` is the transport's description of the failure.
pub open spec fn spec_search_failure_text(code: int, detail: Seq<char>) -> Seq<char> {
    if code == 429 {
        "Rate limited due to too many requests. Please try again later."@
    } else if code == 401 {
        "Unauthorized. Please check your API key."@
    } else {
        "Failed to search libraries: "@ + detail
    }
}

/// The content text for a fetch that ended with status `code`, where
/// `detail` is the transport's description of the failure.
pub open spec fn spec_fetch_status_text(code: int, detail: Seq<char>) -> Seq<char> {
    if code == 429 {
        "Rate limited due to too many requests. Please try again later."@
    } else if code == 404 {
        "The library you are trying to access does not exist. Please try with a different library ID."@
    } else if code == 401 {
        "Unauthorized. Please check your API key."@
    } else {
        "Failed to fetch documentation: "@ + detail
    }
}

/// Whether a fetch body counts as "no content": empty, or one of the two
/// sentinel texts the upstream serves in place of missing documentation.
pub open spec fn spec_is_no_content(body: Seq<char>) -> bool {
    ||| body.len() == 0
    ||| body == "No content available"@
    ||| body == "No context data available"@
}

impl Context7Client {
    /// A client against the production upstream base URL.
    pub fn new(api_key: Option<String>, insecure: bool) -> (r: Context7Client)
        ensures
            r.api_key == api_key,
            r.base_url@ == "https://context7.com/api"@,
            r.insecure == insecure,
    {
        Context7Client::new_with_base_url(
            api_key,
            "https://context7.com/api".to_owned(),
            insecure,
        )
    }

    /// A client against an arbitrary base URL.
    pub fn new_with_base_url(api_key: Option<String>, base_url: String, insecure: bool) -> (r:
        Context7Client)
        ensures
            r.api_key == api_key,
            r.base_url == base_url,
            r.insecure == insecure,
    {
        Context7Client { api_key, base_url, insecure }
    }

    /// The GET request for a library-name search: the search path, the query
    /// as the single parameter, and a bearer header exactly when the client
    /// holds an API key.
    pub fn search_request(&self, query: &str) -> (r: RequestPlan)
        ensures
            r.url@ == self.base_url@ + "/v1/search"@,
            r.query_params@.len() == 1,
            (r.query_params@[0].0)@ == "query"@,
            (r.query_params@[0].1)@ == query@,
            self.api_key matches Some(k) ==> r.headers@.len() == 1 && (r.headers@[0].0)@
                == "Authorization"@ && (r.headers@[0].1)@ == "Bearer "@ + k@,
            self.api_key is None ==> r.headers@.len() == 0,
            r.insecure == self.insecure,
    {
        let mut url = self.base_url.clone();
        url.append("/v1/search");

        let mut query_params: Vec<(String, String)> = Vec::new();
        query_params.push(("query".to_owned(), query.to_owned()));

        let mut headers: Vec<(String, String)> = Vec::new();
        match &self.api_key {
            Some(key) => {
                let mut bearer = "Bearer ".to_owned();
                bearer.append(key.as_str());
                headers.push(("Authorization".to_owned(), bearer));
            },
            None => {},
        }

        RequestPlan { url, query_params, headers, insecure: self.insecure }
    }

    /// The GET request for a documentation fetch: the normalized identifier
    /// as the path, the resolved token budget and the fixed `type=txt`
    /// parameter, the topic parameter only when one is given, a bearer
    /// header exactly when the client holds an API key, and the fixed
    /// source header.
    pub fn fetch_request(&self, library_id: &str, tokens: Option<u32>, topic: Option<&str>) -> (r:
        RequestPlan)
        ensures
            r.url@ == self.base_url@ + "/v1/"@ + spec_normalize_id(library_id@),
            topic is Some ==> r.query_params@.len() == 3,
            topic is None ==> r.query_params@.len() == 2,
            (r.query_params@[0].0)@ == "tokens"@,
            (r.query_params@[0].1)@ == spec_nat_chars(spec_resolve_tokens(tokens) as int),
            (r.query_params@[1].0)@ == "type"@,
            (r.query_params@[1].1)@ == "txt"@,
            topic matches Some(t) ==> (r.query_params@[2].0)@ == "topic"@ && (r.query_params@[2].1)@
                == t@,
            self.api_key matches Some(k) ==> r.headers@.len() == 2 && (r.headers@[0].0)@
                == "Authorization"@ && (r.headers@[0].1)@ == "Bearer "@ + k@ && (r.headers@[1].0)@
                == "X-Context7-Source"@ && (r.headers@[1].1)@ == "mcp-server"@,
            self.api_key is None ==> r.headers@.len() == 1 && (r.headers@[0].0)@
                == "X-Context7-Source"@ && (r.headers@[0].1)@ == "mcp-server"@,
            r.insecure == self.insecure,
    {
        let normalized = normalize_library_id(library_id);
        let mut url = self.base_url.clone();
        url.append("/v1/");
        url.append(normalized.as_str());

        let resolved = resolve_tokens(tokens);

        let mut query_params: Vec<(String, String)> = Vec::new();
        query_params.push(("tokens".to_owned(), u64_to_decimal(resolved as u64)));
        query_params.push(("type".to_owned(), "txt".to_owned()));
        match topic {
            Some(t) => {
                query_params.push(("topic".to_owned(), t.to_owned()));
            },
            None => {},
        }

        let mut headers: Vec<(String, String)> = Vec::new();
        match &self.api_key {
            Some(key) => {
                let mut bearer = "Bearer ".to_owned();
                bearer.append(key.as_str());
                headers.push(("Authorization".to_owned(), bearer));
            },
            None => {},
        }
        headers.push(("X-Context7-Source".to_owned(), "mcp-server".to_owned()));

        RequestPlan { url, query_params, headers, insecure: self.insecure }
    }
}

/// Interprets what the transport observed for a search. A parsed body passes
/// through; a parse failure of a success body is the one hard error; rate
/// limiting and bad credentials become soft errors with their fixed texts;
/// anything else becomes a soft error naming the cause.
pub fn interpret_search_result(result: SearchUpstreamResult) -> (out: Result<SearchResponse, String>)
    ensures
        result matches SearchUpstreamResult::Parsed(resp) ==> out matches Ok(o) && o == resp,
        result matches SearchUpstreamResult::Malformed(m) ==> out matches Err(e) && e == m,
        result matches SearchUpstreamResult::Status(code, d) ==> (out matches Ok(o)
            && o.results@.len() == 0 && (o.error matches Some(e) && e@ == spec_search_failure_text(
            code as int,
            d@,
        ))),
        result matches SearchUpstreamResult::Failure(d) ==> (out matches Ok(o) && o.results@.len()
            == 0 && (o.error matches Some(e) && e@ == "Failed to search libraries: "@ + d@)),
{
    match result {
        SearchUpstreamResult::Parsed(resp) => Ok(resp),
        SearchUpstreamResult::Malformed(m) => Err(m),
        SearchUpstreamResult::Status(code, detail) => {
            if code == 429 {
                Ok(
                    SearchResponse {
                        results: Vec::new(),
                        error: Some(
                            "Rate limited due to too many requests. Please try again later.".to_owned(),
                        ),
                    },
                )
            } else if code == 401 {
                Ok(
                    SearchResponse {
                        results: Vec::new(),
                        error: Some("Unauthorized. Please check your API key.".to_owned()),
                    },
                )
            } else {
                let mut msg = "Failed to search libraries: ".to_owned();
                msg.append(detail.as_str());
                Ok(SearchResponse { results: Vec::new(), error: Some(msg) })
            }
        },
        SearchUpstreamResult::Failure(detail) => {
            let mut msg = "Failed to search libraries: ".to_owned();
            msg.append(detail.as_str());
            Ok(SearchResponse { results: Vec::new(), error: Some(msg) })
        },
    }
}

/// Interprets what the transport observed for a fetch. Every outcome becomes
/// text or "no content" (`None`): an empty or sentinel body is no content;
/// recognized status codes map to their fixed texts; anything else becomes
/// text naming the cause. A fetch never produces a hard error.
pub fn interpret_fetch_result(result: UpstreamResult) -> (out: Option<String>)
    ensures
        result matches UpstreamResult::Body(t) ==> (if spec_is_no_content(t@) {
            out is None
        } else {
            out matches Some(s) && s == t
        }),
        result matches UpstreamResult::Status(code, d) ==> out matches Some(s) && s@
            == spec_fetch_status_text(code as int, d@),
        result matches UpstreamResult::Failure(d) ==> out matches Some(s) && s@
            == "Failed to fetch documentation: "@ + d@,
{
    match result {
        UpstreamResult::Body(text) => {
            if text.as_str().is_empty() || str_eq(text.as_str(), "No content available") || str_eq(
                text.as_str(),
                "No context data available",
            ) {
                None
            } else {
                Some(text)
            }
        },
        UpstreamResult::Status(code, detail) => {
            if code == 429 {
                Some("Rate limited due to too many requests. Please try again later.".to_owned())
            } else if code == 404 {
                Some(
                    "The library you are trying to access does not exist. Please try with a different library ID.".to_owned(),
                )
            } else if code == 401 {
                Some("Unauthorized. Please check your API key.".to_owned())
            } else {
                let mut msg = "Failed to fetch documentation: ".to_owned();
                msg.append(detail.as_str());
                Some(msg)
            }
        },
        UpstreamResult::Failure(detail) => {
            let mut msg = "Failed to fetch documentation: ".to_owned();
            msg.append(detail.as_str());
            Some(msg)
        },
    }
}

} // verus!
