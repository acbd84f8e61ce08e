//! The tool dispatcher: validating tool-call arguments, planning the one
//! upstream request a call may make, and rendering every outcome as text.
//!
//! The protocol transport around it is unverified glue: it converts protocol
//! values into [`ArgValue`]s, executes the planned request, and wraps the
//! returned text in the protocol's success envelope. Every decision stands
//! here.

use vstd::prelude::*;

use crate::client::{Context7Client, SearchResponse};
use crate::formatting::{format_search_results, spec_format_search_results};
use crate::text::str_eq;

verus! {

/// The preamble placed before rendered search results, describing the shape
/// of each entry to the caller.
pub const RESOLVE_PREAMBLE: &'static str = "Available Libraries (top matches):\n\nEach result includes:\n- Library ID: Context7-compatible identifier (format: /org/project)\n- Name: Library or package name\n- Description: Short summary\n- Code Snippets: Number of available code examples\n- Trust Score: Authority indicator\n- Versions: List of versions if available. Use one of those versions if the user provides a version in their query. The format of the version is /org/project/version.\n\nFor best results, select libraries based on name match, trust score, snippet coverage, and relevance to your use case.\n\n----------\n\n";

/// The text returned when a fetch found no content for the identifier.
pub const DOCS_NOT_FOUND_TEXT: &'static str = "Documentation not found or not finalized for this library. This might have happened because you used an invalid Context7-compatible library ID. To get a valid Context7-compatible library ID, use the 'resolve-library-id' with the package name you wish to retrieve documentation for.";

/// The announced description of the search tool.
pub const RESOLVE_TOOL_DESCRIPTION: &'static str = "Resolves a package/product name to a Context7-compatible library ID and returns a list of matching libraries.\n\nYou MUST call this function before 'get-library-docs' to obtain a valid Context7-compatible library ID UNLESS the user explicitly provides a library ID in the format '/org/project' or '/org/project/version' in their query.\n\nSelection Process:\n1. Analyze the query to understand what library/package the user is looking for\n2. Return the most relevant match based on:\n- Name similarity to the query (exact matches prioritized)\n- Description relevance to the query's intent\n- Documentation coverage (prioritize libraries with higher Code Snippet counts)\n- Trust score (consider libraries with scores of 7-10 more authoritative)\n\nResponse Format:\n- Return the selected library ID in a clearly marked section\n- Provide a brief explanation for why this library was chosen\n- If multiple good matches exist, acknowledge this but proceed with the most relevant one\n- If no good matches exist, clearly state this and suggest query refinements\n\nFor ambiguous queries, request clarification before proceeding with a best-guess match.";

/// The announced description of the documentation tool.
pub const DOCS_TOOL_DESCRIPTION: &'static str = "Fetches up-to-date documentation for a library. You must call 'resolve-library-id' first to obtain the exact Context7-compatible library ID required to use this tool, UNLESS the user explicitly provides a library ID in the format '/org/project' or '/org/project/version' in their query.";

/// The announced description of the search tool's one argument.
pub const LIBRARY_NAME_ARG_DESCRIPTION: &'static str = "Library name to search for and retrieve a Context7-compatible library ID.";

/// The announced description of the documentation tool's identifier argument.
pub const LIBRARY_ID_ARG_DESCRIPTION: &'static str = "Exact Context7-compatible library ID (e.g., '/mongodb/docs', '/vercel/next.js', '/supabase/supabase', '/vercel/next.js/v14.3.0-canary.87') retrieved from 'resolve-library-id' or directly from user query in the format '/org/project' or '/org/project/version'.";

/// The announced description of the documentation tool's budget argument.
pub const TOKENS_ARG_DESCRIPTION: &'static str = "Maximum number of tokens of documentation to retrieve (default: 5000). Higher values provide more context but consume more tokens.";

/// The announced description of the documentation tool's topic argument.
pub const TOPIC_ARG_DESCRIPTION: &'static str = "Topic to focus documentation on (e.g., 'hooks', 'routing').";

/// One declared argument of a tool, as announced to callers: its name, its
/// protocol type, and its description.
#[derive(Debug)]
pub struct PropertyDescriptor {
    pub name: String,
    pub value_type: String,
    pub description: String,
}

/// One tool as announced to callers: its name, its description, its declared
/// arguments, and which of them are required.
#[derive(Debug)]
pub struct ToolDescriptor {
    pub name: String,
    pub description: String,
    pub properties: Vec<PropertyDescriptor>,
    pub required: Vec<String>,
}

/// One argument value of a tool call, as the protocol types it: a string, a
/// number already coerced to an unsigned integer, or anything else.
#[derive(Debug)]
pub enum ArgValue {
    Text(String),
    Number(u64),
    Other,
}

/// What a tool call asks for, decided before any network activity: a
/// rejection with its message, a search, or a documentation fetch.
#[derive(Debug)]
pub enum ToolCallPlan {
    /// The call is malformed: the protocol-level rejection message.
    Invalid(String),
    /// Search for libraries matching the query.
    Search(String),
    /// Fetch documentation for an identifier, with optional budget and topic.
    Fetch { library_id: String, tokens: Option<u32>, topic: Option<String> },
}

/// The value bound to `key` in an argument list, first binding wins.
pub open spec fn spec_lookup(args: Seq<(String, ArgValue)>, key: Seq<char>) -> Option<ArgValue>
    decreases args.len(),
{
    if args.len() == 0 {
        None
    } else if args[0].0@ == key {
        Some(args[0].1)
    } else {
        spec_lookup(args.drop_first(), key)
    }
}

/// The value bound to `key`, where the argument list itself is optional.
pub open spec fn spec_args_lookup(
    arguments: Option<Vec<(String, ArgValue)>>,
    key: Seq<char>,
) -> Option<ArgValue> {
    match arguments {
        Some(args) => spec_lookup(args@, key),
        None => None,
    }
}

/// The token budget named by the arguments: a numeric `tokens` value,
/// truncated to the protocol's unsigned 32-bit range, and nothing otherwise.
pub open spec fn spec_tokens_arg(arguments: Option<Vec<(String, ArgValue)>>) -> Option<u32> {
    match spec_args_lookup(arguments, "tokens"@) {
        Some(ArgValue::Number(n)) => Some(n as u32),
        _ => None,
    }
}

/// The topic named by the arguments: a string `topic` value, and nothing
/// otherwise.
pub open spec fn spec_topic_arg(arguments: Option<Vec<(String, ArgValue)>>) -> Option<String> {
    match spec_args_lookup(arguments, "topic"@) {
        Some(ArgValue::Text(t)) => Some(t),
        _ => None,
    }
}

/// Finds the first binding of `key` in `args`.
pub fn lookup_argument<'a>(args: &'a Vec<(String, ArgValue)>, key: &str) -> (r: Option<
    &'a ArgValue,
>)
    ensures
        r matches Some(v) ==> spec_lookup(args@, key@) == Some(*v),
        r is None ==> spec_lookup(args@, key@) is None,
{
    proof {
        assert(args@.skip(0) =~= args@);
    }
    let mut i: usize = 0;
    while i < args.len()
        invariant
            i <= args@.len(),
            spec_lookup(args@, key@) == spec_lookup(args@.skip(i as int), key@),
        decreases args@.len() - i,
    {
        if str_eq(args[i].0.as_str(), key) {
            return Some(&args[i].1);
        }
        proof {
            assert(args@.skip(i as int).drop_first() =~= args@.skip(i as int + 1));
        }
        i = i + 1;
    }
    proof {
        assert(args@.skip(args@.len() as int) =~= Seq::<(String, ArgValue)>::empty());
    }
    None
}

/// Decides what a tool call asks for. The two known tools each demand their
/// one required string argument and are rejected with a fixed message when
/// it is missing; an unknown tool name is rejected naming the tool; nothing
/// else is ever planned.
pub fn plan_tool_call(name: &str, arguments: &Option<Vec<(String, ArgValue)>>) -> (plan:
    ToolCallPlan)
    ensures
        name@ == "resolve-library-id"@ ==> (match spec_args_lookup(*arguments, "libraryName"@) {
            Some(ArgValue::Text(q)) => plan matches ToolCallPlan::Search(query) && query == q,
            _ => plan matches ToolCallPlan::Invalid(m) && m@ == "Missing libraryName parameter"@,
        }),
        name@ == "get-library-docs"@ ==> (match spec_args_lookup(
            *arguments,
            "context7CompatibleLibraryID"@,
        ) {
            Some(ArgValue::Text(id)) => plan matches ToolCallPlan::Fetch { library_id, tokens, topic }
                && library_id == id && tokens == spec_tokens_arg(*arguments) && topic
                == spec_topic_arg(*arguments),
            _ => plan matches ToolCallPlan::Invalid(m) && m@
                == "Missing context7CompatibleLibraryID parameter"@,
        }),
        name@ != "resolve-library-id"@ && name@ != "get-library-docs"@ ==> (plan matches ToolCallPlan::Invalid(m)
            && m@ == "Unknown tool: "@ + name@),
{
    proof {
        reveal_strlit("resolve-library-id");
        reveal_strlit("get-library-docs");
        assert("resolve-library-id"@.len() == 18);
        assert("get-library-docs"@.len() == 16);
    }
    if str_eq(name, "resolve-library-id") {
        match arguments {
            Some(args) => match lookup_argument(args, "libraryName") {
                Some(ArgValue::Text(q)) => ToolCallPlan::Search(q.clone()),
                _ => ToolCallPlan::Invalid("Missing libraryName parameter".to_owned()),
            },
            None => ToolCallPlan::Invalid("Missing libraryName parameter".to_owned()),
        }
    } else if str_eq(name, "get-library-docs") {
        let args = match arguments {
            Some(args) => args,
            None => {
                return ToolCallPlan::Invalid(
                    "Missing context7CompatibleLibraryID parameter".to_owned(),
                );
            },
        };
        let library_id = match lookup_argument(args, "context7CompatibleLibraryID") {
            Some(v) => match v {
                ArgValue::Text(id) => id.clone(),
                _ => {
                    return ToolCallPlan::Invalid(
                        "Missing context7CompatibleLibraryID parameter".to_owned(),
                    );
                },
            },
            None => {
                return ToolCallPlan::Invalid(
                    "Missing context7CompatibleLibraryID parameter".to_owned(),
                );
            },
        };
        let topic = match lookup_argument(args, "topic") {
            Some(v) => match v {
                ArgValue::Text(t) => Some(t.clone()),
                _ => None,
            },
            None => None,
        };
        let tokens = match lookup_argument(args, "tokens") {
            Some(v) => match v {
                ArgValue::Number(n) => Some(#[verifier::truncate] (*n as u32)),
                _ => None,
            },
            None => None,
        };
        ToolCallPlan::Fetch { library_id, tokens, topic }
    } else {
        let mut m = "Unknown tool: ".to_owned();
        m.append(name);
        ToolCallPlan::Invalid(m)
    }
}

/// Renders a search outcome as the one content text of the call: a soft
/// error verbatim, results behind the fixed preamble, and a hard failure as
/// an explanatory sentence naming the cause. Nothing fails here: every
/// outcome becomes text.
pub fn resolve_response_text(outcome: Result<SearchResponse, String>) -> (r: String)
    ensures
        outcome matches Ok(resp) ==> (match resp.error {
            Some(e) => r@ == e@,
            None => r@ == RESOLVE_PREAMBLE@ + spec_format_search_results(resp@),
        }),
        outcome matches Err(e) ==> r@
            == "Failed to retrieve library documentation data from Context7: "@ + e@,
{
    match outcome {
        Ok(resp) => {
            let SearchResponse { results, error } = resp;
            match error {
                Some(e) => e,
                None => {
                    let response = SearchResponse { results, error: None };
                    let mut s = RESOLVE_PREAMBLE.to_owned();
                    s.append(format_search_results(&response).as_str());
                    s
                },
            }
        },
        Err(e) => {
            let mut s = "Failed to retrieve library documentation data from Context7: ".to_owned();
            s.append(e.as_str());
            s
        },
    }
}

/// Renders a fetch outcome as the one content text of the call: returned
/// documentation verbatim, the fixed guidance when there was no content, and
/// a hard failure (not produced by this library's own fetch interpretation,
/// but handled defensively) as an explanatory sentence naming the cause.
pub fn docs_response_text(outcome: Result<Option<String>, String>) -> (r: String)
    ensures
        outcome matches Ok(d) ==> (match d {
            Some(text) => r == text,
            None => r@ == DOCS_NOT_FOUND_TEXT@,
        }),
        outcome matches Err(e) ==> r@ == "Error fetching library documentation: "@ + e@,
{
    match outcome {
        Ok(Some(text)) => text,
        Ok(None) => DOCS_NOT_FOUND_TEXT.to_owned(),
        Err(e) => {
            let mut s = "Error fetching library documentation: ".to_owned();
            s.append(e.as_str());
            s
        },
    }
}

/// The server as the protocol sees it: the shared client configuration.
#[derive(Debug)]
pub struct Context7Tool {
    pub client: Context7Client,
}

impl Context7Tool {
    /// A tool server against the production upstream.
    pub fn new(api_key: Option<String>, insecure: bool) -> (r: Context7Tool)
        ensures
            r.client.api_key == api_key,
            r.client.base_url@ == "https://context7.com/api"@,
            r.client.insecure == insecure,
    {
        Context7Tool { client: Context7Client::new(api_key, insecure) }
    }
}

/// The two tools the server exposes, exactly as announced to callers: the
/// search tool with its one required string argument, and the documentation
/// tool with its required identifier and its optional budget and topic.
pub fn tool_descriptors() -> (tools: Vec<ToolDescriptor>)
    ensures
        tools@.len() == 2,
        (tools@[0].name)@ == "resolve-library-id"@,
        (tools@[0].description)@ == RESOLVE_TOOL_DESCRIPTION@,
        tools@[0].properties@.len() == 1,
        (tools@[0].properties@[0].name)@ == "libraryName"@,
        (tools@[0].properties@[0].value_type)@ == "string"@,
        (tools@[0].properties@[0].description)@ == LIBRARY_NAME_ARG_DESCRIPTION@,
        tools@[0].required@.len() == 1,
        (tools@[0].required@[0])@ == "libraryName"@,
        (tools@[1].name)@ == "get-library-docs"@,
        (tools@[1].description)@ == DOCS_TOOL_DESCRIPTION@,
        tools@[1].properties@.len() == 3,
        (tools@[1].properties@[0].name)@ == "context7CompatibleLibraryID"@,
        (tools@[1].properties@[0].value_type)@ == "string"@,
        (tools@[1].properties@[0].description)@ == LIBRARY_ID_ARG_DESCRIPTION@,
        (tools@[1].properties@[1].name)@ == "tokens"@,
        (tools@[1].properties@[1].value_type)@ == "number"@,
        (tools@[1].properties@[1].description)@ == TOKENS_ARG_DESCRIPTION@,
        (tools@[1].properties@[2].name)@ == "topic"@,
        (tools@[1].properties@[2].value_type)@ == "string"@,
        (tools@[1].properties@[2].description)@ == TOPIC_ARG_DESCRIPTION@,
        tools@[1].required@.len() == 1,
        (tools@[1].required@[0])@ == "context7CompatibleLibraryID"@,
{
    let mut resolve_properties: Vec<PropertyDescriptor> = Vec::new();
    resolve_properties.push(
        PropertyDescriptor {
            name: "libraryName".to_owned(),
            value_type: "string".to_owned(),
            description: LIBRARY_NAME_ARG_DESCRIPTION.to_owned(),
        },
    );
    let mut resolve_required: Vec<String> = Vec::new();
    resolve_required.push("libraryName".to_owned());

    let mut docs_properties: Vec<PropertyDescriptor> = Vec::new();
    docs_properties.push(
        PropertyDescriptor {
            name: "context7CompatibleLibraryID".to_owned(),
            value_type: "string".to_owned(),
            description: LIBRARY_ID_ARG_DESCRIPTION.to_owned(),
        },
    );
    docs_properties.push(
        PropertyDescriptor {
            name: "tokens".to_owned(),
            value_type: "number".to_owned(),
            description: TOKENS_ARG_DESCRIPTION.to_owned(),
        },
    );
    docs_properties.push(
        PropertyDescriptor {
            name: "topic".to_owned(),
            value_type: "string".to_owned(),
            description: TOPIC_ARG_DESCRIPTION.to_owned(),
        },
    );
    let mut docs_required: Vec<String> = Vec::new();
    docs_required.push("context7CompatibleLibraryID".to_owned());

    let mut tools: Vec<ToolDescriptor> = Vec::new();
    tools.push(
        ToolDescriptor {
            name: "resolve-library-id".to_owned(),
            description: RESOLVE_TOOL_DESCRIPTION.to_owned(),
            properties: resolve_properties,
            required: resolve_required,
        },
    );
    tools.push(
        ToolDescriptor {
            name: "get-library-docs".to_owned(),
            description: DOCS_TOOL_DESCRIPTION.to_owned(),
            properties: docs_properties,
            required: docs_required,
        },
    );
    tools
}

/// The fixed name under which the server identifies itself.
pub fn server_name() -> (r: &'static str)
    ensures
        r@ == "c67-mcp"@,
{
    "c67-mcp"
}

/// The fixed instruction text the server announces.
pub fn server_instructions() -> (r: &'static str)
    ensures
        r@
            == "Use this server to retrieve up-to-date documentation and code examples for any library."@,
{
    "Use this server to retrieve up-to-date documentation and code examples for any library."
}

} // verus!
