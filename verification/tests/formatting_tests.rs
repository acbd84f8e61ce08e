use c67_mcp::client::{SearchResponse, SearchResult};
use c67_mcp::formatting::format_search_results;

fn sample_response() -> SearchResponse {
    SearchResponse {
        results: vec![
            SearchResult {
                id: "/test/lib1".to_string(),
                title: "Test Library 1".to_string(),
                description: "A test library".to_string(),
                total_snippets: Some(100),
                trust_score: Some(80),
                versions: Some(vec!["1.0.0".to_string(), "2.0.0".to_string()]),
            },
            SearchResult {
                id: "/test/lib2".to_string(),
                title: "Test Library 2".to_string(),
                description: "Another test library".to_string(),
                total_snippets: Some(-1),
                trust_score: Some(-10),
                versions: None,
            },
        ],
        error: None,
    }
}

#[test]
fn test_search_response_formatting() {
    let empty_response = SearchResponse { results: vec![], error: None };
    let formatted = format_search_results(&empty_response);
    assert_eq!(
        formatted,
        "No documentation libraries found matching your query."
    );

    let response = sample_response();
    let formatted = format_search_results(&response);

    assert!(formatted.contains("Test Library 1"));
    assert!(formatted.contains("/test/lib1"));
    assert!(formatted.contains("Code Snippets: 100"));
    assert!(formatted.contains("Trust Score: 8.0"));
    assert!(formatted.contains("Versions: 1.0.0, 2.0.0"));

    assert!(formatted.contains("Test Library 2"));
    assert!(formatted.contains("/test/lib2"));
    assert!(!formatted.contains("Code Snippets: -1"));
    assert!(!formatted.contains("Trust Score: -1.0"));

    assert!(formatted.contains("----------"));
}

#[test]
fn formatting_exact_block_text() {
    let response = SearchResponse {
        results: vec![SearchResult {
            id: "/nixos/nix".to_string(),
            title: "Nix".to_string(),
            description: "The Nix package manager".to_string(),
            total_snippets: Some(1241),
            trust_score: Some(90),
            versions: Some(vec!["2.18.0".to_string(), "2.17.0".to_string()]),
        }],
        error: None,
    };
    let formatted = format_search_results(&response);
    assert_eq!(
        formatted,
        "- Title: Nix\n- Context7-compatible library ID: /nixos/nix\n- Description: The Nix package manager\n- Code Snippets: 1241\n- Trust Score: 9.0\n- Versions: 2.18.0, 2.17.0"
    );
}

#[test]
fn formatting_joins_blocks_with_separator_line() {
    let response = sample_response();
    let formatted = format_search_results(&response);
    assert!(formatted.contains("\n----------\n"));
    let halves: Vec<&str> = formatted.split("\n----------\n").collect();
    assert_eq!(halves.len(), 2);
    assert!(halves[0].starts_with("- Title: Test Library 1"));
    assert!(halves[1].starts_with("- Title: Test Library 2"));
}

#[test]
fn formatting_sentinel_snippets_suppressed_but_other_negatives_render() {
    let response = SearchResponse {
        results: vec![SearchResult {
            id: "/a/b".to_string(),
            title: "T".to_string(),
            description: "D".to_string(),
            total_snippets: Some(-5),
            trust_score: None,
            versions: None,
        }],
        error: None,
    };
    let formatted = format_search_results(&response);
    assert!(formatted.contains("Code Snippets: -5"));
}

#[test]
fn formatting_trust_score_one_decimal_place() {
    let response = SearchResponse {
        results: vec![SearchResult {
            id: "/a/b".to_string(),
            title: "T".to_string(),
            description: "D".to_string(),
            total_snippets: None,
            trust_score: Some(75),
            versions: None,
        }],
        error: None,
    };
    let formatted = format_search_results(&response);
    assert!(formatted.contains("Trust Score: 7.5"));
}

#[test]
fn formatting_empty_versions_list_suppressed() {
    let response = SearchResponse {
        results: vec![SearchResult {
            id: "/a/b".to_string(),
            title: "T".to_string(),
            description: "D".to_string(),
            total_snippets: None,
            trust_score: None,
            versions: Some(vec![]),
        }],
        error: None,
    };
    let formatted = format_search_results(&response);
    assert!(!formatted.contains("Versions:"));
    assert_eq!(
        formatted,
        "- Title: T\n- Context7-compatible library ID: /a/b\n- Description: D"
    );
}
