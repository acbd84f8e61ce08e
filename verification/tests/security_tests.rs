use c67_mcp::client::{
    interpret_fetch_result, interpret_search_result, Context7Client, SearchResponse, SearchResult,
    SearchUpstreamResult, UpstreamResult,
};

#[test]
fn test_context7_client_with_insecure_flag() {
    let client_insecure = Context7Client::new_with_base_url(None, "http://localhost:9".to_string(), true);
    let plan_insecure = client_insecure.search_request("test-insecure");
    assert!(plan_insecure.insecure);
    assert_eq!(plan_insecure.url, "http://localhost:9/v1/search");
    assert_eq!(
        plan_insecure.query_params,
        vec![("query".to_string(), "test-insecure".to_string())]
    );

    let parsed = SearchResponse {
        results: vec![SearchResult {
            id: "/test/insecure".to_string(),
            title: "Test Insecure Library".to_string(),
            description: "Testing insecure TLS connections".to_string(),
            total_snippets: Some(42),
            trust_score: Some(75),
            versions: Some(vec!["1.0.0".to_string()]),
        }],
        error: None,
    };
    let response_insecure = interpret_search_result(SearchUpstreamResult::Parsed(parsed)).unwrap();
    assert_eq!(response_insecure.results.len(), 1);
    assert_eq!(response_insecure.results[0].id, "/test/insecure");
    assert_eq!(response_insecure.results[0].title, "Test Insecure Library");

    let client_secure = Context7Client::new_with_base_url(None, "http://localhost:9".to_string(), false);
    let plan_secure = client_secure.search_request("test-insecure");
    assert!(!plan_secure.insecure);
}

#[test]
fn test_context7_client_fetch_docs_with_insecure_flag() {
    let client_insecure = Context7Client::new_with_base_url(None, "http://localhost:9".to_string(), true);
    let plan_insecure = client_insecure.fetch_request("/test/insecure", Some(5000), None);
    assert!(plan_insecure.insecure);
    assert_eq!(plan_insecure.url, "http://localhost:9/v1/test/insecure");
    assert_eq!(
        plan_insecure.query_params,
        vec![
            ("tokens".to_string(), "5000".to_string()),
            ("type".to_string(), "txt".to_string()),
        ]
    );

    let body = "# Insecure Connection Test\n\nThis tests insecure TLS connections for corporate environments.";
    let docs_insecure = interpret_fetch_result(UpstreamResult::Body(body.to_string()));
    assert!(docs_insecure.is_some());
    let content_insecure = docs_insecure.unwrap();
    assert!(content_insecure.contains("Insecure Connection Test"));
    assert!(content_insecure.contains("corporate environments"));

    let client_secure = Context7Client::new_with_base_url(None, "http://localhost:9".to_string(), false);
    let plan_secure = client_secure.fetch_request("/test/insecure", Some(5000), None);
    assert!(!plan_secure.insecure);

    let docs_secure = interpret_fetch_result(UpstreamResult::Body(body.to_string()));
    assert!(docs_secure.is_some());
    assert!(docs_secure.unwrap().contains("Insecure Connection Test"));
}
