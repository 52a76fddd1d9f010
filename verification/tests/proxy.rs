use forward_proxy::headers::Header;
use forward_proxy::pipeline::conclude;
use forward_proxy::pipeline::handle;
use forward_proxy::pipeline::handle_step;
use forward_proxy::pipeline::Outcome;
use forward_proxy::pipeline::ProxyError;
use forward_proxy::request::rewrite;
use forward_proxy::request::InboundRequest;
use forward_proxy::stats::Stats;
use forward_proxy::stats::StatsRegistry;
use forward_proxy::target::UpstreamConfig;

fn example_config() -> UpstreamConfig {
    UpstreamConfig {
        scheme: "https".to_string(),
        host: "example.com".to_string(),
    }
}

fn request(path: &str, query: Option<&str>, headers: Vec<(&str, &str)>) -> InboundRequest {
    InboundRequest {
        method: "GET".to_string(),
        path: path.to_string(),
        query: query.map(|q| q.to_string()),
        headers: headers
            .into_iter()
            .map(|(n, v)| Header {
                name: n.to_string(),
                value: v.to_string(),
            })
            .collect(),
    }
}

#[test]
fn status_request_answers_locally_with_the_count() {
    let config = example_config();
    let registry = StatsRegistry::new();
    registry.increment_proxied();
    registry.increment_proxied();
    match handle(request("/status", None, vec![]), &config, &registry) {
        Outcome::StatusReply { status, body } => {
            assert_eq!(status, 200);
            assert_eq!(body, "proxied: 2");
        }
        _ => panic!("a status request must be answered locally"),
    }
    assert_eq!(registry.snapshot().proxied, 2);
}

#[test]
fn status_request_leaves_the_counter_alone() {
    let config = example_config();
    let mut stats = Stats { proxied: 41 };
    match handle_step(request("/status", None, vec![]), &config, &mut stats) {
        Outcome::StatusReply { status, body } => {
            assert_eq!(status, 200);
            assert_eq!(body, "proxied: 41");
        }
        _ => panic!("a status request must be answered locally"),
    }
    assert_eq!(stats.proxied, 41);
}

#[test]
fn non_status_request_increments_exactly_once() {
    let config = example_config();
    let mut stats = Stats { proxied: 0 };
    let outcome = handle_step(request("/a/b", None, vec![]), &config, &mut stats);
    assert_eq!(stats.proxied, 1);
    assert!(matches!(outcome, Outcome::Forward { .. }));
}

#[test]
fn rejected_request_is_still_counted() {
    let config = example_config();
    let mut stats = Stats { proxied: 0 };
    let outcome = handle_step(request("/a b", None, vec![]), &config, &mut stats);
    assert_eq!(stats.proxied, 1);
    match outcome {
        Outcome::Rejected { error } => assert_eq!(error.target, "https://example.com/a b"),
        _ => panic!("a space cannot appear in a URI, so the rewrite must be rejected"),
    }
}

#[test]
fn hop_headers_are_stripped_and_the_rest_pass_through() {
    let config = example_config();
    let inbound = request(
        "/x",
        None,
        vec![
            ("content-length", "12"),
            ("accept", "text/html"),
            ("transfer-encoding", "chunked"),
            ("accept-encoding", "gzip"),
            ("user-agent", "curl"),
            ("content-encoding", "gzip"),
        ],
    );
    let rewritten = rewrite(inbound, &config).expect("the target must parse");
    let names: Vec<&str> = rewritten.headers.iter().map(|h| h.name.as_str()).collect();
    assert_eq!(names, vec!["accept", "user-agent"]);
    assert_eq!(rewritten.headers[0].value, "text/html");
    assert_eq!(rewritten.headers[1].value, "curl");
}

#[test]
fn rewrite_builds_the_exact_target() {
    let config = example_config();
    let no_query = rewrite(request("/a/b", None, vec![]), &config).expect("must parse");
    assert_eq!(no_query.target, "https://example.com/a/b");
    let with_query = rewrite(request("/a/b", Some("x=1"), vec![]), &config).expect("must parse");
    assert_eq!(with_query.target, "https://example.com/a/b?x=1");
}

#[test]
fn rewrite_keeps_method_and_parses_the_target() {
    let config = example_config();
    let rewritten = rewrite(request("/a/b", Some("x=1"), vec![]), &config).expect("must parse");
    assert_eq!(rewritten.method, "GET");
    // The parsed URI really is the parse of the built target, not an echo of
    // any input: hyper's Uri breaks it back into its parts.
    assert_eq!(rewritten.uri.scheme_str(), Some("https"));
    assert_eq!(rewritten.uri.host(), Some("example.com"));
    assert_eq!(rewritten.uri.path(), "/a/b");
    assert_eq!(rewritten.uri.query(), Some("x=1"));
}

#[test]
fn a_thousand_requests_count_a_thousand() {
    let config = example_config();
    let registry = StatsRegistry::new();
    for i in 0..1000u32 {
        let path = format!("/item/{}", i);
        let outcome = handle(request(&path, None, vec![]), &config, &registry);
        assert!(matches!(outcome, Outcome::Forward { .. }));
    }
    assert_eq!(registry.snapshot().proxied, 1000);
}

#[test]
fn github_scenario_rewrites_and_counts() {
    let config = UpstreamConfig {
        scheme: "https".to_string(),
        host: "github.com".to_string(),
    };
    let registry = StatsRegistry::new();
    assert_eq!(registry.snapshot().proxied, 0);
    let inbound = request("/repo/path", Some("ref=main"), vec![("content-length", "0")]);
    match handle(inbound, &config, &registry) {
        Outcome::Forward { request } => {
            assert_eq!(request.target, "https://github.com/repo/path?ref=main");
            assert!(request.headers.iter().all(|h| h.name != "content-length"));
        }
        _ => panic!("the rewritten target must parse"),
    }
    assert_eq!(registry.snapshot().proxied, 1);
}

#[test]
fn backend_failure_surfaces_and_later_requests_are_unaffected() {
    let config = example_config();
    let registry = StatsRegistry::new();

    // A request is counted, forwarded, and the simulated transport fails.
    let outcome = handle(request("/down", None, vec![]), &config, &registry);
    assert!(matches!(outcome, Outcome::Forward { .. }));
    let failed: Result<&str, ProxyError<String>> =
        conclude(Err("connection refused".to_string()));
    match failed {
        Err(ProxyError::Backend(e)) => assert_eq!(e.cause, "connection refused"),
        _ => panic!("a transport failure must surface as a backend error"),
    }
    assert_eq!(registry.snapshot().proxied, 1);

    // A later, unrelated request proceeds as usual.
    let outcome = handle(request("/up", None, vec![]), &config, &registry);
    assert!(matches!(outcome, Outcome::Forward { .. }));
    assert_eq!(registry.snapshot().proxied, 2);
    let relayed: Result<&str, ProxyError<String>> = conclude(Ok("response"));
    assert_eq!(relayed.ok(), Some("response"));
}

#[test]
fn counter_wraps_at_the_top_of_its_range() {
    let mut stats = Stats {
        proxied: u64::MAX,
    };
    stats.increment();
    assert_eq!(stats.proxied, 0);
}

#[test]
fn status_body_renders_exact_decimals() {
    let zero = forward_proxy::render::render_status(&Stats { proxied: 0 });
    assert_eq!(zero, "proxied: 0");
    let large = forward_proxy::render::render_status(&Stats {
        proxied: 1234567890123,
    });
    assert_eq!(large, "proxied: 1234567890123");
    let top = forward_proxy::render::render_status(&Stats {
        proxied: u64::MAX,
    });
    assert_eq!(top, "proxied: 18446744073709551615");
}
