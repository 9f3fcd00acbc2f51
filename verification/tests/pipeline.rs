use gateway::auth::AuthOutcome;
use gateway::auth::AuthPayload;
use gateway::config::Config;
use gateway::config::Service;
use gateway::pipeline::begin;
use gateway::pipeline::after_auth;
use gateway::pipeline::upstream_response;
use gateway::pipeline::BodyMode;
use gateway::pipeline::RequestFacts;
use gateway::pipeline::Step;
use gateway::pipeline::UpstreamOutcome;
use gateway::table::Gateway;

fn service(pattern: &str, upstreams: &[&str]) -> Service {
    Service {
        url_match: pattern.to_string(),
        tls_cert: None,
        upstreams: upstreams.iter().map(|u| u.to_string()).collect(),
    }
}

fn make_gateway(
    services: Vec<(String, Service)>,
    is_intermediate: bool,
    auth_servers: Option<Vec<String>>,
) -> Gateway {
    let config = Config {
        host: "127.0.0.1".to_string(),
        port: 8080,
        workers: None,
        is_intermediate,
        log_level: None,
        tls: None,
        auth_servers,
        services,
    };
    match Gateway::new(config) {
        Ok(g) => g,
        Err(_) => panic!("gateway construction failed"),
    }
}

fn blog_gateway() -> Gateway {
    make_gateway(
        vec![(
            "Blog".to_string(),
            service("(test|stage)\\.example\\.com/api/blog/.*", &["http://blog:8080"]),
        )],
        false,
        None,
    )
}

fn blog_request() -> RequestFacts {
    RequestFacts {
        host: "test.example.com".to_string(),
        path: "/api/blog/posts".to_string(),
        query: "x=1".to_string(),
        session_token: None,
        user_agent: None,
        realip: Some("7.7.7.7".to_string()),
        peer_addr: Some("10.0.0.1:4711".to_string()),
    }
}

#[test]
fn scenario_blog_is_forwarded() {
    let gw = blog_gateway();
    let step = begin(&gw, &blog_request());
    match step {
        Step::Send(ob) => {
            assert_eq!(ob.url, "http://blog:8080/api/blog/posts?x=1");
            assert_eq!(ob.forwarded, "for=10.0.0.1:4711");
            assert!(ob.payload_header.is_none());
        },
        _ => panic!("expected the request to be forwarded"),
    }
}

#[test]
fn unmatched_host_is_404() {
    let gw = blog_gateway();
    let mut req = blog_request();
    req.host = "unknown.example.com".to_string();
    match begin(&gw, &req) {
        Step::Respond(d) => {
            assert_eq!(d.status, 404);
            assert!(d.headers.is_empty());
            match d.body {
                BodyMode::Text(t) => assert_eq!(t, "Service not found"),
                _ => panic!("expected a text body"),
            }
        },
        _ => panic!("expected a response"),
    }
}

#[test]
fn query_string_is_not_part_of_the_matched_text() {
    // the pattern matches only a query-bearing text; the matched string is
    // host + query-free path, so the request must answer 404
    let gw = make_gateway(
        vec![(
            "Blog".to_string(),
            service("test\\.example\\.com/api/blog/posts\\?x=1", &["http://blog:8080"]),
        )],
        false,
        None,
    );
    match begin(&gw, &blog_request()) {
        Step::Respond(d) => {
            assert_eq!(d.status, 404);
            match d.body {
                BodyMode::Text(t) => assert_eq!(t, "Service not found"),
                _ => panic!("expected a text body"),
            }
        },
        _ => panic!("a pattern matching only the query must not route"),
    }
}

#[test]
fn base_path_prefix_survives_the_join() {
    let gw = make_gateway(
        vec![(
            "Blog".to_string(),
            service("(test|stage)\\.example\\.com/api/blog/.*", &["http://up:9/prefix"]),
        )],
        false,
        None,
    );
    match begin(&gw, &blog_request()) {
        Step::Send(ob) => assert_eq!(ob.url, "http://up:9/prefix/api/blog/posts?x=1"),
        _ => panic!("expected the request to be forwarded"),
    }
}

#[test]
fn unjoinable_upstream_base_is_500_for_the_request_alone() {
    let gw = make_gateway(
        vec![(
            "Blog".to_string(),
            service("(test|stage)\\.example\\.com/api/blog/.*", &["not a base url"]),
        )],
        false,
        None,
    );
    match begin(&gw, &blog_request()) {
        Step::Respond(d) => {
            assert_eq!(d.status, 500);
            match d.body {
                BodyMode::Text(t) => assert_eq!(t, "Invalid upstream URL"),
                _ => panic!("expected a text body"),
            }
        },
        _ => panic!("an unjoinable base must answer this request, not forward"),
    }
}

#[test]
fn first_declared_service_wins() {
    let gw = make_gateway(
        vec![
            ("First".to_string(), service("example\\.com/api/.*", &["http://first:1"])),
            ("Second".to_string(), service("example\\.com/api/blog/.*", &["http://second:1"])),
        ],
        false,
        None,
    );
    let mut req = blog_request();
    req.host = "example.com".to_string();
    match begin(&gw, &req) {
        Step::Send(ob) => assert!(ob.url.starts_with("http://first:1")),
        _ => panic!("expected the request to be forwarded"),
    }
}

#[test]
fn missing_peer_address_is_400_before_any_upstream() {
    let gw = blog_gateway();
    let mut req = blog_request();
    req.peer_addr = None;
    match begin(&gw, &req) {
        Step::Respond(d) => {
            assert_eq!(d.status, 400);
            match d.body {
                BodyMode::Text(t) => assert_eq!(t, "Failed to get remote address"),
                _ => panic!("expected a text body"),
            }
        },
        _ => panic!("a request without a client identity must not reach an upstream"),
    }
}

#[test]
fn intermediate_mode_uses_proxy_chain_address() {
    let gw = make_gateway(
        vec![(
            "Blog".to_string(),
            service("(test|stage)\\.example\\.com/api/blog/.*", &["http://blog:8080"]),
        )],
        true,
        None,
    );
    match begin(&gw, &blog_request()) {
        Step::Send(ob) => assert_eq!(ob.forwarded, "for=7.7.7.7"),
        _ => panic!("expected the request to be forwarded"),
    }
}

#[test]
fn intermediate_mode_without_chain_address_is_400() {
    let gw = make_gateway(
        vec![(
            "Blog".to_string(),
            service("(test|stage)\\.example\\.com/api/blog/.*", &["http://blog:8080"]),
        )],
        true,
        None,
    );
    let mut req = blog_request();
    req.realip = None;
    match begin(&gw, &req) {
        Step::Respond(d) => assert_eq!(d.status, 400),
        _ => panic!("expected a response"),
    }
}

#[test]
fn session_cookie_with_backend_asks_for_auth() {
    let gw = make_gateway(
        vec![(
            "Blog".to_string(),
            service("(test|stage)\\.example\\.com/api/blog/.*", &["http://blog:8080"]),
        )],
        false,
        Some(vec!["http://auth:50051".to_string()]),
    );
    let mut req = blog_request();
    req.session_token = Some("tok-1".to_string());
    match begin(&gw, &req) {
        Step::Authenticate { backend, ctx, task } => {
            assert_eq!(backend, 0);
            assert_eq!(ctx.session_token, "tok-1");
            assert_eq!(ctx.user_agent, "Unknown");
            assert_eq!(ctx.client_ip, "10.0.0.1:4711");
            assert_eq!(task.service, 0);
            assert_eq!(task.client_ip, "10.0.0.1:4711");
        },
        _ => panic!("expected the auth step"),
    }
}

#[test]
fn session_cookie_without_backend_skips_auth() {
    let gw = blog_gateway();
    let mut req = blog_request();
    req.session_token = Some("tok-1".to_string());
    req.user_agent = Some("curl/8".to_string());
    match begin(&gw, &req) {
        Step::Send(_) => {},
        _ => panic!("without a backend the auth step must be skipped"),
    }
}

#[test]
fn unauthenticated_is_401_and_no_upstream_request() {
    let gw = make_gateway(
        vec![(
            "Blog".to_string(),
            service("(test|stage)\\.example\\.com/api/blog/.*", &["http://blog:8080"]),
        )],
        false,
        Some(vec!["http://auth:50051".to_string()]),
    );
    let mut req = blog_request();
    req.session_token = Some("tok-1".to_string());
    let task = match begin(&gw, &req) {
        Step::Authenticate { task, .. } => task,
        _ => panic!("expected the auth step"),
    };
    match after_auth(&gw, task, AuthOutcome::Unauthenticated("no session".to_string()), &req) {
        Step::Respond(d) => {
            assert_eq!(d.status, 401);
            assert_eq!(
                d.headers,
                vec![("content-type".to_string(), "application/json".to_string())]
            );
            match d.body {
                BodyMode::Text(t) => assert_eq!(t, "no session"),
                _ => panic!("expected a text body"),
            }
        },
        _ => panic!("a rejected session must never reach an upstream"),
    }
}

#[test]
fn auth_transport_failure_is_500_with_json_body() {
    let gw = blog_gateway();
    let req = blog_request();
    let task = gateway::pipeline::ForwardTask { service: 0, client_ip: "10.0.0.1:4711".to_string() };
    match after_auth(&gw, task, AuthOutcome::Failed("deadline \"exceeded\"".to_string()), &req) {
        Step::Respond(d) => {
            assert_eq!(d.status, 500);
            match d.body {
                BodyMode::Text(t) => {
                    let expected = serde_json::to_string("deadline \"exceeded\"").unwrap();
                    assert_eq!(t, expected);
                },
                _ => panic!("expected a text body"),
            }
        },
        _ => panic!("a failed auth call must never reach an upstream"),
    }
}

#[test]
fn granted_auth_injects_matching_payload_header() {
    let gw = blog_gateway();
    let req = blog_request();
    let task = gateway::pipeline::ForwardTask { service: 0, client_ip: "10.0.0.1:4711".to_string() };
    let payload = AuthPayload {
        session_id: "sess-9".to_string(),
        user_id: "user-3".to_string(),
        user_state: "active".to_string(),
        permissions: vec![
            ("admin".to_string(), vec!["perm.read".to_string(), "perm.write".to_string()]),
            ("editor".to_string(), vec!["perm.edit".to_string()]),
        ],
    };
    match after_auth(&gw, task, AuthOutcome::Granted(payload), &req) {
        Step::Send(ob) => {
            let (name, value) = ob.payload_header.expect("the payload header must be set");
            assert_eq!(name, "payload");
            assert_eq!(
                value,
                "{\"session_id\":\"sess-9\",\"user_id\":\"user-3\",\"user_state\":\"active\",\
                 \"permissions\":{\"admin\":[\"perm.read\",\"perm.write\"],\"editor\":[\"perm.edit\"]}}"
            );
            let parsed: serde_json::Value = serde_json::from_str(&value).unwrap();
            assert_eq!(parsed["session_id"], serde_json::Value::String("sess-9".to_string()));
            assert_eq!(parsed["user_id"], serde_json::Value::String("user-3".to_string()));
            assert_eq!(parsed["user_state"], serde_json::Value::String("active".to_string()));
            assert_eq!(
                parsed["permissions"]["admin"][1],
                serde_json::Value::String("perm.write".to_string())
            );
            assert_eq!(
                parsed["permissions"]["editor"][0],
                serde_json::Value::String("perm.edit".to_string())
            );
        },
        _ => panic!("a granted session must be forwarded"),
    }
}

#[test]
fn both_upstreams_are_selected_over_many_requests() {
    let gw = make_gateway(
        vec![(
            "Blog".to_string(),
            service(
                "(test|stage)\\.example\\.com/api/blog/.*",
                &["http://a:1", "http://b:1"],
            ),
        )],
        false,
        None,
    );
    let req = blog_request();
    let mut saw_a = false;
    let mut saw_b = false;
    for _ in 0..500 {
        match begin(&gw, &req) {
            Step::Send(ob) => {
                if ob.url.starts_with("http://a:1") {
                    saw_a = true;
                }
                if ob.url.starts_with("http://b:1") {
                    saw_b = true;
                }
            },
            _ => panic!("expected the request to be forwarded"),
        }
    }
    assert!(saw_a && saw_b, "uniform random selection must reach every upstream");
}

#[test]
fn upstream_204_relays_204_with_empty_body() {
    let d = upstream_response(UpstreamOutcome::Reply { status: 204, headers: Vec::new() });
    assert_eq!(d.status, 204);
    assert!(matches!(d.body, BodyMode::Empty));
}

#[test]
fn upstream_timeout_is_504_with_empty_body() {
    let d = upstream_response(UpstreamOutcome::Timeout);
    assert_eq!(d.status, 504);
    assert!(d.headers.is_empty());
    assert!(matches!(d.body, BodyMode::Empty));
}

#[test]
fn upstream_transport_failure_is_502_with_detail() {
    let d = upstream_response(UpstreamOutcome::Transport("connection refused".to_string()));
    assert_eq!(d.status, 502);
    match d.body {
        BodyMode::Text(t) => assert_eq!(t, "connection refused"),
        _ => panic!("expected a text body"),
    }
}

#[test]
fn connection_header_is_dropped_others_relayed_in_order() {
    let d = upstream_response(UpstreamOutcome::Reply {
        status: 200,
        headers: vec![
            ("x-a".to_string(), "1".to_string()),
            ("connection".to_string(), "close".to_string()),
            ("x-b".to_string(), "2".to_string()),
        ],
    });
    assert_eq!(d.status, 200);
    assert_eq!(
        d.headers,
        vec![("x-a".to_string(), "1".to_string()), ("x-b".to_string(), "2".to_string())]
    );
    assert!(matches!(d.body, BodyMode::RelayStream));
}
