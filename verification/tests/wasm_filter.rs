use control_plane::wasm_filter::config::{MappingRule, PoliciyConfig, Service};
use control_plane::wasm_filter::jwt::{
    access_granted, JWTConfig, JwtError, Rules, Verdict, JWT,
};
use prost::Message;

fn rule(pattern: &str, method: &str, metric: &str, delta: u32) -> MappingRule {
    MappingRule::new(pattern.to_string(), method.to_string(), metric.to_string(), delta)
}

fn service(rules: Vec<MappingRule>) -> Service {
    Service {
        id: 1,
        hosts: vec!["a.com".to_string()],
        policies: vec![PoliciyConfig { name: "jwt".to_string(), configuration: "{}".to_string() }],
        target_domain: "a.internal".to_string(),
        proxy_rules: rules,
    }
}

#[test]
fn mapping_rule_matches_method_and_path() {
    let r = rule("/headers", "GET", "hits", 1);
    assert!(r.matches("GET".to_string(), "/headers".to_string()));
    assert!(!r.matches("POST".to_string(), "/headers".to_string()));
    assert!(!r.matches("GET".to_string(), "/headers/".to_string()));
    assert!(!r.matches("get".to_string(), "/headers".to_string()));
}

#[test]
fn usage_lists_the_matching_rules_in_order() {
    let s = service(vec![
        rule("/a", "GET", "hits", 1),
        rule("/b", "GET", "other", 5),
        rule("/a", "GET", "reads", 2),
        rule("/a", "POST", "writes", 3),
        rule("/a", "GET", "hits", 7),
    ]);
    let (found, usage) = s.match_mapping_rule("GET".to_string(), "/a".to_string());
    assert!(found);
    assert_eq!(
        usage,
        vec![("hits".to_string(), 1), ("reads".to_string(), 2), ("hits".to_string(), 7)]
    );
}

#[test]
fn no_matching_rule() {
    let s = service(vec![rule("/a", "GET", "hits", 1)]);
    assert_eq!(s.match_mapping_rule("GET".to_string(), "/b".to_string()), (false, Vec::new()));
    assert_eq!(
        service(Vec::new()).match_mapping_rule("GET".to_string(), "/a".to_string()),
        (false, Vec::new())
    );
}

#[test]
fn claim_rule_matches_path_and_value() {
    let r = Rules {
        path: "/headers".to_string(),
        claim: "name".to_string(),
        claim_value: "Jane Smith".to_string(),
        allow: false,
    };
    assert!(r.matches("/headers".to_string(), "Jane Smith"));
    assert!(!r.matches("/other".to_string(), "Jane Smith"));
    assert!(!r.matches("/headers".to_string(), "John Smith"));
}

#[test]
fn built_in_rule() {
    let mut filter = JWT::new(9);
    assert_eq!(filter, JWT { context_id: 9, config: JWTConfig { rules: Vec::new() } });
    filter.config();
    filter.config();
    assert_eq!(filter.context_id, 9);
    assert_eq!(
        filter.config.rules,
        vec![Rules {
            path: "/headers".to_string(),
            claim: "name".to_string(),
            claim_value: "Jane Smith".to_string(),
            allow: false,
        }]
    );
}

fn token() -> Option<Vec<u8>> {
    let mut payload = prost_types::Struct::default();
    payload.fields.insert(
        "name".to_string(),
        prost_types::Value {
            kind: Some(prost_types::value::Kind::StringValue("Jane Smith".to_string())),
        },
    );
    Some(payload.encode_length_delimited_to_vec())
}

fn text(value: &str) -> Option<Vec<u8>> {
    Some(value.as_bytes().to_vec())
}

#[test]
fn token_is_the_payload_where_it_decodes() {
    let filter = JWT::new(1);
    assert_eq!(filter.get_jwt_token(None), Err(JwtError::NoPayload));
    assert_eq!(filter.get_jwt_token(token()), Ok(token().unwrap()));
    assert_eq!(filter.get_jwt_token(Some(vec![0])), Ok(vec![0]));
    assert_eq!(filter.get_jwt_token(Some(vec![5, 1])), Err(JwtError::PayloadUndecodable));
    assert_eq!(filter.get_jwt_token(Some(Vec::new())), Err(JwtError::PayloadUndecodable));
}

#[test]
fn claim_is_the_text_of_its_bytes() {
    let filter = JWT::new(1);
    assert_eq!(filter.get_jwt_claim(None), Err(JwtError::NoPayload));
    assert_eq!(filter.get_jwt_claim(text("Jane Smith")), Ok("Jane Smith".to_string()));
    assert_eq!(filter.get_jwt_claim(text("Jürgen")), Ok("Jürgen".to_string()));
    assert_eq!(filter.get_jwt_claim(Some(Vec::new())), Ok(String::new()));
    assert_eq!(filter.get_jwt_claim(Some(vec![0xff, 0xfe])), Err(JwtError::ClaimNotText));
    assert_eq!(filter.get_jwt_claim(Some(vec![0xc3])), Err(JwtError::ClaimNotText));
}

#[test]
fn request_with_matching_claim_continues() {
    let mut filter = JWT::new(1);
    filter.config();
    let claims = vec![text("Jane Smith")];
    assert_eq!(filter.on_http_request_headers(token(), "/headers", claims), Verdict::Continue);
}

#[test]
fn request_without_token_or_claim_is_forbidden() {
    let mut filter = JWT::new(1);
    filter.config();
    let claims = vec![text("Jane Smith")];
    assert_eq!(
        filter.on_http_request_headers(None, "/headers", claims.clone()),
        Verdict::Forbidden
    );
    assert_eq!(
        filter.on_http_request_headers(Some(vec![9]), "/headers", claims.clone()),
        Verdict::Forbidden
    );
    assert_eq!(filter.on_http_request_headers(token(), "/other", claims), Verdict::Forbidden);
    assert_eq!(filter.on_http_request_headers(token(), "/headers", vec![None]), Verdict::Forbidden);
    assert_eq!(
        filter.on_http_request_headers(token(), "/headers", vec![text("Someone")]),
        Verdict::Forbidden
    );
    assert_eq!(
        filter.on_http_request_headers(token(), "/headers", vec![Some(vec![0xff])]),
        Verdict::Forbidden
    );
    assert_eq!(
        JWT::new(2).on_http_request_headers(token(), "/headers", Vec::new()),
        Verdict::Forbidden
    );
    assert_eq!(filter.on_http_request_headers(token(), "/headers", Vec::new()), Verdict::Forbidden);
    assert_eq!(
        filter.on_http_request_headers(token(), "/headers", vec![text("Jane Smith"), None]),
        Verdict::Continue
    );
}

#[test]
fn any_rule_may_let_the_request_through() {
    let filter = JWT {
        context_id: 3,
        config: JWTConfig {
            rules: vec![
                Rules {
                    path: "/a".to_string(),
                    claim: "name".to_string(),
                    claim_value: "x".to_string(),
                    allow: false,
                },
                Rules {
                    path: "/b".to_string(),
                    claim: "role".to_string(),
                    claim_value: "admin".to_string(),
                    allow: false,
                },
            ],
        },
    };
    let claims = vec![None, text("admin")];
    assert_eq!(filter.on_http_request_headers(token(), "/b", claims.clone()), Verdict::Continue);
    assert_eq!(filter.on_http_request_headers(token(), "/a", claims), Verdict::Forbidden);
}

#[test]
fn backend_answer_grants_on_status_200() {
    let ok = vec![
        ("content-type".to_string(), "text/plain".to_string()),
        (":status".to_string(), "200".to_string()),
    ];
    assert!(access_granted(&ok));
    let denied = vec![(":status".to_string(), "403".to_string())];
    assert!(!access_granted(&denied));
    let other = vec![("status".to_string(), "200".to_string())];
    assert!(!access_granted(&other));
    assert!(!access_granted(&Vec::new()));
}

#[test]
fn policy_is_found_by_its_name() {
    let s = service(Vec::new());
    assert!(s.has_policy("jwt"));
    assert!(!s.has_policy("JWT"));
    assert!(!s.has_policy(""));
    let mut bare = service(Vec::new());
    bare.policies.clear();
    assert!(!bare.has_policy("jwt"));
}
