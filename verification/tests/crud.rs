use trestle::crud::{
    create_provider, create_route, delete_provider, delete_route, sort_routes_by_priority,
    update_provider, update_route, ApiResponse,
};
use trestle::model::{Provider, Route};

fn provider(name: &str, url: &str) -> Provider {
    Provider {
        name: name.to_string(),
        provider_type: "openai".to_string(),
        base_url: url.to_string(),
        api_key: None,
        enabled: true,
    }
}

fn route(pattern: &str, provider: &str, priority: u32) -> Route {
    Route {
        pattern: pattern.to_string(),
        provider: provider.to_string(),
        model: None,
        priority,
    }
}

fn patterns(routes: &[Route]) -> Vec<String> {
    routes.iter().map(|r| r.pattern.clone()).collect()
}

#[test]
fn create_provider_appends() {
    let mut ps = vec![provider("a", "u1")];
    let (code, body) = create_provider(&mut ps, provider("b", "u2"));
    assert_eq!(code, 201);
    match body {
        ApiResponse::Data(p) => assert_eq!(p.name, "b"),
        _ => panic!("expected data"),
    }
    assert_eq!(ps.len(), 2);
    assert_eq!(ps[1].name, "b");
}

#[test]
fn create_provider_refuses_taken_name() {
    let mut ps = vec![provider("a", "u1")];
    let (code, body) = create_provider(&mut ps, provider("a", "other"));
    assert_eq!(code, 409);
    match body {
        ApiResponse::Error { error } => assert_eq!(error, "Provider already exists"),
        _ => panic!("expected an error"),
    }
    assert_eq!(ps.len(), 1);
    assert_eq!(ps[0].base_url, "u1");
}

#[test]
fn update_provider_keeps_the_name() {
    let mut ps = vec![provider("a", "u1"), provider("b", "u2")];
    let (code, body) = update_provider(&mut ps, "b".to_string(), provider("renamed", "u3"));
    assert_eq!(code, 200);
    match body {
        ApiResponse::Data(p) => {
            assert_eq!(p.name, "b");
            assert_eq!(p.base_url, "u3");
        }
        _ => panic!("expected data"),
    }
    assert_eq!(ps[1].name, "b");
    assert_eq!(ps[1].base_url, "u3");
    assert_eq!(ps[0].base_url, "u1");
}

#[test]
fn update_missing_provider_is_not_found() {
    let mut ps = vec![provider("a", "u1")];
    let (code, body) = update_provider(&mut ps, "zz".to_string(), provider("zz", "u"));
    assert_eq!(code, 404);
    match body {
        ApiResponse::Error { error } => assert_eq!(error, "Provider 'zz' not found"),
        _ => panic!("expected an error"),
    }
    assert_eq!(ps.len(), 1);
}

#[test]
fn delete_provider_removes_every_entry_of_the_name() {
    let mut ps = vec![provider("a", "1"), provider("b", "2"), provider("a", "3")];
    let (code, body) = delete_provider(&mut ps, "a");
    assert_eq!(code, 200);
    match body {
        ApiResponse::Success { success, message } => {
            assert!(success);
            assert!(message.is_none());
        }
        _ => panic!("expected success"),
    }
    assert_eq!(ps.len(), 1);
    assert_eq!(ps[0].name, "b");
}

#[test]
fn delete_missing_provider_is_not_found() {
    let mut ps = vec![provider("a", "1")];
    let (code, body) = delete_provider(&mut ps, "b");
    assert_eq!(code, 404);
    match body {
        ApiResponse::Error { error } => assert_eq!(error, "Provider 'b' not found"),
        _ => panic!("expected an error"),
    }
    assert_eq!(ps.len(), 1);
}

#[test]
fn delete_undoes_create_on_a_concrete_list() {
    let mut ps = vec![provider("a", "1"), provider("b", "2")];
    create_provider(&mut ps, provider("c", "3"));
    delete_provider(&mut ps, "c");
    assert_eq!(ps.len(), 2);
    assert_eq!(ps[0].name, "a");
    assert_eq!(ps[1].name, "b");
}

#[test]
fn sorting_is_stable() {
    let mut rs = vec![
        route("x", "p", 5),
        route("y", "p", 1),
        route("z", "p", 5),
        route("w", "p", 1),
        route("v", "p", 3),
    ];
    sort_routes_by_priority(&mut rs);
    assert_eq!(patterns(&rs), vec!["y", "w", "v", "x", "z"]);
}

#[test]
fn create_route_orders_by_priority() {
    let mut rs = vec![route("*", "p", 99), route("a*", "p", 1)];
    let (code, body) = create_route(&mut rs, route("b*", "p", 1));
    assert_eq!(code, 201);
    match body {
        ApiResponse::Data(r) => assert_eq!(r.pattern, "b*"),
        _ => panic!("expected data"),
    }
    assert_eq!(patterns(&rs), vec!["a*", "b*", "*"]);
}

#[test]
fn update_route_keeps_pattern_and_reorders() {
    let mut rs = vec![route("a*", "p", 1), route("b*", "p", 2), route("*", "p", 99)];
    let (code, body) = update_route(&mut rs, "*".to_string(), route("ignored", "q", 0));
    assert_eq!(code, 200);
    match body {
        ApiResponse::Data(r) => {
            assert_eq!(r.pattern, "*");
            assert_eq!(r.provider, "q");
        }
        _ => panic!("expected data"),
    }
    assert_eq!(patterns(&rs), vec!["*", "a*", "b*"]);
    assert_eq!(rs[0].provider, "q");
}

#[test]
fn update_missing_route_is_not_found_and_does_not_reorder() {
    let mut rs = vec![route("b*", "p", 9), route("a*", "p", 1)];
    let (code, body) = update_route(&mut rs, "zz".to_string(), route("zz", "p", 0));
    assert_eq!(code, 404);
    match body {
        ApiResponse::Error { error } => assert_eq!(error, "Route 'zz' not found"),
        _ => panic!("expected an error"),
    }
    assert_eq!(patterns(&rs), vec!["b*", "a*"]);
}

#[test]
fn delete_route_removes_every_rule_of_the_pattern() {
    let mut rs = vec![route("a*", "p", 1), route("*", "p", 2), route("a*", "q", 3)];
    let (code, _) = delete_route(&mut rs, "a*");
    assert_eq!(code, 200);
    assert_eq!(patterns(&rs), vec!["*"]);
    let (code, body) = delete_route(&mut rs, "a*");
    assert_eq!(code, 404);
    match body {
        ApiResponse::Error { error } => assert_eq!(error, "Route 'a*' not found"),
        _ => panic!("expected an error"),
    }
}
