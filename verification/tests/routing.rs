use trestle::error::TrestleError;
use trestle::model::{Provider, Route};
use trestle::routing::{choose_route, expand_model_template, match_route, matches_pattern};

fn provider(name: &str, enabled: bool) -> Provider {
    Provider {
        name: name.to_string(),
        provider_type: "openai".to_string(),
        base_url: format!("https://{}.example/v1", name),
        api_key: Some(format!("key-{}", name)),
        enabled,
    }
}

fn route(pattern: &str, provider: &str, model: Option<&str>, priority: u32) -> Route {
    Route {
        pattern: pattern.to_string(),
        provider: provider.to_string(),
        model: model.map(|m| m.to_string()),
        priority,
    }
}

#[test]
fn star_matches_everything() {
    assert!(matches_pattern("*", "qwen-2o"));
    assert!(matches_pattern("*", ""));
}

#[test]
fn prefix_patterns() {
    assert!(matches_pattern("qwen-2*", "qwen-2o"));
    assert!(matches_pattern("qwen-2*", "qwen-2"));
    assert!(!matches_pattern("qwen-2*", "qwen-1.5-chat"));
    assert!(matches_pattern("llama-*", "llama-3-70b"));
}

#[test]
fn suffix_patterns() {
    assert!(matches_pattern("*-mini", "qwen-2o-mini"));
    assert!(!matches_pattern("*-mini", "qwen-2o"));
}

#[test]
fn exact_patterns() {
    assert!(matches_pattern("qwen-2o", "qwen-2o"));
    assert!(!matches_pattern("qwen-2o", "qwen-2o-mini"));
    assert!(!matches_pattern("", "x"));
    assert!(matches_pattern("", ""));
}

#[test]
fn lowest_priority_number_wins() {
    let routes = vec![
        route("*", "fallback", None, 99),
        route("qwen-2*", "openai", Some("qwen-2-turbo"), 1),
        route("qwen-*", "other", None, 5),
    ];
    assert_eq!(choose_route(&routes, "qwen-2o"), Some(1));
    assert_eq!(choose_route(&routes, "qwen-1.5"), Some(2));
    assert_eq!(choose_route(&routes, "llama"), Some(0));
    assert_eq!(choose_route(&Vec::new(), "llama"), None);
}

#[test]
fn earliest_rule_wins_among_equal_priorities() {
    let routes = vec![
        route("qwen-*", "a", None, 3),
        route("qwen-2*", "b", None, 3),
    ];
    assert_eq!(choose_route(&routes, "qwen-2o"), Some(0));
}

#[test]
fn template_replaces_every_placeholder() {
    assert_eq!(expand_model_template(&Some("x-${model}".to_string()), "m"), "x-m");
    assert_eq!(
        expand_model_template(&Some("${model}/${model}".to_string()), "a"),
        "a/a"
    );
    assert_eq!(expand_model_template(&Some("qwen-2o".to_string()), "m"), "qwen-2o");
    assert_eq!(expand_model_template(&None, "qwen-2o"), "qwen-2o");
    assert_eq!(expand_model_template(&Some("${mod".to_string()), "m"), "${mod");
}

#[test]
fn routes_to_the_provider_of_the_chosen_rule() {
    let providers = vec![provider("openai", true), provider("anthropic", true)];
    let routes = vec![
        route("qwen-2*", "openai", Some("qwen-2-turbo"), 1),
        route("llama-*", "anthropic", Some("llama-3-70b-20240601"), 1),
        route("*", "openai", Some("qwen-2o"), 99),
    ];
    let (p, m) = match_route(&routes, &providers, "llama-3").unwrap();
    assert_eq!(p.name, "anthropic");
    assert_eq!(m, "llama-3-70b-20240601");
    let (p, m) = match_route(&routes, &providers, "llama").unwrap();
    assert_eq!(p.name, "openai");
    assert_eq!(m, "qwen-2o");
}

#[test]
fn disabled_rule_provider_falls_back_to_first_enabled() {
    let providers = vec![
        provider("off", false),
        provider("first", true),
        provider("second", true),
    ];
    let routes = vec![route("*", "off", Some("renamed"), 1)];
    let (p, m) = match_route(&routes, &providers, "qwen-2o").unwrap();
    assert_eq!(p.name, "first");
    assert_eq!(m, "qwen-2o");
}

#[test]
fn no_rule_uses_first_enabled_provider() {
    let providers = vec![provider("a", false), provider("b", true)];
    let (p, m) = match_route(&Vec::new(), &providers, "x").unwrap();
    assert_eq!(p.name, "b");
    assert_eq!(p.api_key.as_deref(), Some("key-b"));
    assert_eq!(m, "x");
}

#[test]
fn no_providers_is_an_error() {
    match match_route(&vec![route("*", "a", None, 1)], &Vec::new(), "x") {
        Err(TrestleError::Route(msg)) => assert_eq!(msg, "No providers configured"),
        _ => panic!("expected a route error"),
    }
}

#[test]
fn no_enabled_provider_is_an_error() {
    let providers = vec![provider("a", false)];
    match match_route(&Vec::new(), &providers, "x") {
        Err(e) => {
            assert_eq!(e.message(), "路由错误: No enabled providers");
        }
        _ => panic!("expected a route error"),
    }
}
