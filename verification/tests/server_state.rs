use trestle::config::Config;
use trestle::model::{ChatCompletionResponse, Provider, Route, Usage};
use trestle::state::{
    import_settings, provider_statuses, HealthCache, HealthInfo, ServerCounters, Settings,
};
use trestle::upstream::{
    bearer_header, chat_completions_url, completion_log, completion_tokens, enabled_providers,
    is_reachable_status, models_url, probe_status, provider_models, trim_slashes,
};

fn provider(name: &str, enabled: bool) -> Provider {
    Provider {
        name: name.to_string(),
        provider_type: "openai".to_string(),
        base_url: "http://x".to_string(),
        api_key: None,
        enabled,
    }
}

#[test]
fn counters_count_and_wrap() {
    let mut c = ServerCounters::new();
    c.inc_requests();
    c.inc_requests();
    c.add_tokens(40);
    assert_eq!(c.total_requests, 2);
    assert_eq!(c.total_tokens, 40);
    c.total_requests = u64::MAX;
    c.inc_requests();
    assert_eq!(c.total_requests, 0);
    c.add_tokens(u64::MAX);
    assert_eq!(c.total_tokens, 39);
}

#[test]
fn health_cache_reads_back_writes() {
    let mut cache = HealthCache::new();
    assert!(cache.get("a").is_none());
    cache.update(
        "a".to_string(),
        HealthInfo { healthy: false, latency_ms: None, last_check: Some("t1".to_string()) },
    );
    cache.update(
        "b".to_string(),
        HealthInfo { healthy: true, latency_ms: Some(12), last_check: Some("t2".to_string()) },
    );
    cache.update(
        "a".to_string(),
        HealthInfo { healthy: true, latency_ms: Some(5), last_check: Some("t3".to_string()) },
    );
    let a = cache.get("a").unwrap();
    assert!(a.healthy);
    assert_eq!(a.latency_ms, Some(5));
    assert_eq!(a.last_check.as_deref(), Some("t3"));
    assert_eq!(cache.get("b").unwrap().latency_ms, Some(12));
}

#[test]
fn never_probed_providers_are_healthy() {
    let mut cache = HealthCache::new();
    cache.update(
        "down".to_string(),
        HealthInfo { healthy: false, latency_ms: None, last_check: Some("t".to_string()) },
    );
    let ps = vec![provider("up", true), provider("down", true)];
    let st = provider_statuses(&ps, &cache);
    assert_eq!(st.len(), 2);
    assert_eq!(st[0].name, "up");
    assert!(st[0].healthy);
    assert!(st[0].latency_ms.is_none());
    assert!(st[0].last_check.is_none());
    assert_eq!(st[1].name, "down");
    assert!(!st[1].healthy);
    assert_eq!(st[1].last_check.as_deref(), Some("t"));
}

#[test]
fn import_applies_present_parts() {
    let mut s = Settings {
        config: Config::default(),
        providers: vec![provider("old", true)],
        routes: Vec::new(),
    };
    let r = import_settings(&mut s, None, Some(vec![provider("new", false)]), Some(Vec::new()));
    assert_eq!(r.unwrap(), vec!["providers", "routes"]);
    assert_eq!(s.providers.len(), 1);
    assert_eq!(s.providers[0].name, "new");
    let mut cfg = Config::default();
    cfg.server.port = 9;
    let r = import_settings(&mut s, Some(cfg), None, None);
    assert_eq!(r.unwrap(), vec!["config"]);
    assert_eq!(s.config.server.port, 9);
    assert_eq!(s.providers[0].name, "new");
}

#[test]
fn import_without_parts_fails() {
    let mut s = Settings { config: Config::default(), providers: Vec::new(), routes: vec![Route {
        pattern: "*".to_string(),
        provider: "p".to_string(),
        model: None,
        priority: 1,
    }] };
    let r = import_settings(&mut s, None, None, None);
    assert_eq!(r.unwrap_err(), "No valid configuration found in import data");
    assert_eq!(s.routes.len(), 1);
}

#[test]
fn upstream_addresses() {
    assert_eq!(models_url("https://api.example.com/v1/"), "https://api.example.com/v1/models");
    assert_eq!(models_url("https://api.example.com/v1//"), "https://api.example.com/v1/models");
    assert_eq!(models_url("http://h"), "http://h/models");
    assert_eq!(trim_slashes("///"), "");
    assert_eq!(chat_completions_url("http://h/v1/"), "http://h/v1//chat/completions");
    assert_eq!(bearer_header(&Some("sk-1".to_string())), "Bearer sk-1");
    assert_eq!(bearer_header(&None), "Bearer ");
}

#[test]
fn probe_statuses() {
    assert!(is_reachable_status(200));
    assert!(is_reachable_status(204));
    assert!(is_reachable_status(401));
    assert!(!is_reachable_status(403));
    assert!(!is_reachable_status(500));
    assert!(!is_reachable_status(302));
    let ok = probe_status("p", true, 35, "2024-01-01T00:00:00Z");
    assert_eq!(ok.latency_ms, Some(35));
    assert_eq!(ok.last_check.as_deref(), Some("2024-01-01T00:00:00Z"));
    let down = probe_status("p", false, 35, "t");
    assert_eq!(down.latency_ms, None);
    assert!(!down.healthy);
}

#[test]
fn only_enabled_providers_are_asked() {
    let ps = vec![provider("a", true), provider("b", false), provider("c", true)];
    let e = enabled_providers(&ps);
    assert_eq!(e.iter().map(|p| p.name.clone()).collect::<Vec<_>>(), vec!["a", "c"]);
}

#[test]
fn model_entries() {
    let ms = provider_models("prov", &vec!["m1".to_string(), "m2".to_string()], 1700);
    assert_eq!(ms.len(), 2);
    assert_eq!(ms[1].id, "m2");
    assert_eq!(ms[1].object, "model");
    assert_eq!(ms[1].created, 1700);
    assert_eq!(ms[1].owned_by, "prov");
}

#[test]
fn completion_accounting() {
    let mut resp = ChatCompletionResponse {
        id: "i".to_string(),
        model: "m".to_string(),
        choices: Vec::new(),
        usage: Some(Usage { prompt_tokens: 2, completion_tokens: 3, total_tokens: 5 }),
    };
    assert_eq!(completion_tokens(&resp), 5);
    let log = completion_log(
        "id1".to_string(),
        "ts".to_string(),
        "/v1/messages",
        "m".to_string(),
        42,
        &resp.usage,
    );
    assert_eq!(log.method, "POST");
    assert_eq!(log.path, "/v1/messages");
    assert_eq!(log.status, 200);
    assert_eq!(log.latency_ms, 42);
    assert_eq!(log.prompt_tokens, Some(2));
    assert_eq!(log.completion_tokens, Some(3));
    resp.usage = None;
    assert_eq!(completion_tokens(&resp), 0);
}
