use trestle::client_api::{Provider, ProviderStatus, Route, ServerStatus};
use trestle::pages::{
    enabled_label, provider_cards, provider_type_icon, provider_type_label, route_model_text,
    should_refresh, shows_no_providers, stat_cards, LogsPage, ProviderCall, ProvidersPage,
    RouteCall, RoutesPage, SettingsCall, SettingsPage, StatValue, StatusPoll,
};

fn provider(name: &str) -> Provider {
    Provider {
        name: name.to_string(),
        provider_type: "openai".to_string(),
        base_url: "https://a".to_string(),
        enabled: true,
    }
}

#[test]
fn routes_page_loads_once() {
    let mut page = RoutesPage::default();
    assert!(page.needs_load());
    page.after_load(
        Ok(vec![Route { pattern: "qwen*".to_string(), provider: "p".to_string(), model: None, priority: 1 }]),
        Ok(vec![provider("p")]),
    );
    page.mark_loaded();
    assert!(page.loaded);
    assert!(!page.needs_load());
    assert_eq!(page.routes.len(), 1);
    page.refresh();
    assert!(page.needs_load());
    assert_eq!(page.routes.len(), 1);
}

#[test]
fn routes_dialogs_keep_delete_confirmation() {
    let mut page = RoutesPage::default();
    page.show_delete_confirm = Some("qwen*".to_string());
    page.open_add_dialog();
    assert_eq!(page.show_delete_confirm.as_deref(), Some("qwen*"));
    let r = Route { pattern: "llama*".to_string(), provider: "p".to_string(), model: None, priority: 3 };
    page.open_edit_dialog(&r);
    assert_eq!(page.show_delete_confirm.as_deref(), Some("qwen*"));
}

#[test]
fn providers_page_loads_once() {
    let mut page = ProvidersPage::default();
    assert!(page.needs_load());
    page.mark_loaded();
    assert!(!page.needs_load());
    page.refresh();
    assert!(page.needs_load());
}

#[test]
fn rename_stops_after_failed_create() {
    let mut page = ProvidersPage::default();
    page.open_edit_dialog(&provider("old"));
    page.form.name = "new".to_string();
    match page.next_save_call(0, &Ok(())) {
        Some(ProviderCall::Create(p)) => assert_eq!(p.name, "new"),
        other => panic!("unexpected {:?}", other),
    }
    assert!(page.next_save_call(1, &Err("boom".to_string())).is_none());
    match page.next_save_call(1, &Ok(())) {
        Some(ProviderCall::Delete(n)) => assert_eq!(n, "old"),
        other => panic!("unexpected {:?}", other),
    }
    assert!(page.next_save_call(2, &Ok(())).is_none());
    page.after_save(Err("boom".to_string()));
    assert_eq!(page.error_message.as_deref(), Some("保存失败: boom"));
}

#[test]
fn settings_save_sequence() {
    let mut page = SettingsPage::default();
    assert!(page.needs_load());
    page.mark_loaded();
    assert!(!page.needs_load());
    page.port = "8080".to_string();
    match page.next_save_call(0, &Ok(())) {
        Some(SettingsCall::UpdateConfig(c)) => assert_eq!(c.server.port, 8080),
        other => panic!("unexpected {:?}", other),
    }
    assert!(page.next_save_call(1, &Err("down".to_string())).is_none());
    assert!(matches!(page.next_save_call(1, &Ok(())), Some(SettingsCall::SaveConfig)));
    assert!(page.next_save_call(2, &Ok(())).is_none());
    page.after_save(Err("down".to_string()));
    assert_eq!(page.save_status.as_deref(), Some("保存失败: down"));
    page.after_save(Ok(()));
    assert_eq!(page.save_status.as_deref(), Some("配置已保存"));
}

#[test]
fn status_refresh_throttle() {
    assert!(should_refresh(None, 0));
    assert!(!should_refresh(Some(1000), 2999));
    assert!(should_refresh(Some(1000), 3000));
    let mut poll = StatusPoll::default();
    assert!(poll.begin_refresh(500));
    assert_eq!(poll.last_update_ms, Some(500));
    assert!(!poll.begin_refresh(1500));
    assert_eq!(poll.last_update_ms, Some(500));
    poll.after_status(Err("refused".to_string()));
    assert!(!poll.connected);
    let status = ServerStatus {
        uptime_secs: 3700,
        total_requests: 1500,
        total_tokens: 2,
        active_connections: 4,
        providers: Vec::new(),
    };
    poll.after_status(Ok(status));
    assert!(poll.connected);
    assert_eq!(poll.status.as_ref().map(|s| s.uptime_secs), Some(3700));
}

#[test]
fn dashboard_cards() {
    let status = ServerStatus {
        uptime_secs: 3700,
        total_requests: 1500,
        total_tokens: 2,
        active_connections: 4,
        providers: Vec::new(),
    };
    let cards = stat_cards(&status);
    let labels: Vec<&str> = cards.iter().map(|c| c.label).collect();
    assert_eq!(labels, vec!["运行时间", "总请求数", "Token 消耗", "活跃连接"]);
    assert!(matches!(&cards[0].value, StatValue::Text(t) if t == "1h 1m"));
    assert!(matches!(cards[1].value, StatValue::Count(1500)));
    assert!(matches!(cards[2].value, StatValue::Count(2)));
    assert!(matches!(&cards[3].value, StatValue::Text(t) if t == "4"));
}

#[test]
fn provider_submit_refused() {
    let mut page = ProvidersPage::default();
    page.open_add_dialog();
    assert!(page.submit().is_none());
    assert_eq!(page.error_message.as_deref(), Some("名称不能为空"));
    assert!(page.dialog_open);
    page.form.name = "p".to_string();
    assert!(page.submit().is_none());
    assert_eq!(page.error_message.as_deref(), Some("Base URL 不能为空"));
    assert!(page.next_save_call(0, &Ok(())).is_none());
    page.form.base_url = "https://a".to_string();
    let calls = page.submit().expect("valid entries");
    assert_eq!(calls.len(), 1);
    assert!(matches!(&calls[0], ProviderCall::Create(p) if p.name == "p"));
    page.cancel_dialog();
    assert!(!page.dialog_open);
    assert!(page.error_message.is_none());
}

#[test]
fn route_submit_refused() {
    let mut page = RoutesPage::default();
    page.open_add_dialog();
    assert!(page.submit().is_none());
    assert_eq!(page.error_message.as_deref(), Some("匹配规则不能为空"));
    page.form.pattern = "qwen*".to_string();
    assert!(page.submit().is_none());
    assert_eq!(page.error_message.as_deref(), Some("请选择服务商"));
    assert!(page.dialog_open);
    page.form.provider = "p".to_string();
    assert!(matches!(page.submit(), Some(RouteCall::Create(r)) if r.pattern == "qwen*"));
}

#[test]
fn delete_confirmation_steps() {
    let mut page = ProvidersPage::default();
    page.request_delete("old".to_string());
    assert_eq!(page.show_delete_confirm.as_deref(), Some("old"));
    page.cancel_delete();
    assert!(page.show_delete_confirm.is_none());
    assert!(page.confirm_delete().is_none());
    page.request_delete("old".to_string());
    assert_eq!(page.confirm_delete().as_deref(), Some("old"));
    assert!(page.show_delete_confirm.is_none());
    let mut routes = RoutesPage::default();
    routes.request_delete("qwen*".to_string());
    assert_eq!(routes.confirm_delete().as_deref(), Some("qwen*"));
    assert!(routes.show_delete_confirm.is_none());
}

#[test]
fn logs_page_loads_once() {
    let mut page = LogsPage::default();
    assert!(page.needs_load());
    page.mark_loaded();
    assert!(!page.needs_load());
    page.refresh();
    assert!(page.needs_load());
}

#[test]
fn provider_badges_and_model_text() {
    assert_eq!(provider_type_icon("openai"), "🤖");
    assert_eq!(provider_type_icon("anthropic"), "🧠");
    assert_eq!(provider_type_icon("openai-compatible"), "🔧");
    assert_eq!(provider_type_label("openai"), "OpenAI");
    assert_eq!(provider_type_label("anthropic"), "Anthropic");
    assert_eq!(provider_type_label("openai-compatible"), "openai-compatible");
    assert_eq!(enabled_label(true), "已启用");
    assert_eq!(enabled_label(false), "已禁用");
    let mut r = Route { pattern: "a".to_string(), provider: "p".to_string(), model: None, priority: 1 };
    assert_eq!(route_model_text(&r), "(原样)");
    r.model = Some("qwen-{model}".to_string());
    assert_eq!(route_model_text(&r), "qwen-{model}");
}

#[test]
fn dashboard_provider_cards() {
    let mut status = ServerStatus {
        uptime_secs: 1,
        total_requests: 0,
        total_tokens: 0,
        active_connections: 0,
        providers: Vec::new(),
    };
    assert!(shows_no_providers(&status));
    assert!(provider_cards(&status).is_empty());
    status.providers = vec![
        ProviderStatus { name: "a".to_string(), healthy: true, latency_ms: Some(42), last_check: None },
        ProviderStatus { name: "b".to_string(), healthy: false, latency_ms: None, last_check: None },
    ];
    assert!(!shows_no_providers(&status));
    let cards = provider_cards(&status);
    assert_eq!(cards.len(), 2);
    assert_eq!(cards[0].name, "a");
    assert_eq!(cards[0].badge, "正常");
    assert_eq!(cards[0].latency.as_deref(), Some("42ms"));
    assert_eq!(cards[1].name, "b");
    assert_eq!(cards[1].badge, "异常");
    assert!(cards[1].latency.is_none());
}
