use trestle::client_api::{endpoint_url, provider_path, route_path, Provider, RequestLog, Route};
use trestle::config::{Config, ServerConfig, UiConfig};
use trestle::desktop::{logs_url, provider_url, route_url};
use trestle::pages::{
    format_duration, health_label, is_success_row, DashboardPage, LogsPage, Page, ProviderCall,
    ProvidersPage, RouteCall, RoutesPage, SettingsPage,
};

fn client_provider(name: &str) -> Provider {
    Provider {
        name: name.to_string(),
        provider_type: "anthropic".to_string(),
        base_url: "https://b".to_string(),
        enabled: false,
    }
}

#[test]
fn management_paths() {
    assert_eq!(provider_path("openai"), "/api/providers/openai");
    assert_eq!(route_path("qwen-2*"), "/api/routes/qwen-2%2A");
    assert_eq!(route_path("a b/c"), "/api/routes/a%20b%2Fc");
    assert_eq!(route_path("é"), "/api/routes/%C3%A9");
    assert_eq!(endpoint_url("http://127.0.0.1:31415", "/api/status"), "http://127.0.0.1:31415/api/status");
    assert_eq!(logs_url(None), "http://127.0.0.1:31415/api/logs?limit=100");
    assert_eq!(logs_url(Some(5)), "http://127.0.0.1:31415/api/logs?limit=5");
    assert_eq!(provider_url("id1"), "http://127.0.0.1:31415/api/providers/id1");
    assert_eq!(route_url("r1"), "http://127.0.0.1:31415/api/routes/r1");
}

#[test]
fn durations() {
    assert_eq!(format_duration(0), "0s");
    assert_eq!(format_duration(59), "59s");
    assert_eq!(format_duration(60), "1m");
    assert_eq!(format_duration(3599), "59m");
    assert_eq!(format_duration(3600), "1h 0m");
    assert_eq!(format_duration(3661), "1h 1m");
    assert_eq!(format_duration(86399), "23h 59m");
    assert_eq!(format_duration(86400), "1d");
    assert_eq!(format_duration(200000), "2d");
}

#[test]
fn page_texts() {
    assert!(Page::default() == Page::Dashboard);
    assert_eq!(Page::Dashboard.title(), "仪表盘");
    assert_eq!(Page::Routes.title(), "路由规则");
    assert_eq!(Page::Settings.icon(), "⚙");
    assert_eq!(Page::Logs.description(), "查看请求历史记录");
    assert_eq!(health_label(true), "正常");
    assert_eq!(health_label(false), "异常");
    let _ = DashboardPage::default();
}

#[test]
fn provider_dialog() {
    let mut page = ProvidersPage::default();
    page.open_add_dialog();
    assert!(page.dialog_open);
    assert_eq!(page.form.provider_type, "openai");
    assert!(page.form.enabled);
    assert_eq!(page.validate_form(), Some("名称不能为空"));
    page.form.name = "n".to_string();
    assert_eq!(page.validate_form(), Some("Base URL 不能为空"));
    page.form.base_url = "u".to_string();
    assert_eq!(page.validate_form(), None);
    let calls = page.save_calls();
    assert_eq!(calls.len(), 1);
    assert!(matches!(&calls[0], ProviderCall::Create(p) if p.name == "n" && p.base_url == "u"));

    page.open_edit_dialog(&client_provider("old"));
    assert_eq!(page.editing_provider.as_deref(), Some("old"));
    assert_eq!(page.form.provider_type, "anthropic");
    assert!(!page.form.enabled);
    assert_eq!(page.form.api_key, "");
    let calls = page.save_calls();
    assert!(matches!(&calls[0], ProviderCall::Update { name, provider } if name == "old" && provider.name == "old"));
    page.form.name = "new".to_string();
    let calls = page.save_calls();
    assert_eq!(calls.len(), 2);
    assert!(matches!(&calls[0], ProviderCall::Create(p) if p.name == "new"));
    assert!(matches!(&calls[1], ProviderCall::Delete(n) if n == "old"));

    page.after_save(Err("boom".to_string()));
    assert_eq!(page.error_message.as_deref(), Some("保存失败: boom"));
    assert!(page.dialog_open);
    page.after_save(Ok(()));
    assert!(!page.dialog_open);
    assert!(!page.loaded);
    assert!(page.error_message.is_none());
    page.after_load(Err("x".to_string()));
    assert_eq!(page.error_message.as_deref(), Some("加载失败: x"));
    page.after_load(Ok(vec![client_provider("a")]));
    assert_eq!(page.providers.len(), 1);
    page.after_delete(Err("y".to_string()));
    assert_eq!(page.error_message.as_deref(), Some("删除失败: y"));
}

#[test]
fn route_dialog() {
    let mut page = RoutesPage::default();
    page.open_add_dialog();
    assert_eq!(page.form.priority, 10);
    assert_eq!(page.form.provider, "");
    assert_eq!(page.validate_form(), Some("匹配规则不能为空"));
    page.form.pattern = "a*".to_string();
    assert_eq!(page.validate_form(), Some("请选择服务商"));
    page.after_load(Ok(Vec::new()), Ok(vec![client_provider("first"), client_provider("second")]));
    page.open_add_dialog();
    assert_eq!(page.form.provider, "first");
    page.form.pattern = "a*".to_string();
    assert_eq!(page.validate_form(), None);
    let route = page.form_route();
    assert!(route.model.is_none());
    assert!(matches!(page.save_call(), RouteCall::Create(r) if r.pattern == "a*" && r.priority == 10));

    let existing = Route {
        pattern: "b*".to_string(),
        provider: "second".to_string(),
        model: Some("target".to_string()),
        priority: 3,
    };
    page.open_edit_dialog(&existing);
    assert_eq!(page.form.model, "target");
    page.form.pattern = "c*".to_string();
    assert!(matches!(page.save_call(), RouteCall::Update { pattern, route } if pattern == "b*" && route.pattern == "c*" && route.model.as_deref() == Some("target")));
    page.after_load(Err("z".to_string()), Err("ignored".to_string()));
    assert_eq!(page.error_message.as_deref(), Some("加载路由失败: z"));
    assert_eq!(page.providers.len(), 2);
}

#[test]
fn settings_round_trip() {
    let mut page = SettingsPage::default();
    assert_eq!(page.host, "127.0.0.1");
    assert_eq!(page.port, "31415");
    assert_eq!(page.theme, "dark");
    let config = Config {
        server: ServerConfig { host: "0.0.0.0".to_string(), port: 8080 },
        ui: UiConfig {
            theme: "light".to_string(),
            language: "en-US".to_string(),
            auto_start: false,
            minimize_to_tray: true,
        },
        logging: trestle::config::LoggingConfig { level: "debug".to_string(), retention_days: 30 },
    };
    page.load_config(&config);
    assert_eq!(page.port, "8080");
    let back = page.to_config();
    assert_eq!(back.server.host, "0.0.0.0");
    assert_eq!(back.server.port, 8080);
    assert_eq!(back.ui.theme, "light");
    assert_eq!(back.ui.language, "en-US");
    assert!(!back.ui.auto_start);
    assert!(back.ui.minimize_to_tray);
    assert_eq!(back.logging.level, "info");
    assert_eq!(back.logging.retention_days, 7);
    page.port = "not a port".to_string();
    assert_eq!(page.to_config().server.port, 31415);
    page.after_save(Ok(()));
    assert_eq!(page.save_status.as_deref(), Some("配置已保存"));
    page.after_save(Err("e".to_string()));
    assert_eq!(page.save_status.as_deref(), Some("保存失败: e"));
    page.reload();
    assert!(page.save_status.is_none());
}

#[test]
fn log_page() {
    let mut page = LogsPage::default();
    let log = RequestLog {
        id: "1".to_string(),
        timestamp: "t".to_string(),
        method: "POST".to_string(),
        path: "/v1/chat/completions".to_string(),
        model: "m".to_string(),
        status: 200,
        latency_ms: 3,
    };
    assert!(is_success_row(&log));
    page.after_load(Ok(vec![log]));
    assert_eq!(page.logs.len(), 1);
    page.after_load(Err("x".to_string()));
    assert_eq!(page.logs.len(), 1);
    page.loaded = true;
    page.refresh();
    assert!(!page.loaded);
}
