//! The state of the pages of the desktop client and the decisions they make:
//! what the dialogs show when opened, which entries a form may be saved
//! with, which management calls saving makes, and how the answers change
//! the page. Drawing the pages is left to the user interface.

use vstd::prelude::*;
use vstd::string::*;

use crate::client_api::{Provider, ProviderView, RequestLog, Route, RouteView, ServerStatus};
use crate::config::{
    Config, ConfigView, LoggingConfig, LoggingConfigView, ServerConfig, UiConfig, UiConfigView,
};
use crate::model::opt_str;
use crate::text::{concat2, decimal, owned, parse_u16, parse_u16_spec, str_eq, u64_to_decimal};

verus! {

// ---------------------------------------------------------------------------
// Navigation
// ---------------------------------------------------------------------------

/// The pages of the client.
#[derive(Debug, PartialEq, Eq, Structural, Clone, Copy)]
pub enum Page {
    Dashboard,
    Providers,
    Routes,
    Logs,
    Settings,
}

impl Default for Page {
    /// The dashboard.
    fn default() -> (r: Self)
        ensures
            r == Page::Dashboard,
    {
        Page::Dashboard
    }
}

impl Page {
    /// The title shown above the page and in the navigation.
    pub fn title(&self) -> (r: &'static str)
        ensures
            r@ == (match self {
                Page::Dashboard => "仪表盘"@,
                Page::Providers => "服务商"@,
                Page::Routes => "路由规则"@,
                Page::Logs => "请求日志"@,
                Page::Settings => "设置"@,
            }),
    {
        match self {
            Page::Dashboard => "仪表盘",
            Page::Providers => "服务商",
            Page::Routes => "路由规则",
            Page::Logs => "请求日志",
            Page::Settings => "设置",
        }
    }

    /// The symbol shown in the navigation.
    pub fn icon(&self) -> (r: &'static str)
        ensures
            r@ == (match self {
                Page::Dashboard => "◆"@,
                Page::Providers => "●"@,
                Page::Routes => "▶"@,
                Page::Logs => "≡"@,
                Page::Settings => "⚙"@,
            }),
    {
        match self {
            Page::Dashboard => "◆",
            Page::Providers => "●",
            Page::Routes => "▶",
            Page::Logs => "≡",
            Page::Settings => "⚙",
        }
    }

    /// The line shown under the title.
    pub fn description(&self) -> (r: &'static str)
        ensures
            r@ == (match self {
                Page::Dashboard => "查看服务状态和统计信息"@,
                Page::Providers => "管理 AI 服务商配置"@,
                Page::Routes => "配置模型路由规则"@,
                Page::Logs => "查看请求历史记录"@,
                Page::Settings => "应用和系统设置"@,
            }),
    {
        match self {
            Page::Dashboard => "查看服务状态和统计信息",
            Page::Providers => "管理 AI 服务商配置",
            Page::Routes => "配置模型路由规则",
            Page::Logs => "查看请求历史记录",
            Page::Settings => "应用和系统设置",
        }
    }
}

// ---------------------------------------------------------------------------
// Dashboard
// ---------------------------------------------------------------------------

/// The dashboard page; it keeps no state of its own.
#[derive(Debug)]
pub struct DashboardPage;

impl Default for DashboardPage {
    fn default() -> (r: Self) {
        DashboardPage
    }
}

/// How the dashboard shows an uptime of `secs` seconds: seconds under a
/// minute, minutes under an hour, hours and minutes under a day, days
/// beyond.
pub open spec fn duration_text(secs: u64) -> Seq<char> {
    if secs < 60 {
        decimal(secs as nat) + "s"@
    } else if secs < 3600 {
        decimal((secs / 60) as nat) + "m"@
    } else if secs < 86400 {
        decimal((secs / 3600) as nat) + "h "@ + decimal(((secs % 3600) / 60) as nat) + "m"@
    } else {
        decimal((secs / 86400) as nat) + "d"@
    }
}

/// The uptime text of the dashboard.
pub fn format_duration(secs: u64) -> (r: String)
    ensures
        r@ == duration_text(secs),
{
    if secs < 60 {
        let n = u64_to_decimal(secs);
        concat2(n.as_str(), "s")
    } else if secs < 3600 {
        let n = u64_to_decimal(secs / 60);
        concat2(n.as_str(), "m")
    } else if secs < 86400 {
        let h = u64_to_decimal(secs / 3600);
        let m = u64_to_decimal((secs % 3600) / 60);
        let hs = concat2(h.as_str(), "h ");
        let hm = concat2(hs.as_str(), m.as_str());
        concat2(hm.as_str(), "m")
    } else {
        let n = u64_to_decimal(secs / 86400);
        concat2(n.as_str(), "d")
    }
}

/// The label of a provider's health on the dashboard.
pub fn health_label(healthy: bool) -> (r: &'static str)
    ensures
        r@ == (if healthy {
            "正常"@
        } else {
            "异常"@
        }),
{
    if healthy {
        "正常"
    } else {
        "异常"
    }
}

/// How the value of a dashboard card is shown: as the text, or as a count
/// in its short form (`1.2M`, `3.4K`).
#[derive(Debug)]
pub enum StatValue {
    Text(String),
    Count(u64),
}

pub enum StatValueView {
    Text(Seq<char>),
    Count(u64),
}

impl View for StatValue {
    type V = StatValueView;

    open spec fn view(&self) -> StatValueView {
        match self {
            StatValue::Text(t) => StatValueView::Text(t@),
            StatValue::Count(n) => StatValueView::Count(*n),
        }
    }
}

/// A statistics card of the dashboard.
#[derive(Debug)]
pub struct StatCard {
    pub label: &'static str,
    pub value: StatValue,
}

pub struct StatCardView {
    pub label: Seq<char>,
    pub value: StatValueView,
}

impl View for StatCard {
    type V = StatCardView;

    open spec fn view(&self) -> StatCardView {
        StatCardView { label: self.label@, value: self.value@ }
    }
}

/// The cards of the dashboard, left to right: uptime, requests, tokens and
/// active connections.
pub open spec fn dashboard_cards(
    uptime_secs: u64,
    total_requests: u64,
    total_tokens: u64,
    active_connections: u32,
) -> Seq<StatCardView> {
    seq![
        StatCardView { label: "运行时间"@, value: StatValueView::Text(duration_text(uptime_secs)) },
        StatCardView { label: "总请求数"@, value: StatValueView::Count(total_requests) },
        StatCardView { label: "Token 消耗"@, value: StatValueView::Count(total_tokens) },
        StatCardView {
            label: "活跃连接"@,
            value: StatValueView::Text(decimal(active_connections as nat)),
        },
    ]
}

/// The statistics cards that the dashboard shows for `status`.
pub fn stat_cards(status: &ServerStatus) -> (r: Vec<StatCard>)
    ensures
        r@.map_values(|c: StatCard| c@) == dashboard_cards(
            status.uptime_secs,
            status.total_requests,
            status.total_tokens,
            status.active_connections,
        ),
{
    let mut cards: Vec<StatCard> = Vec::new();
    cards.push(
        StatCard { label: "运行时间", value: StatValue::Text(format_duration(status.uptime_secs)) },
    );
    cards.push(StatCard { label: "总请求数", value: StatValue::Count(status.total_requests) });
    cards.push(StatCard { label: "Token 消耗", value: StatValue::Count(status.total_tokens) });
    cards.push(
        StatCard {
            label: "活跃连接",
            value: StatValue::Text(u64_to_decimal(status.active_connections as u64)),
        },
    );
    assert(cards@.map_values(|c: StatCard| c@) =~= dashboard_cards(
        status.uptime_secs,
        status.total_requests,
        status.total_tokens,
        status.active_connections,
    ));
    cards
}

/// A provider's card on the dashboard: its name, the health badge, and the
/// latency of its last probe when one was measured.
#[derive(Debug)]
pub struct ProviderCard {
    pub name: String,
    pub healthy: bool,
    pub badge: &'static str,
    pub latency: Option<String>,
}

/// The latency text of a provider card: `{n}ms`.
pub open spec fn latency_text(latency_ms: Option<u64>) -> Option<Seq<char>> {
    match latency_ms {
        Some(n) => Some(decimal(n as nat) + "ms"@),
        None => None,
    }
}

/// The provider cards of the dashboard: one per provider of the status, in
/// order.
pub fn provider_cards(status: &ServerStatus) -> (r: Vec<ProviderCard>)
    ensures
        r@.len() == status.providers@.len(),
        forall|i: int|
            0 <= i < r@.len() ==> {
                let p = #[trigger] status.providers@[i];
                &&& r@[i].name@ == p.name@
                &&& r@[i].healthy == p.healthy
                &&& r@[i].badge@ == (if p.healthy {
                    "正常"@
                } else {
                    "异常"@
                })
                &&& opt_str(r@[i].latency) == latency_text(p.latency_ms)
            },
{
    let mut cards: Vec<ProviderCard> = Vec::new();
    let mut i: usize = 0;
    while i < status.providers.len()
        invariant
            i <= status.providers@.len(),
            cards@.len() == i,
            forall|j: int|
                0 <= j < i ==> {
                    let p = #[trigger] status.providers@[j];
                    &&& cards@[j].name@ == p.name@
                    &&& cards@[j].healthy == p.healthy
                    &&& cards@[j].badge@ == (if p.healthy {
                        "正常"@
                    } else {
                        "异常"@
                    })
                    &&& opt_str(cards@[j].latency) == latency_text(p.latency_ms)
                },
        decreases status.providers.len() - i,
    {
        let p = &status.providers[i];
        let latency = match p.latency_ms {
            Some(n) => {
                let digits = u64_to_decimal(n);
                Some(concat2(digits.as_str(), "ms"))
            },
            None => None,
        };
        cards.push(
            ProviderCard {
                name: p.name.clone(),
                healthy: p.healthy,
                badge: health_label(p.healthy),
                latency,
            },
        );
        i = i + 1;
    }
    cards
}

/// Whether the dashboard shows the placeholder for a server without
/// providers (`暂无服务商`) in place of provider cards.
pub fn shows_no_providers(status: &ServerStatus) -> (r: bool)
    ensures
        r == (status.providers@.len() == 0),
{
    status.providers.len() == 0
}

/// The least time between two status requests, in milliseconds.
pub const STATUS_REFRESH_MS: u64 = 2000;

/// The server status is due at `now_ms`, the last request having been made
/// at `last_ms` (on a clock that never goes back): always at first, then
/// once two seconds have passed.
pub open spec fn refresh_due(last_ms: Option<u64>, now_ms: u64) -> bool {
    match last_ms {
        None => true,
        Some(last) => now_ms >= last && now_ms - last >= STATUS_REFRESH_MS,
    }
}

/// Whether the server status is requested again at `now_ms`.
pub fn should_refresh(last_ms: Option<u64>, now_ms: u64) -> (r: bool)
    ensures
        r == refresh_due(last_ms, now_ms),
{
    match last_ms {
        None => true,
        Some(last) => now_ms >= last && now_ms - last >= STATUS_REFRESH_MS,
    }
}

/// What the client knows of the server: when it last asked for the
/// status, whether the server answered, and the status it gave.
#[derive(Debug)]
pub struct StatusPoll {
    pub last_update_ms: Option<u64>,
    pub connected: bool,
    pub status: Option<ServerStatus>,
}

impl Default for StatusPoll {
    /// Never asked, not connected.
    fn default() -> (r: Self)
        ensures
            r.last_update_ms is None,
            !r.connected,
            r.status is None,
    {
        StatusPoll { last_update_ms: None, connected: false, status: None }
    }
}

impl StatusPoll {
    /// Whether the status is requested at `now_ms`; when it is, the time
    /// of the request is recorded.
    pub fn begin_refresh(&mut self, now_ms: u64) -> (r: bool)
        ensures
            r == refresh_due(old(self).last_update_ms, now_ms),
            final(self).last_update_ms == (if r {
                Some(now_ms)
            } else {
                old(self).last_update_ms
            }),
            final(self).connected == old(self).connected,
            final(self).status == old(self).status,
    {
        let r = should_refresh(self.last_update_ms, now_ms);
        if r {
            self.last_update_ms = Some(now_ms);
        }
        r
    }

    /// The state after the status request: connected with the status it
    /// gave, or disconnected with none.
    pub fn after_status(&mut self, result: Result<ServerStatus, String>)
        ensures
            match result {
                Ok(s) => final(self).connected && final(self).status == Some(s),
                Err(_) => !final(self).connected && final(self).status is None,
            },
            final(self).last_update_ms == old(self).last_update_ms,
    {
        match result {
            Ok(s) => {
                self.status = Some(s);
                self.connected = true;
            },
            Err(_) => {
                self.status = None;
                self.connected = false;
            },
        }
    }
}

// ---------------------------------------------------------------------------
// Providers page
// ---------------------------------------------------------------------------

/// The entries of the provider dialog.
#[derive(Debug)]
pub struct ProviderForm {
    pub name: String,
    pub provider_type: String,
    pub base_url: String,
    pub api_key: String,
    pub enabled: bool,
}

/// A management call that saving the provider dialog makes.
#[derive(Debug)]
pub enum ProviderCall {
    Create(Provider),
    Update { name: String, provider: Provider },
    Delete(String),
}

pub enum ProviderCallView {
    Create(ProviderView),
    Update { name: Seq<char>, provider: ProviderView },
    Delete(Seq<char>),
}

impl View for ProviderCall {
    type V = ProviderCallView;

    open spec fn view(&self) -> ProviderCallView {
        match self {
            ProviderCall::Create(p) => ProviderCallView::Create(p@),
            ProviderCall::Update { name, provider } => ProviderCallView::Update {
                name: name@,
                provider: provider@,
            },
            ProviderCall::Delete(n) => ProviderCallView::Delete(n@),
        }
    }
}

/// The calls that saving the provider dialog makes, given the name of the
/// provider being edited, if any, and the provider the entries describe.
pub open spec fn provider_save_calls(editing: Option<Seq<char>>, p: ProviderView) -> Seq<
    ProviderCallView,
> {
    match editing {
        None => seq![ProviderCallView::Create(p)],
        Some(orig) => if orig != p.name {
            seq![ProviderCallView::Create(p), ProviderCallView::Delete(orig)]
        } else {
            seq![ProviderCallView::Update { name: orig, provider: p }]
        },
    }
}

/// The text of an optional static string.
pub open spec fn static_opt(o: Option<&'static str>) -> Option<Seq<char>> {
    match o {
        Some(s) => Some(s@),
        None => None,
    }
}

/// Why the provider dialog cannot be saved, if it cannot: the name, then
/// the base URL, must not be empty.
pub open spec fn provider_form_error(name: Seq<char>, base_url: Seq<char>) -> Option<Seq<char>> {
    if name.len() == 0 {
        Some("名称不能为空"@)
    } else if base_url.len() == 0 {
        Some("Base URL 不能为空"@)
    } else {
        None
    }
}

/// The symbol shown for a provider of type `provider_type`.
pub fn provider_type_icon(provider_type: &str) -> (r: &'static str)
    ensures
        r@ == (if provider_type@ == "openai"@ {
            "🤖"@
        } else if provider_type@ == "anthropic"@ {
            "🧠"@
        } else {
            "🔧"@
        }),
{
    if str_eq(provider_type, "openai") {
        "🤖"
    } else if str_eq(provider_type, "anthropic") {
        "🧠"
    } else {
        "🔧"
    }
}

/// The type badge of a provider: the product name of the known types, the
/// type itself otherwise.
pub fn provider_type_label(provider_type: &str) -> (r: String)
    ensures
        r@ == (if provider_type@ == "openai"@ {
            "OpenAI"@
        } else if provider_type@ == "anthropic"@ {
            "Anthropic"@
        } else {
            provider_type@
        }),
{
    if str_eq(provider_type, "openai") {
        owned("OpenAI")
    } else if str_eq(provider_type, "anthropic") {
        owned("Anthropic")
    } else {
        owned(provider_type)
    }
}

/// The badge of a provider's switch.
pub fn enabled_label(enabled: bool) -> (r: &'static str)
    ensures
        r@ == (if enabled {
            "已启用"@
        } else {
            "已禁用"@
        }),
{
    if enabled {
        "已启用"
    } else {
        "已禁用"
    }
}

/// The providers page.
#[derive(Debug)]
pub struct ProvidersPage {
    pub providers: Vec<Provider>,
    pub loaded: bool,
    pub dialog_open: bool,
    pub editing_provider: Option<String>,
    pub form: ProviderForm,
    pub error_message: Option<String>,
    pub show_delete_confirm: Option<String>,
}

impl Default for ProvidersPage {
    /// Nothing loaded, no dialog open.
    fn default() -> (r: Self)
        ensures
            r.providers@.len() == 0,
            !r.loaded,
            !r.dialog_open,
            r.editing_provider is None,
            r.form.name@.len() == 0 && r.form.provider_type@.len() == 0
                && r.form.base_url@.len() == 0 && r.form.api_key@.len() == 0 && !r.form.enabled,
            r.error_message is None,
            r.show_delete_confirm is None,
    {
        ProvidersPage {
            providers: Vec::new(),
            loaded: false,
            dialog_open: false,
            editing_provider: None,
            form: ProviderForm {
                name: String::new(),
                provider_type: String::new(),
                base_url: String::new(),
                api_key: String::new(),
                enabled: false,
            },
            error_message: None,
            show_delete_confirm: None,
        }
    }
}

impl ProvidersPage {
    /// The provider that the dialog's entries describe.
    pub open spec fn form_view(&self) -> ProviderView {
        ProviderView {
            name: self.form.name@,
            provider_type: self.form.provider_type@,
            base_url: self.form.base_url@,
            enabled: self.form.enabled,
        }
    }

    /// Opens the dialog for a new provider: empty entries, type `openai`,
    /// enabled.
    pub fn open_add_dialog(&mut self)
        ensures
            final(self).editing_provider is None,
            final(self).form.name@.len() == 0,
            final(self).form.provider_type@ == "openai"@,
            final(self).form.base_url@.len() == 0,
            final(self).form.api_key@.len() == 0,
            final(self).form.enabled,
            final(self).dialog_open,
            final(self).error_message is None,
            final(self).providers@ == old(self).providers@,
            final(self).loaded == old(self).loaded,
            final(self).show_delete_confirm == old(self).show_delete_confirm,
    {
        self.editing_provider = None;
        self.form = ProviderForm {
            name: String::new(),
            provider_type: owned("openai"),
            base_url: String::new(),
            api_key: String::new(),
            enabled: true,
        };
        self.dialog_open = true;
        self.error_message = None;
    }

    /// Opens the dialog on `provider`: its entries, with an empty key.
    pub fn open_edit_dialog(&mut self, provider: &Provider)
        ensures
            opt_str(final(self).editing_provider) == Some(provider.name@),
            final(self).form.name@ == provider.name@,
            final(self).form.provider_type@ == provider.provider_type@,
            final(self).form.base_url@ == provider.base_url@,
            final(self).form.api_key@.len() == 0,
            final(self).form.enabled == provider.enabled,
            final(self).dialog_open,
            final(self).error_message is None,
            final(self).providers@ == old(self).providers@,
            final(self).loaded == old(self).loaded,
            final(self).show_delete_confirm == old(self).show_delete_confirm,
    {
        self.editing_provider = Some(provider.name.clone());
        self.form = ProviderForm {
            name: provider.name.clone(),
            provider_type: provider.provider_type.clone(),
            base_url: provider.base_url.clone(),
            api_key: String::new(),
            enabled: provider.enabled,
        };
        self.dialog_open = true;
        self.error_message = None;
    }

    /// Why the dialog cannot be saved, if it cannot: the name, then the base
    /// URL, must not be empty.
    pub fn validate_form(&self) -> (r: Option<&'static str>)
        ensures
            static_opt(r) == provider_form_error(self.form.name@, self.form.base_url@),
    {
        if self.form.name.as_str().is_empty() {
            Some("名称不能为空")
        } else if self.form.base_url.as_str().is_empty() {
            Some("Base URL 不能为空")
        } else {
            None
        }
    }

    /// The provider that the dialog's entries describe.
    pub fn form_provider(&self) -> (r: Provider)
        ensures
            r@ == self.form_view(),
    {
        Provider {
            name: self.form.name.clone(),
            provider_type: self.form.provider_type.clone(),
            base_url: self.form.base_url.clone(),
            enabled: self.form.enabled,
        }
    }

    /// The management calls that saving the dialog makes, in order (the
    /// client stops at the first that fails): a new provider is created; an
    /// edited one is updated under its name, or, when renamed, created under
    /// the new name and then deleted under the old one.
    pub fn save_calls(&self) -> (r: Vec<ProviderCall>)
        ensures
            r@.map_values(|c: ProviderCall| c@) == provider_save_calls(
                opt_str(self.editing_provider),
                self.form_view(),
            ),
    {
        let provider = self.form_provider();
        let ghost pv = provider@;
        let mut calls: Vec<ProviderCall> = Vec::new();
        match &self.editing_provider {
            Some(orig) => {
                if !str_eq(orig.as_str(), provider.name.as_str()) {
                    calls.push(ProviderCall::Create(provider));
                    calls.push(ProviderCall::Delete(orig.clone()));
                } else {
                    calls.push(ProviderCall::Update { name: orig.clone(), provider });
                }
            },
            None => {
                calls.push(ProviderCall::Create(provider));
            },
        }
        assert(calls@.map_values(|c: ProviderCall| c@) =~= provider_save_calls(
            opt_str(self.editing_provider),
            pv,
        ));
        calls
    }

    /// Whether the page fetches the providers when it is shown: exactly when
    /// they are not loaded yet.
    pub fn needs_load(&self) -> (r: bool)
        ensures
            r == !self.loaded,
    {
        !self.loaded
    }

    /// Marks the providers loaded, once they were fetched.
    pub fn mark_loaded(&mut self)
        ensures
            *final(self) == (ProvidersPage { loaded: true, ..*old(self) }),
    {
        self.loaded = true;
    }

    /// Marks the providers for fetching again.
    pub fn refresh(&mut self)
        ensures
            *final(self) == (ProvidersPage { loaded: false, ..*old(self) }),
    {
        self.loaded = false;
    }

    /// The next management call of a save, after `done` calls of
    /// `save_calls` were made and the last one answered `last` (`Ok` before
    /// the first): none when the entries are refused (see `submit`), else
    /// the next call of the list while each call so far succeeded, none once
    /// one failed or all were made. So a renamed
    /// provider is deleted under its old name only after it was created
    /// under the new one. `after_save` then takes the last answer.
    pub fn next_save_call(&self, done: usize, last: &Result<(), String>) -> (r: Option<
        ProviderCall,
    >)
        ensures
            ({
                let calls = provider_save_calls(opt_str(self.editing_provider), self.form_view());
                let valid = provider_form_error(self.form.name@, self.form.base_url@) is None;
                match r {
                    Some(c) => valid && last is Ok && done < calls.len() && c@ == calls[done as int],
                    None => !valid || last is Err || done >= calls.len(),
                }
            }),
    {
        if self.validate_form().is_some() {
            return None;
        }
        match last {
            Err(_) => None,
            Ok(_) => {
                let mut calls = self.save_calls();
                let ghost views = calls@.map_values(|c: ProviderCall| c@);
                if done < calls.len() {
                    let c = calls.remove(done);
                    assert(c@ == views[done as int]);
                    Some(c)
                } else {
                    None
                }
            },
        }
    }

    /// Saving the dialog: refused with the reason shown, the dialog left
    /// open and no call made, when an entry is missing; otherwise the management calls of `save_calls`
    /// with the page unchanged.
    pub fn submit(&mut self) -> (r: Option<Vec<ProviderCall>>)
        ensures
            match provider_form_error(old(self).form.name@, old(self).form.base_url@) {
                Some(m) => r is None && opt_str(final(self).error_message) == Some(m)
                    && *final(self) == (ProvidersPage { error_message: final(self).error_message, ..*old(self) }),
                None => r matches Some(calls) && calls@.map_values(|c: ProviderCall| c@) == provider_save_calls(opt_str(old(self).editing_provider), old(self).form_view()) && *final(self) == *old(self),
            },
    {
        match self.validate_form() {
            Some(m) => {
                self.error_message = Some(owned(m));
                None
            },
            None => Some(self.save_calls()),
        }
    }

    /// Closes the dialog without saving and clears the error.
    pub fn cancel_dialog(&mut self)
        ensures
            *final(self) == (ProvidersPage { dialog_open: false, error_message: None, ..*old(self) }),
    {
        self.dialog_open = false;
        self.error_message = None;
    }

    /// Asks for confirmation before deleting the entry `name`.
    pub fn request_delete(&mut self, name: String)
        ensures
            *final(self) == (ProvidersPage { show_delete_confirm: Some(name), ..*old(self) }),
    {
        self.show_delete_confirm = Some(name);
    }

    /// Closes the confirmation without deleting.
    pub fn cancel_delete(&mut self)
        ensures
            *final(self) == (ProvidersPage { show_delete_confirm: None, ..*old(self) }),
    {
        self.show_delete_confirm = None;
    }

    /// Confirms the deletion: the entry to delete, if one was pending, and
    /// the confirmation closed. `after_delete` then takes the answer.
    pub fn confirm_delete(&mut self) -> (r: Option<String>)
        ensures
            r == old(self).show_delete_confirm,
            *final(self) == (ProvidersPage { show_delete_confirm: None, ..*old(self) }),
    {
        let mut r: Option<String> = None;
        std::mem::swap(&mut r, &mut self.show_delete_confirm);
        r
    }

    /// The page after the providers were fetched: the list on success, the
    /// error otherwise.
    pub fn after_load(&mut self, result: Result<Vec<Provider>, String>)
        ensures
            match result {
                Ok(data) => final(self).providers@ == data@ && final(self).error_message is None,
                Err(e) => final(self).providers@ == old(self).providers@ && opt_str(
                    final(self).error_message,
                ) == Some("加载失败: "@ + e@),
            },
            *final(self) == (ProvidersPage {
                providers: final(self).providers,
                error_message: final(self).error_message,
                ..*old(self)
            }),
    {
        match result {
            Ok(data) => {
                self.providers = data;
                self.error_message = None;
            },
            Err(e) => {
                self.error_message = Some(concat2("加载失败: ", e.as_str()));
            },
        }
    }

    /// The page after saving the dialog: closed and marked for reload on
    /// success, the error otherwise.
    pub fn after_save(&mut self, result: Result<(), String>)
        ensures
            match result {
                Ok(_) => !final(self).dialog_open && !final(self).loaded
                    && final(self).error_message is None,
                Err(e) => final(self).dialog_open == old(self).dialog_open && final(self).loaded
                    == old(self).loaded && opt_str(final(self).error_message) == Some(
                    "保存失败: "@ + e@,
                ),
            },
            *final(self) == (ProvidersPage {
                dialog_open: final(self).dialog_open,
                loaded: final(self).loaded,
                error_message: final(self).error_message,
                ..*old(self)
            }),
    {
        match result {
            Ok(_) => {
                self.dialog_open = false;
                self.loaded = false;
                self.error_message = None;
            },
            Err(e) => {
                self.error_message = Some(concat2("保存失败: ", e.as_str()));
            },
        }
    }

    /// The page after a deletion: marked for reload on success, the error
    /// otherwise.
    pub fn after_delete(&mut self, result: Result<(), String>)
        ensures
            match result {
                Ok(_) => !final(self).loaded && final(self).error_message is None,
                Err(e) => final(self).loaded == old(self).loaded && opt_str(
                    final(self).error_message,
                ) == Some("删除失败: "@ + e@),
            },
            *final(self) == (ProvidersPage {
                loaded: final(self).loaded,
                error_message: final(self).error_message,
                ..*old(self)
            }),
    {
        match result {
            Ok(_) => {
                self.loaded = false;
                self.error_message = None;
            },
            Err(e) => {
                self.error_message = Some(concat2("删除失败: ", e.as_str()));
            },
        }
    }
}

// ---------------------------------------------------------------------------
// Routes page
// ---------------------------------------------------------------------------

/// The entries of the routing rule dialog.
#[derive(Debug)]
pub struct RouteForm {
    pub pattern: String,
    pub provider: String,
    pub model: String,
    pub priority: u32,
}

/// A management call that saving the rule dialog makes.
#[derive(Debug)]
pub enum RouteCall {
    Create(Route),
    Update { pattern: String, route: Route },
}

pub enum RouteCallView {
    Create(RouteView),
    Update { pattern: Seq<char>, route: RouteView },
}

impl View for RouteCall {
    type V = RouteCallView;

    open spec fn view(&self) -> RouteCallView {
        match self {
            RouteCall::Create(r) => RouteCallView::Create(r@),
            RouteCall::Update { pattern, route } => RouteCallView::Update {
                pattern: pattern@,
                route: route@,
            },
        }
    }
}

/// Why the rule dialog cannot be saved, if it cannot: the pattern must not
/// be empty, then a provider must be selected.
pub open spec fn route_form_error(pattern: Seq<char>, provider: Seq<char>) -> Option<Seq<char>> {
    if pattern.len() == 0 {
        Some("匹配规则不能为空"@)
    } else if provider.len() == 0 {
        Some("请选择服务商"@)
    } else {
        None
    }
}

/// The target model column of a rule: its model template, or `(原样)` when
/// the model name is passed on as it is.
pub fn route_model_text(route: &Route) -> (r: String)
    ensures
        r@ == (match opt_str(route.model) {
            Some(m) => m,
            None => "(原样)"@,
        }),
{
    match &route.model {
        Some(m) => m.clone(),
        None => owned("(原样)"),
    }
}

/// The call that saving the rule dialog makes: an update of the rule being
/// edited, or the creation of a new one.
pub open spec fn route_save_call(editing: Option<Seq<char>>, r: RouteView) -> RouteCallView {
    match editing {
        Some(orig) => RouteCallView::Update { pattern: orig, route: r },
        None => RouteCallView::Create(r),
    }
}

/// The routing rules page.
#[derive(Debug)]
pub struct RoutesPage {
    pub routes: Vec<Route>,
    pub providers: Vec<Provider>,
    pub loaded: bool,
    pub dialog_open: bool,
    pub editing_pattern: Option<String>,
    pub form: RouteForm,
    pub error_message: Option<String>,
    pub show_delete_confirm: Option<String>,
}

impl Default for RoutesPage {
    /// Nothing loaded, no dialog open.
    fn default() -> (r: Self)
        ensures
            r.routes@.len() == 0,
            r.providers@.len() == 0,
            !r.loaded,
            !r.dialog_open,
            r.editing_pattern is None,
            r.form.pattern@.len() == 0 && r.form.provider@.len() == 0 && r.form.model@.len() == 0
                && r.form.priority == 0,
            r.error_message is None,
            r.show_delete_confirm is None,
    {
        RoutesPage {
            routes: Vec::new(),
            providers: Vec::new(),
            loaded: false,
            dialog_open: false,
            editing_pattern: None,
            form: RouteForm {
                pattern: String::new(),
                provider: String::new(),
                model: String::new(),
                priority: 0,
            },
            error_message: None,
            show_delete_confirm: None,
        }
    }
}

impl RoutesPage {
    /// The rule that the dialog's entries describe; an empty model entry
    /// means no template.
    pub open spec fn form_view(&self) -> RouteView {
        RouteView {
            pattern: self.form.pattern@,
            provider: self.form.provider@,
            model: if self.form.model@.len() == 0 {
                None
            } else {
                Some(self.form.model@)
            },
            priority: self.form.priority,
        }
    }

    /// Opens the dialog for a new rule: empty entries, priority 10, and the
    /// first known provider selected, if there is one.
    pub fn open_add_dialog(&mut self)
        ensures
            final(self).editing_pattern is None,
            final(self).form.pattern@.len() == 0,
            final(self).form.model@.len() == 0,
            final(self).form.priority == 10,
            old(self).providers@.len() > 0 ==> final(self).form.provider@
                == old(self).providers@[0].name@,
            old(self).providers@.len() == 0 ==> final(self).form.provider@.len() == 0,
            final(self).dialog_open,
            final(self).error_message is None,
            final(self).providers@ == old(self).providers@,
            final(self).routes@ == old(self).routes@,
            final(self).loaded == old(self).loaded,
            final(self).show_delete_confirm == old(self).show_delete_confirm,
    {
        self.editing_pattern = None;
        self.form = RouteForm {
            pattern: String::new(),
            provider: String::new(),
            model: String::new(),
            priority: 10,
        };
        if self.providers.len() > 0 {
            self.form.provider = self.providers[0].name.clone();
        }
        self.dialog_open = true;
        self.error_message = None;
    }

    /// Opens the dialog on `route`: its entries, an empty model entry when
    /// it has no model template.
    pub fn open_edit_dialog(&mut self, route: &Route)
        ensures
            opt_str(final(self).editing_pattern) == Some(route.pattern@),
            final(self).form.pattern@ == route.pattern@,
            final(self).form.provider@ == route.provider@,
            final(self).form.model@ == (match opt_str(route.model) {
                Some(m) => m,
                None => Seq::empty(),
            }),
            final(self).form.priority == route.priority,
            final(self).dialog_open,
            final(self).error_message is None,
            final(self).providers@ == old(self).providers@,
            final(self).routes@ == old(self).routes@,
            final(self).loaded == old(self).loaded,
            final(self).show_delete_confirm == old(self).show_delete_confirm,
    {
        self.editing_pattern = Some(route.pattern.clone());
        let model = match &route.model {
            Some(m) => m.clone(),
            None => String::new(),
        };
        self.form = RouteForm {
            pattern: route.pattern.clone(),
            provider: route.provider.clone(),
            model,
            priority: route.priority,
        };
        self.dialog_open = true;
        self.error_message = None;
    }

    /// Why the dialog cannot be saved, if it cannot: the pattern must not be
    /// empty, then a provider must be selected.
    pub fn validate_form(&self) -> (r: Option<&'static str>)
        ensures
            static_opt(r) == route_form_error(self.form.pattern@, self.form.provider@),
    {
        if self.form.pattern.as_str().is_empty() {
            Some("匹配规则不能为空")
        } else if self.form.provider.as_str().is_empty() {
            Some("请选择服务商")
        } else {
            None
        }
    }

    /// The rule that the dialog's entries describe; an empty model entry
    /// means no template.
    pub fn form_route(&self) -> (r: Route)
        ensures
            r@ == self.form_view(),
    {
        Route {
            pattern: self.form.pattern.clone(),
            provider: self.form.provider.clone(),
            model: if self.form.model.as_str().is_empty() {
                None
            } else {
                Some(self.form.model.clone())
            },
            priority: self.form.priority,
        }
    }

    /// The management call that saving the dialog makes: an update of the
    /// rule being edited, or the creation of a new one.
    pub fn save_call(&self) -> (r: RouteCall)
        ensures
            r@ == route_save_call(opt_str(self.editing_pattern), self.form_view()),
    {
        let route = self.form_route();
        match &self.editing_pattern {
            Some(orig) => RouteCall::Update { pattern: orig.clone(), route },
            None => RouteCall::Create(route),
        }
    }

    /// Whether the page fetches the rules and the providers when it is
    /// shown: exactly when they are not loaded yet.
    pub fn needs_load(&self) -> (r: bool)
        ensures
            r == !self.loaded,
    {
        !self.loaded
    }

    /// Marks the rules and providers loaded, once they were fetched.
    pub fn mark_loaded(&mut self)
        ensures
            *final(self) == (RoutesPage { loaded: true, ..*old(self) }),
    {
        self.loaded = true;
    }

    /// Marks the rules and providers for fetching again.
    pub fn refresh(&mut self)
        ensures
            *final(self) == (RoutesPage { loaded: false, ..*old(self) }),
    {
        self.loaded = false;
    }

    /// Saving the dialog: refused with the reason shown, the dialog left
    /// open and no call made, when an entry is missing; otherwise the management call of `save_call`
    /// with the page unchanged.
    pub fn submit(&mut self) -> (r: Option<RouteCall>)
        ensures
            match route_form_error(old(self).form.pattern@, old(self).form.provider@) {
                Some(m) => r is None && opt_str(final(self).error_message) == Some(m)
                    && *final(self) == (RoutesPage { error_message: final(self).error_message, ..*old(self) }),
                None => r matches Some(calls) && calls@ == route_save_call(opt_str(old(self).editing_pattern), old(self).form_view()) && *final(self) == *old(self),
            },
    {
        match self.validate_form() {
            Some(m) => {
                self.error_message = Some(owned(m));
                None
            },
            None => Some(self.save_call()),
        }
    }

    /// Closes the dialog without saving and clears the error.
    pub fn cancel_dialog(&mut self)
        ensures
            *final(self) == (RoutesPage { dialog_open: false, error_message: None, ..*old(self) }),
    {
        self.dialog_open = false;
        self.error_message = None;
    }

    /// Asks for confirmation before deleting the entry `name`.
    pub fn request_delete(&mut self, name: String)
        ensures
            *final(self) == (RoutesPage { show_delete_confirm: Some(name), ..*old(self) }),
    {
        self.show_delete_confirm = Some(name);
    }

    /// Closes the confirmation without deleting.
    pub fn cancel_delete(&mut self)
        ensures
            *final(self) == (RoutesPage { show_delete_confirm: None, ..*old(self) }),
    {
        self.show_delete_confirm = None;
    }

    /// Confirms the deletion: the entry to delete, if one was pending, and
    /// the confirmation closed. `after_delete` then takes the answer.
    pub fn confirm_delete(&mut self) -> (r: Option<String>)
        ensures
            r == old(self).show_delete_confirm,
            *final(self) == (RoutesPage { show_delete_confirm: None, ..*old(self) }),
    {
        let mut r: Option<String> = None;
        std::mem::swap(&mut r, &mut self.show_delete_confirm);
        r
    }

    /// The page after the rules and the providers were fetched: each list
    /// that arrived replaces the held one; a failure to fetch the rules is
    /// shown, one to fetch the providers is not.
    pub fn after_load(
        &mut self,
        routes: Result<Vec<Route>, String>,
        providers: Result<Vec<Provider>, String>,
    )
        ensures
            match routes {
                Ok(data) => final(self).routes@ == data@ && final(self).error_message
                    == old(self).error_message,
                Err(e) => final(self).routes@ == old(self).routes@ && opt_str(
                    final(self).error_message,
                ) == Some("加载路由失败: "@ + e@),
            },
            match providers {
                Ok(data) => final(self).providers@ == data@,
                Err(_) => final(self).providers@ == old(self).providers@,
            },
            *final(self) == (RoutesPage {
                routes: final(self).routes,
                providers: final(self).providers,
                error_message: final(self).error_message,
                ..*old(self)
            }),
    {
        match routes {
            Ok(data) => {
                self.routes = data;
            },
            Err(e) => {
                self.error_message = Some(concat2("加载路由失败: ", e.as_str()));
            },
        }
        match providers {
            Ok(data) => {
                self.providers = data;
            },
            Err(_) => {},
        }
    }

    /// The page after saving the dialog: closed and marked for reload on
    /// success, the error otherwise.
    pub fn after_save(&mut self, result: Result<(), String>)
        ensures
            match result {
                Ok(_) => !final(self).dialog_open && !final(self).loaded
                    && final(self).error_message is None,
                Err(e) => final(self).dialog_open == old(self).dialog_open && final(self).loaded
                    == old(self).loaded && opt_str(final(self).error_message) == Some(
                    "保存失败: "@ + e@,
                ),
            },
            *final(self) == (RoutesPage {
                dialog_open: final(self).dialog_open,
                loaded: final(self).loaded,
                error_message: final(self).error_message,
                ..*old(self)
            }),
    {
        match result {
            Ok(_) => {
                self.dialog_open = false;
                self.loaded = false;
                self.error_message = None;
            },
            Err(e) => {
                self.error_message = Some(concat2("保存失败: ", e.as_str()));
            },
        }
    }

    /// The page after a deletion: marked for reload on success, the error
    /// otherwise.
    pub fn after_delete(&mut self, result: Result<(), String>)
        ensures
            match result {
                Ok(_) => !final(self).loaded && final(self).error_message is None,
                Err(e) => final(self).loaded == old(self).loaded && opt_str(
                    final(self).error_message,
                ) == Some("删除失败: "@ + e@),
            },
            *final(self) == (RoutesPage {
                loaded: final(self).loaded,
                error_message: final(self).error_message,
                ..*old(self)
            }),
    {
        match result {
            Ok(_) => {
                self.loaded = false;
                self.error_message = None;
            },
            Err(e) => {
                self.error_message = Some(concat2("删除失败: ", e.as_str()));
            },
        }
    }
}

// ---------------------------------------------------------------------------
// Logs page
// ---------------------------------------------------------------------------

/// The request log page.
#[derive(Debug)]
pub struct LogsPage {
    pub logs: Vec<RequestLog>,
    pub search: String,
    pub loaded: bool,
}

impl Default for LogsPage {
    /// Nothing loaded.
    fn default() -> (r: Self)
        ensures
            r.logs@.len() == 0,
            r.search@.len() == 0,
            !r.loaded,
    {
        LogsPage { logs: Vec::new(), search: String::new(), loaded: false }
    }
}

impl LogsPage {
    /// The page after the logs were fetched: the list on success, unchanged
    /// otherwise.
    pub fn after_load(&mut self, result: Result<Vec<RequestLog>, String>)
        ensures
            match result {
                Ok(data) => final(self).logs@ == data@,
                Err(_) => final(self).logs@ == old(self).logs@,
            },
            *final(self) == (LogsPage { logs: final(self).logs, ..*old(self) }),
    {
        match result {
            Ok(data) => {
                self.logs = data;
            },
            Err(_) => {},
        }
    }

    /// Whether the page fetches the logs when it is shown: exactly when they
    /// are not loaded yet.
    pub fn needs_load(&self) -> (r: bool)
        ensures
            r == !self.loaded,
    {
        !self.loaded
    }

    /// Marks the logs loaded, once they were fetched.
    pub fn mark_loaded(&mut self)
        ensures
            *final(self) == (LogsPage { loaded: true, ..*old(self) }),
    {
        self.loaded = true;
    }

    /// Marks the logs for fetching again.
    pub fn refresh(&mut self)
        ensures
            *final(self) == (LogsPage { loaded: false, ..*old(self) }),
    {
        self.loaded = false;
    }
}

/// A log row is shown as a success when its status is 200, and as a
/// failure otherwise.
pub fn is_success_row(log: &RequestLog) -> (r: bool)
    ensures
        r == (log.status == 200),
{
    log.status == 200
}

// ---------------------------------------------------------------------------
// Settings page
// ---------------------------------------------------------------------------

/// The settings page: the entries of the server and interface sections.
#[derive(Debug)]
pub struct SettingsPage {
    pub host: String,
    pub port: String,
    pub theme: String,
    pub language: String,
    pub auto_start: bool,
    pub minimize_to_tray: bool,
    pub initialized: bool,
    pub save_status: Option<String>,
}

impl Default for SettingsPage {
    /// The entries shown before the configuration is loaded.
    fn default() -> (r: Self)
        ensures
            r.host@ == "127.0.0.1"@,
            r.port@ == "31415"@,
            r.theme@ == "dark"@,
            r.language@ == "zh-CN"@,
            r.auto_start,
            r.minimize_to_tray,
            !r.initialized,
            r.save_status is None,
    {
        SettingsPage {
            host: owned("127.0.0.1"),
            port: owned("31415"),
            theme: owned("dark"),
            language: owned("zh-CN"),
            auto_start: true,
            minimize_to_tray: true,
            initialized: false,
            save_status: None,
        }
    }
}

/// The configuration that the settings entries describe: the port entry
/// read as a number, 31415 when it is not one, and default logging.
pub open spec fn settings_config(
    host: Seq<char>,
    port: Seq<char>,
    theme: Seq<char>,
    language: Seq<char>,
    auto_start: bool,
    minimize_to_tray: bool,
) -> ConfigView {
    ConfigView {
        server: crate::config::ServerConfigView {
            host: host,
            port: match parse_u16_spec(port) {
                Some(p) => p,
                None => 31415,
            },
        },
        ui: UiConfigView {
            theme: theme,
            language: language,
            auto_start: auto_start,
            minimize_to_tray: minimize_to_tray,
        },
        logging: LoggingConfigView { level: "info"@, retention_days: 7 },
    }
}

/// A management call that saving the settings makes.
#[derive(Debug)]
pub enum SettingsCall {
    UpdateConfig(Config),
    SaveConfig,
}

pub enum SettingsCallView {
    UpdateConfig(ConfigView),
    SaveConfig,
}

impl View for SettingsCall {
    type V = SettingsCallView;

    open spec fn view(&self) -> SettingsCallView {
        match self {
            SettingsCall::UpdateConfig(c) => SettingsCallView::UpdateConfig(c@),
            SettingsCall::SaveConfig => SettingsCallView::SaveConfig,
        }
    }
}

/// The calls that saving the settings makes, in order: the configuration
/// `c` is sent, then the server is asked to write it to disk.
pub open spec fn settings_save_calls(c: ConfigView) -> Seq<SettingsCallView> {
    seq![SettingsCallView::UpdateConfig(c), SettingsCallView::SaveConfig]
}

impl SettingsPage {
    /// The configuration that the entries describe.
    pub open spec fn entries_config(&self) -> ConfigView {
        settings_config(
            self.host@,
            self.port@,
            self.theme@,
            self.language@,
            self.auto_start,
            self.minimize_to_tray,
        )
    }

    /// Whether the page fetches the configuration when it is shown: exactly
    /// when it is not loaded yet.
    pub fn needs_load(&self) -> (r: bool)
        ensures
            r == !self.initialized,
    {
        !self.initialized
    }

    /// Marks the configuration loaded, once it was fetched (whether or not
    /// the fetch succeeded).
    pub fn mark_loaded(&mut self)
        ensures
            *final(self) == (SettingsPage { initialized: true, ..*old(self) }),
    {
        self.initialized = true;
    }

    /// The next management call of a save, after `done` calls of
    /// `settings_save_calls` were made and the last one answered `last`
    /// (`Ok` before the first): the configuration is written to disk only
    /// after it was sent successfully, and nothing follows a failure.
    /// `after_save` then takes the last answer, so the pair gets one status:
    /// the confirmation when both succeeded, else the first failure.
    pub fn next_save_call(&self, done: usize, last: &Result<(), String>) -> (r: Option<
        SettingsCall,
    >)
        ensures
            ({
                let calls = settings_save_calls(self.entries_config());
                match r {
                    Some(c) => last is Ok && done < calls.len() && c@ == calls[done as int],
                    None => last is Err || done >= calls.len(),
                }
            }),
    {
        match last {
            Err(_) => None,
            Ok(_) => {
                if done == 0 {
                    Some(SettingsCall::UpdateConfig(self.to_config()))
                } else if done == 1 {
                    Some(SettingsCall::SaveConfig)
                } else {
                    None
                }
            },
        }
    }

    /// Fills the entries from the server's configuration.
    pub fn load_config(&mut self, config: &Config)
        ensures
            final(self).host@ == config.server.host@,
            final(self).port@ == decimal(config.server.port as nat),
            final(self).theme@ == config.ui.theme@,
            final(self).language@ == config.ui.language@,
            final(self).auto_start == config.ui.auto_start,
            final(self).minimize_to_tray == config.ui.minimize_to_tray,
            final(self).initialized == old(self).initialized,
            final(self).save_status == old(self).save_status,
    {
        self.host = config.server.host.clone();
        self.port = u64_to_decimal(config.server.port as u64);
        self.theme = config.ui.theme.clone();
        self.language = config.ui.language.clone();
        self.auto_start = config.ui.auto_start;
        self.minimize_to_tray = config.ui.minimize_to_tray;
    }

    /// The configuration that saving sends to the server.
    pub fn to_config(&self) -> (r: Config)
        ensures
            r@ == settings_config(
                self.host@,
                self.port@,
                self.theme@,
                self.language@,
                self.auto_start,
                self.minimize_to_tray,
            ),
    {
        let port = match parse_u16(self.port.as_str()) {
            Some(p) => p,
            None => 31415,
        };
        Config {
            server: ServerConfig { host: self.host.clone(), port },
            ui: UiConfig {
                theme: self.theme.clone(),
                language: self.language.clone(),
                auto_start: self.auto_start,
                minimize_to_tray: self.minimize_to_tray,
            },
            logging: LoggingConfig::default(),
        }
    }

    /// The page after saving: a confirmation, or the error.
    pub fn after_save(&mut self, result: Result<(), String>)
        ensures
            match result {
                Ok(_) => opt_str(final(self).save_status) == Some("配置已保存"@),
                Err(e) => opt_str(final(self).save_status) == Some("保存失败: "@ + e@),
            },
            *final(self) == (SettingsPage { save_status: final(self).save_status, ..*old(self) }),
    {
        match result {
            Ok(_) => {
                self.save_status = Some(owned("配置已保存"));
            },
            Err(e) => {
                self.save_status = Some(concat2("保存失败: ", e.as_str()));
            },
        }
    }

    /// Marks the configuration for loading again and clears the status.
    pub fn reload(&mut self)
        ensures
            !final(self).initialized,
            final(self).save_status is None,
            *final(self) == (SettingsPage {
                initialized: final(self).initialized,
                save_status: final(self).save_status,
                ..*old(self)
            }),
    {
        self.initialized = false;
        self.save_status = None;
    }
}

/// Saving the settings right after loading them sends back the server and
/// interface sections as they were, with default logging.
pub proof fn law_settings_round_trip(c: ConfigView)
    ensures
        settings_config(
            c.server.host,
            decimal(c.server.port as nat),
            c.ui.theme,
            c.ui.language,
            c.ui.auto_start,
            c.ui.minimize_to_tray,
        ) == (ConfigView {
            server: c.server,
            ui: c.ui,
            logging: LoggingConfigView { level: "info"@, retention_days: 7 },
        }),
{
    crate::text::law_parse_u16_of_decimal(c.server.port);
}

} // verus!
