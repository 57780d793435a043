//! What the server sends to upstream providers and how it reads their
//! answers: endpoint addresses, the authorization header, which providers
//! are asked, what a health probe's status means, and the model list.

use vstd::prelude::*;
use vstd::string::*;

use crate::model::{
    opt_str, views, ChatCompletionResponse, ModelInfo, ModelInfoView, Provider, ProviderStatus,
    ProviderView, RequestLog, Usage,
};
use crate::text::{chars_of, concat2, owned, string_of};

verus! {

/// `s` without its trailing slashes (`str::trim_end_matches('/')`).
pub open spec fn trim_trailing_slashes(s: Seq<char>) -> Seq<char>
    decreases s.len(),
{
    if s.len() > 0 && s.last() == '/' {
        trim_trailing_slashes(s.drop_last())
    } else {
        s
    }
}

/// `s` without its trailing slashes.
pub fn trim_slashes(s: &str) -> (r: String)
    ensures
        r@ == trim_trailing_slashes(s@),
{
    let mut v = chars_of(s);
    while v.len() > 0 && v[v.len() - 1] == '/'
        invariant
            trim_trailing_slashes(v@) == trim_trailing_slashes(s@),
        decreases v.len(),
    {
        let ghost before = v@;
        v.pop();
        assert(v@ =~= before.drop_last());
    }
    string_of(&v)
}

/// The model list endpoint of a provider: its base URL without trailing
/// slashes, then `/models`.
pub fn models_url(base_url: &str) -> (r: String)
    ensures
        r@ == trim_trailing_slashes(base_url@) + "/models"@,
{
    let base = trim_slashes(base_url);
    concat2(base.as_str(), "/models")
}

/// The chat completions endpoint of a provider: its base URL as given,
/// then `/chat/completions`.
pub fn chat_completions_url(base_url: &str) -> (r: String)
    ensures
        r@ == base_url@ + "/chat/completions"@,
{
    concat2(base_url, "/chat/completions")
}

/// The authorization header value: `Bearer ` and the API key, or nothing
/// after it when the provider has no key.
pub fn bearer_header(api_key: &Option<String>) -> (r: String)
    ensures
        r@ == "Bearer "@ + (match opt_str(*api_key) {
            Some(k) => k,
            None => Seq::empty(),
        }),
{
    match api_key {
        Some(k) => concat2("Bearer ", k.as_str()),
        None => {
            let r = owned("Bearer ");
            assert(r@ =~= "Bearer "@ + Seq::<char>::empty());
            r
        },
    }
}

/// A provider answered a health probe with `status`: a success (2xx), or
/// 401, which shows that it is reachable though the key is refused.
pub open spec fn reachable_status(status: u16) -> bool {
    (200 <= status && status <= 299) || status == 401
}

/// A probe shows a provider healthy exactly when it answered with a
/// success status (200 to 299) or with 401; every other answer (a redirect,
/// 404, 429, a server error) shows it unhealthy.
pub proof fn law_reachable_statuses(status: u16)
    ensures
        reachable_status(status) <==> ((200 <= status && status < 300) || status == 401),
        (status == 404 || status == 403 || status == 500 || status == 302) ==> !reachable_status(status),
{
}

/// Whether a health probe answered with `status` shows the provider
/// healthy.
pub fn is_reachable_status(status: u16) -> (r: bool)
    ensures
        r == reachable_status(status),
{
    (200 <= status && status <= 299) || status == 401
}

/// The enabled providers of `ps`, in order.
pub open spec fn enabled_only(ps: Seq<ProviderView>) -> Seq<ProviderView> {
    ps.filter(|p: ProviderView| p.enabled)
}

/// The providers that are asked for models and probed for health: the
/// enabled ones, in order.
pub fn enabled_providers(providers: &Vec<Provider>) -> (r: Vec<Provider>)
    ensures
        views(r@) == enabled_only(views(providers@)),
{
    let ghost ps = views(providers@);
    let mut out: Vec<Provider> = Vec::new();
    let mut i: usize = 0;
    while i < providers.len()
        invariant
            ps == views(providers@),
            i <= providers.len(),
            views(out@) == enabled_only(ps.take(i as int)),
        decreases providers.len() - i,
    {
        assert(ps[i as int] == providers@[i as int]@);
        assert(ps.take(i + 1) =~= ps.take(i as int).push(ps[i as int]));
        proof {
            ps.take(i as int).lemma_filter_push(ps[i as int], |p: ProviderView| p.enabled);
        }
        let ghost before = out@;
        if providers[i].enabled {
            out.push(providers[i].clone());
            assert(views(out@) =~= views(before).push(ps[i as int]));
        }
        i = i + 1;
    }
    assert(ps.take(providers.len() as int) =~= ps);
    out
}

/// The model list entries of one provider: each id, as object `model`,
/// created at `now`, owned by the provider.
pub fn provider_models(provider_name: &str, ids: &Vec<String>, now: i64) -> (r: Vec<ModelInfo>)
    ensures
        r@.len() == ids@.len(),
        forall|i: int|
            0 <= i < ids@.len() ==> #[trigger] r@[i]@ == (ModelInfoView {
                id: ids@[i]@,
                object: "model"@,
                created: now,
                owned_by: provider_name@,
            }),
{
    let mut out: Vec<ModelInfo> = Vec::new();
    let mut i: usize = 0;
    while i < ids.len()
        invariant
            i <= ids.len(),
            out@.len() == i,
            forall|j: int|
                0 <= j < i ==> #[trigger] out@[j]@ == (ModelInfoView {
                    id: ids@[j]@,
                    object: "model"@,
                    created: now,
                    owned_by: provider_name@,
                }),
        decreases ids.len() - i,
    {
        out.push(
            ModelInfo {
                id: ids[i].clone(),
                object: owned("model"),
                created: now,
                owned_by: owned(provider_name),
            },
        );
        i = i + 1;
    }
    out
}

/// The status of a provider after a health probe at time `checked_at`
/// (RFC 3339) that took `elapsed_ms`: the latency is reported only when the
/// provider is healthy.
pub fn probe_status(name: &str, healthy: bool, elapsed_ms: u64, checked_at: &str) -> (r:
    ProviderStatus)
    ensures
        r.name@ == name@,
        r.healthy == healthy,
        r.latency_ms == (if healthy {
            Some(elapsed_ms)
        } else {
            None
        }),
        opt_str(r.last_check) == Some(checked_at@),
{
    ProviderStatus {
        name: owned(name),
        healthy,
        latency_ms: if healthy {
            Some(elapsed_ms)
        } else {
            None
        },
        last_check: Some(owned(checked_at)),
    }
}

/// The tokens that a completion adds to the running total: its total token
/// count, or none when it reports no usage.
pub fn completion_tokens(resp: &ChatCompletionResponse) -> (r: u64)
    ensures
        r == (match resp.usage {
            Some(u) => u.total_tokens as u64,
            None => 0,
        }),
{
    match &resp.usage {
        Some(u) => u.total_tokens as u64,
        None => 0,
    }
}

/// The log entry of a proxied request that succeeded: a `POST` to `path`
/// for `model` with status 200, the latency, and the token counts of the
/// usage, if reported.
pub fn completion_log(
    id: String,
    timestamp: String,
    path: &str,
    model: String,
    latency_ms: u64,
    usage: &Option<Usage>,
) -> (r: RequestLog)
    ensures
        r.id@ == id@,
        r.timestamp@ == timestamp@,
        r.method@ == "POST"@,
        r.path@ == path@,
        r.model@ == model@,
        r.status == 200,
        r.latency_ms == latency_ms,
        r.prompt_tokens == (match usage {
            Some(u) => Some(u.prompt_tokens),
            None => None,
        }),
        r.completion_tokens == (match usage {
            Some(u) => Some(u.completion_tokens),
            None => None,
        }),
{
    let (prompt_tokens, completion_tokens) = match usage {
        Some(u) => (Some(u.prompt_tokens), Some(u.completion_tokens)),
        None => (None, None),
    };
    RequestLog {
        id,
        timestamp,
        method: owned("POST"),
        path: owned(path),
        model,
        status: 200,
        latency_ms,
        prompt_tokens,
        completion_tokens,
    }
}

} // verus!
