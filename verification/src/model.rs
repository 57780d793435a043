//! The data that the proxy keeps and exchanges: upstream providers, routing
//! rules, request logs, status reports, and the request and response bodies of
//! the OpenAI and Anthropic APIs.
//!
//! Each type has a view made of sequences of characters, over which the
//! contracts of the library are stated.

use vstd::prelude::*;

verus! {

/// The views of the elements of `s`, in order.
pub open spec fn views<T: View>(s: Seq<T>) -> Seq<T::V> {
    s.map_values(|t: T| t@)
}

/// The characters of an optional string.
pub open spec fn opt_str(o: Option<String>) -> Option<Seq<char>> {
    match o {
        Some(s) => Some(s@),
        None => None,
    }
}

/// A copy of an optional string.
pub fn clone_opt_string(o: &Option<String>) -> (r: Option<String>)
    ensures
        opt_str(r) == opt_str(*o),
{
    match o {
        Some(s) => Some(s.clone()),
        None => None,
    }
}

// ---------------------------------------------------------------------------
// Providers and routes
// ---------------------------------------------------------------------------

/// An upstream service that requests can be sent to.
#[derive(Debug)]
pub struct Provider {
    pub name: String,
    pub provider_type: String,
    pub base_url: String,
    pub api_key: Option<String>,
    pub enabled: bool,
}

pub struct ProviderView {
    pub name: Seq<char>,
    pub provider_type: Seq<char>,
    pub base_url: Seq<char>,
    pub api_key: Option<Seq<char>>,
    pub enabled: bool,
}

impl View for Provider {
    type V = ProviderView;

    open spec fn view(&self) -> ProviderView {
        ProviderView {
            name: self.name@,
            provider_type: self.provider_type@,
            base_url: self.base_url@,
            api_key: opt_str(self.api_key),
            enabled: self.enabled,
        }
    }
}

impl Clone for Provider {
    fn clone(&self) -> (r: Self)
        ensures
            r@ == self@,
    {
        Provider {
            name: self.name.clone(),
            provider_type: self.provider_type.clone(),
            base_url: self.base_url.clone(),
            api_key: clone_opt_string(&self.api_key),
            enabled: self.enabled,
        }
    }
}

/// A routing rule: requests for models that match `pattern` go to the
/// provider named `provider`, with the model renamed by the optional
/// `model` template. Lower `priority` numbers are preferred.
#[derive(Debug)]
pub struct Route {
    pub pattern: String,
    pub provider: String,
    pub model: Option<String>,
    pub priority: u32,
}

pub struct RouteView {
    pub pattern: Seq<char>,
    pub provider: Seq<char>,
    pub model: Option<Seq<char>>,
    pub priority: u32,
}

impl View for Route {
    type V = RouteView;

    open spec fn view(&self) -> RouteView {
        RouteView {
            pattern: self.pattern@,
            provider: self.provider@,
            model: opt_str(self.model),
            priority: self.priority,
        }
    }
}

impl Clone for Route {
    fn clone(&self) -> (r: Self)
        ensures
            r@ == self@,
    {
        Route {
            pattern: self.pattern.clone(),
            provider: self.provider.clone(),
            model: clone_opt_string(&self.model),
            priority: self.priority,
        }
    }
}

// ---------------------------------------------------------------------------
// Logs and status
// ---------------------------------------------------------------------------

/// One proxied request, as it is logged. `timestamp` is an RFC 3339 text.
#[derive(Debug)]
pub struct RequestLog {
    pub id: String,
    pub timestamp: String,
    pub method: String,
    pub path: String,
    pub model: String,
    pub status: u16,
    pub latency_ms: u64,
    pub prompt_tokens: Option<u32>,
    pub completion_tokens: Option<u32>,
}

/// A model that an upstream provider offers.
#[derive(Debug)]
pub struct ModelInfo {
    pub id: String,
    pub object: String,
    pub created: i64,
    pub owned_by: String,
}

pub struct ModelInfoView {
    pub id: Seq<char>,
    pub object: Seq<char>,
    pub created: i64,
    pub owned_by: Seq<char>,
}

impl View for ModelInfo {
    type V = ModelInfoView;

    open spec fn view(&self) -> ModelInfoView {
        ModelInfoView {
            id: self.id@,
            object: self.object@,
            created: self.created,
            owned_by: self.owned_by@,
        }
    }
}

/// The health of one provider. `last_check` is an RFC 3339 text.
#[derive(Debug)]
pub struct ProviderStatus {
    pub name: String,
    pub healthy: bool,
    pub latency_ms: Option<u64>,
    pub last_check: Option<String>,
}

pub struct ProviderStatusView {
    pub name: Seq<char>,
    pub healthy: bool,
    pub latency_ms: Option<u64>,
    pub last_check: Option<Seq<char>>,
}

impl View for ProviderStatus {
    type V = ProviderStatusView;

    open spec fn view(&self) -> ProviderStatusView {
        ProviderStatusView {
            name: self.name@,
            healthy: self.healthy,
            latency_ms: self.latency_ms,
            last_check: opt_str(self.last_check),
        }
    }
}

/// What `/api/status` reports.
#[derive(Debug)]
pub struct ServerStatus {
    pub uptime_secs: u64,
    pub total_requests: u64,
    pub total_tokens: u64,
    pub active_connections: u32,
    pub providers: Vec<ProviderStatus>,
}

// ---------------------------------------------------------------------------
// OpenAI chat completions
// ---------------------------------------------------------------------------

/// The image of an image content part.
#[derive(Debug)]
pub struct ImageUrl {
    pub url: String,
    pub detail: Option<String>,
}

pub struct ImageUrlView {
    pub url: Seq<char>,
    pub detail: Option<Seq<char>>,
}

impl View for ImageUrl {
    type V = ImageUrlView;

    open spec fn view(&self) -> ImageUrlView {
        ImageUrlView { url: self.url@, detail: opt_str(self.detail) }
    }
}

/// One part of a multi-part message.
#[derive(Debug)]
pub struct ContentPart {
    pub part_type: String,
    pub text: Option<String>,
    pub image_url: Option<ImageUrl>,
}

pub struct ContentPartView {
    pub part_type: Seq<char>,
    pub text: Option<Seq<char>>,
    pub image_url: Option<ImageUrlView>,
}

impl View for ContentPart {
    type V = ContentPartView;

    open spec fn view(&self) -> ContentPartView {
        ContentPartView {
            part_type: self.part_type@,
            text: opt_str(self.text),
            image_url: match self.image_url {
                Some(u) => Some(u@),
                None => None,
            },
        }
    }
}

/// The content of a chat message: plain text, or parts.
#[derive(Debug)]
pub enum MessageContent {
    Text(String),
    Parts(Vec<ContentPart>),
}

pub enum MessageContentView {
    Text(Seq<char>),
    Parts(Seq<ContentPartView>),
}

impl View for MessageContent {
    type V = MessageContentView;

    open spec fn view(&self) -> MessageContentView {
        match self {
            MessageContent::Text(t) => MessageContentView::Text(t@),
            MessageContent::Parts(p) => MessageContentView::Parts(views(p@)),
        }
    }
}

/// The function that a tool call invokes.
#[derive(Debug)]
pub struct FunctionCall {
    pub name: String,
    pub arguments: String,
}

/// A tool call made by the assistant.
#[derive(Debug)]
pub struct ToolCall {
    pub id: String,
    pub call_type: String,
    pub function: FunctionCall,
}

/// A chat message.
#[derive(Debug)]
pub struct Message {
    pub role: String,
    pub content: Option<MessageContent>,
    pub name: Option<String>,
    pub tool_calls: Vec<ToolCall>,
    pub tool_call_id: Option<String>,
}

/// The view of a message; `tool_calls` is kept by its length.
pub struct MessageView {
    pub role: Seq<char>,
    pub content: Option<MessageContentView>,
    pub name: Option<Seq<char>>,
    pub tool_calls_len: nat,
    pub tool_call_id: Option<Seq<char>>,
}

impl View for Message {
    type V = MessageView;

    open spec fn view(&self) -> MessageView {
        MessageView {
            role: self.role@,
            content: match self.content {
                Some(c) => Some(c@),
                None => None,
            },
            name: opt_str(self.name),
            tool_calls_len: self.tool_calls@.len(),
            tool_call_id: opt_str(self.tool_call_id),
        }
    }
}

/// The part of a chat completion request that the proxy reads and writes.
/// Sampling parameters, tools and other fields pass through the server
/// untouched and are not held here.
#[derive(Debug)]
pub struct ChatCompletionRequest {
    pub model: String,
    pub messages: Vec<Message>,
    pub max_tokens: Option<u32>,
    pub stream: Option<bool>,
}

pub struct ChatCompletionRequestView {
    pub model: Seq<char>,
    pub messages: Seq<MessageView>,
    pub max_tokens: Option<u32>,
    pub stream: Option<bool>,
}

impl View for ChatCompletionRequest {
    type V = ChatCompletionRequestView;

    open spec fn view(&self) -> ChatCompletionRequestView {
        ChatCompletionRequestView {
            model: self.model@,
            messages: views(self.messages@),
            max_tokens: self.max_tokens,
            stream: self.stream,
        }
    }
}

/// Token counts of a completion.
#[derive(Debug)]
pub struct Usage {
    pub prompt_tokens: u32,
    pub completion_tokens: u32,
    pub total_tokens: u32,
}

/// One choice of a completion.
#[derive(Debug)]
pub struct Choice {
    pub index: u32,
    pub message: Message,
    pub finish_reason: Option<String>,
}

/// A chat completion response.
#[derive(Debug)]
pub struct ChatCompletionResponse {
    pub id: String,
    pub model: String,
    pub choices: Vec<Choice>,
    pub usage: Option<Usage>,
}

// ---------------------------------------------------------------------------
// Anthropic messages
// ---------------------------------------------------------------------------

/// The source of an image block.
#[derive(Debug)]
pub struct ImageSource {
    pub source_type: String,
    pub media_type: String,
    pub data: String,
}

/// One block of an Anthropic message.
#[derive(Debug)]
pub struct ContentBlock {
    pub block_type: String,
    pub text: Option<String>,
    pub source: Option<ImageSource>,
}

/// The content of an Anthropic message: plain text, or blocks.
#[derive(Debug)]
pub enum AnthropicContent {
    Text(String),
    Blocks(Vec<ContentBlock>),
}

/// An Anthropic message.
#[derive(Debug)]
pub struct AnthropicMessage {
    pub role: String,
    pub content: AnthropicContent,
}

/// An Anthropic messages request.
#[derive(Debug)]
pub struct AnthropicRequest {
    pub model: String,
    pub messages: Vec<AnthropicMessage>,
    pub system: Option<String>,
    pub max_tokens: u32,
    pub stream: Option<bool>,
}

/// One block of an Anthropic response.
#[derive(Debug)]
pub struct ResponseBlock {
    pub block_type: String,
    pub text: Option<String>,
}

/// Token counts of an Anthropic response.
#[derive(Debug)]
pub struct AnthropicUsage {
    pub input_tokens: u32,
    pub output_tokens: u32,
}

/// An Anthropic messages response.
#[derive(Debug)]
pub struct AnthropicResponse {
    pub id: String,
    pub response_type: String,
    pub role: String,
    pub content: Vec<ResponseBlock>,
    pub model: String,
    pub stop_reason: Option<String>,
    pub usage: AnthropicUsage,
}

} // verus!
