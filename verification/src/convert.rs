//! Conversion between the Anthropic messages format and the OpenAI chat
//! completions format, for serving `/v1/messages` through OpenAI-compatible
//! upstreams.

use vstd::prelude::*;
use vstd::string::*;

use crate::model::{
    opt_str, views, AnthropicContent, AnthropicMessage, AnthropicRequest, AnthropicResponse,
    AnthropicUsage, ChatCompletionRequest, ChatCompletionRequestView, ChatCompletionResponse,
    ContentBlock, ContentPart, ContentPartView, ImageUrl, ImageUrlView, Message, MessageContent,
    MessageContentView, MessageView, ResponseBlock,
};
use crate::text::{concat2, concat3, owned, str_eq};

verus! {

// ---------------------------------------------------------------------------
// Anthropic request to OpenAI request
// ---------------------------------------------------------------------------

/// The OpenAI content part of an Anthropic block: text blocks with text
/// become text parts, image blocks with a source become image parts with a
/// `data:` URL; other blocks are dropped.
pub open spec fn block_to_part(b: ContentBlock) -> Option<ContentPartView> {
    if b.block_type@ == "text"@ {
        match b.text {
            Some(t) => Some(ContentPartView { part_type: "text"@, text: Some(t@), image_url: None }),
            None => None,
        }
    } else if b.block_type@ == "image"@ {
        match b.source {
            Some(s) => Some(
                ContentPartView {
                    part_type: "image_url"@,
                    text: None,
                    image_url: Some(
                        ImageUrlView {
                            url: "data:"@ + s.media_type@ + ";base64,"@ + s.data@,
                            detail: None,
                        },
                    ),
                },
            ),
            None => None,
        }
    } else {
        None
    }
}

/// The OpenAI content of an Anthropic message: text stays text; blocks
/// become parts, and no content at all when no block converts.
pub open spec fn content_to_openai(c: AnthropicContent) -> Option<MessageContentView> {
    match c {
        AnthropicContent::Text(t) => Some(MessageContentView::Text(t@)),
        AnthropicContent::Blocks(bs) => {
            let parts = bs@.filter_map(|b: ContentBlock| block_to_part(b));
            if parts.len() == 0 {
                None
            } else {
                Some(MessageContentView::Parts(parts))
            }
        },
    }
}

/// The OpenAI message of an Anthropic message.
pub open spec fn message_to_openai(m: AnthropicMessage) -> MessageView {
    MessageView {
        role: m.role@,
        content: content_to_openai(m.content),
        name: None,
        tool_calls_len: 0,
        tool_call_id: None,
    }
}

/// A system message with the text `s`.
pub open spec fn system_message(s: Seq<char>) -> MessageView {
    MessageView {
        role: "system"@,
        content: Some(MessageContentView::Text(s)),
        name: None,
        tool_calls_len: 0,
        tool_call_id: None,
    }
}

/// The OpenAI request of an Anthropic request: the system prompt, if any,
/// as a first system message, then the messages converted one by one.
pub open spec fn request_to_openai(req: AnthropicRequest) -> ChatCompletionRequestView {
    let system: Seq<MessageView> = match req.system {
        Some(s) => seq![system_message(s@)],
        None => Seq::empty(),
    };
    ChatCompletionRequestView {
        model: req.model@,
        messages: system + req.messages@.map_values(|m: AnthropicMessage| message_to_openai(m)),
        max_tokens: Some(req.max_tokens),
        stream: req.stream,
    }
}

/// The OpenAI part of one Anthropic block.
fn convert_block(b: &ContentBlock) -> (r: Option<ContentPart>)
    ensures
        match r {
            Some(p) => block_to_part(*b) == Some(p@),
            None => block_to_part(*b) is None,
        },
{
    if str_eq(b.block_type.as_str(), "text") {
        match &b.text {
            Some(t) => Some(
                ContentPart { part_type: owned("text"), text: Some(t.clone()), image_url: None },
            ),
            None => None,
        }
    } else if str_eq(b.block_type.as_str(), "image") {
        match &b.source {
            Some(s) => {
                let head = concat3("data:", s.media_type.as_str(), ";base64,");
                let url = concat2(head.as_str(), s.data.as_str());
                Some(
                    ContentPart {
                        part_type: owned("image_url"),
                        text: None,
                        image_url: Some(ImageUrl { url, detail: None }),
                    },
                )
            },
            None => None,
        }
    } else {
        None
    }
}

/// The OpenAI content of an Anthropic message content.
fn convert_content(c: &AnthropicContent) -> (r: Option<MessageContent>)
    ensures
        (match r {
            Some(x) => Some(x@),
            None => None,
        }) == content_to_openai(*c),
{
    match c {
        AnthropicContent::Text(t) => Some(MessageContent::Text(t.clone())),
        AnthropicContent::Blocks(bs) => {
            let ghost f = |b: ContentBlock| block_to_part(b);
            let mut parts: Vec<ContentPart> = Vec::new();
            let mut i: usize = 0;
            while i < bs.len()
                invariant
                    i <= bs.len(),
                    f == (|b: ContentBlock| block_to_part(b)),
                    views(parts@) == bs@.take(i as int).filter_map(f),
                decreases bs.len() - i,
            {
                proof {
                    bs@.lemma_filter_map_take_succ(f, i as int);
                }
                let ghost before = parts@;
                match convert_block(&bs[i]) {
                    Some(p) => {
                        let ghost pv = p@;
                        parts.push(p);
                        assert(views(parts@) =~= views(before) + seq![pv]);
                    },
                    None => {},
                }
                i = i + 1;
            }
            assert(bs@.take(bs@.len() as int) =~= bs@);
            if parts.len() == 0 {
                None
            } else {
                Some(MessageContent::Parts(parts))
            }
        },
    }
}

/// The OpenAI chat completion request that an Anthropic messages request
/// stands for.
pub fn anthropic_to_openai(req: &AnthropicRequest) -> (r: ChatCompletionRequest)
    ensures
        r@ == request_to_openai(*req),
{
    let mut messages: Vec<Message> = Vec::new();
    if let Some(system) = &req.system {
        messages.push(
            Message {
                role: owned("system"),
                content: Some(MessageContent::Text(system.clone())),
                name: None,
                tool_calls: Vec::new(),
                tool_call_id: None,
            },
        );
    }
    let ghost head = views(messages@);
    let ghost f = |m: AnthropicMessage| message_to_openai(m);
    let mut i: usize = 0;
    while i < req.messages.len()
        invariant
            i <= req.messages.len(),
            head == (match req.system {
                Some(s) => seq![system_message(s@)],
                None => Seq::<MessageView>::empty(),
            }),
            f == (|m: AnthropicMessage| message_to_openai(m)),
            views(messages@) == head + req.messages@.take(i as int).map_values(f),
        decreases req.messages.len() - i,
    {
        let msg = &req.messages[i];
        let content = convert_content(&msg.content);
        let ghost before = messages@;
        messages.push(
            Message {
                role: msg.role.clone(),
                content,
                name: None,
                tool_calls: Vec::new(),
                tool_call_id: None,
            },
        );
        assert(views(messages@) =~= head + req.messages@.take(i + 1).map_values(f)) by {
            assert(req.messages@.take(i + 1).map_values(f) =~= req.messages@.take(
                i as int,
            ).map_values(f).push(f(req.messages@[i as int])));
            assert(views(messages@) =~= views(before).push(messages@[messages@.len() - 1]@));
        }
        i = i + 1;
    }
    assert(req.messages@.take(req.messages@.len() as int) =~= req.messages@);
    ChatCompletionRequest {
        model: req.model.clone(),
        messages,
        max_tokens: Some(req.max_tokens),
        stream: req.stream,
    }
}

// ---------------------------------------------------------------------------
// OpenAI response to Anthropic response
// ---------------------------------------------------------------------------

/// The text of the first choice, when its content is plain text; empty
/// otherwise.
pub open spec fn first_choice_text(resp: ChatCompletionResponse) -> Seq<char> {
    if resp.choices@.len() > 0 {
        match resp.choices@[0].message.content {
            Some(MessageContent::Text(t)) => t@,
            _ => Seq::empty(),
        }
    } else {
        Seq::empty()
    }
}

/// The Anthropic stop reason of an OpenAI finish reason: `length` is
/// `max_tokens`, anything else `end_turn`.
pub open spec fn stop_reason_of(finish: Seq<char>) -> Seq<char> {
    if finish == "stop"@ {
        "end_turn"@
    } else if finish == "length"@ {
        "max_tokens"@
    } else {
        "end_turn"@
    }
}

/// The stop reason of the first choice, if it has a finish reason.
pub open spec fn first_choice_stop_reason(resp: ChatCompletionResponse) -> Option<Seq<char>> {
    if resp.choices@.len() > 0 {
        match resp.choices@[0].finish_reason {
            Some(f) => Some(stop_reason_of(f@)),
            None => None,
        }
    } else {
        None
    }
}

/// The Anthropic stop reason of an OpenAI finish reason.
pub fn map_stop_reason(finish: &str) -> (r: String)
    ensures
        r@ == stop_reason_of(finish@),
{
    if str_eq(finish, "stop") {
        owned("end_turn")
    } else if str_eq(finish, "length") {
        owned("max_tokens")
    } else {
        owned("end_turn")
    }
}

/// The Anthropic messages response that an OpenAI chat completion stands
/// for: one text block with the text of the first choice, the stop reason
/// of its finish reason, and the token counts (zero when absent).
pub fn openai_to_anthropic(resp: &ChatCompletionResponse) -> (r: AnthropicResponse)
    ensures
        r.id@ == "msg_"@ + resp.id@,
        r.response_type@ == "message"@,
        r.role@ == "assistant"@,
        r.content@.len() == 1,
        r.content@[0].block_type@ == "text"@,
        opt_str(r.content@[0].text) == Some(first_choice_text(*resp)),
        r.model@ == resp.model@,
        opt_str(r.stop_reason) == first_choice_stop_reason(*resp),
        r.usage.input_tokens == (match resp.usage {
            Some(u) => u.prompt_tokens,
            None => 0,
        }),
        r.usage.output_tokens == (match resp.usage {
            Some(u) => u.completion_tokens,
            None => 0,
        }),
{
    let text = if resp.choices.len() > 0 {
        match &resp.choices[0].message.content {
            Some(MessageContent::Text(t)) => t.clone(),
            _ => String::new(),
        }
    } else {
        String::new()
    };
    let stop_reason = if resp.choices.len() > 0 {
        match &resp.choices[0].finish_reason {
            Some(f) => Some(map_stop_reason(f.as_str())),
            None => None,
        }
    } else {
        None
    };
    let (input_tokens, output_tokens) = match &resp.usage {
        Some(u) => (u.prompt_tokens, u.completion_tokens),
        None => (0, 0),
    };
    let mut content: Vec<ResponseBlock> = Vec::new();
    content.push(ResponseBlock { block_type: owned("text"), text: Some(text) });
    AnthropicResponse {
        id: concat2("msg_", resp.id.as_str()),
        response_type: owned("message"),
        role: owned("assistant"),
        content,
        model: resp.model.clone(),
        stop_reason,
        usage: AnthropicUsage { input_tokens, output_tokens },
    }
}

/// The conversion of a request keeps the conversation as it was: the
/// system prompt, if any, comes first as a `system` message with its text;
/// then each message follows in order with its own role, a text message
/// with its text; and the model, token limit and streaming flag are kept.
pub proof fn law_request_keeps_conversation(req: AnthropicRequest)
    ensures
        ({
            let r = request_to_openai(req);
            let s: int = if req.system is Some {
                1
            } else {
                0
            };
            &&& r.model == req.model@
            &&& r.max_tokens == Some(req.max_tokens)
            &&& r.stream == req.stream
            &&& r.messages.len() == s + req.messages@.len()
            &&& (req.system matches Some(x) ==> r.messages[0].role == "system"@
                && r.messages[0].content == Some(MessageContentView::Text(x@)))
            &&& forall|i: int|
                0 <= i < req.messages@.len() ==> r.messages[s + i].role
                    == #[trigger] req.messages@[i].role@
            &&& forall|i: int|
                0 <= i < req.messages@.len() ==> (#[trigger] req.messages@[i].content matches AnthropicContent::Text(
                    t,
                ) ==> r.messages[s + i].content == Some(MessageContentView::Text(t@)))
        }),
{
    let r = request_to_openai(req);
    let s: int = if req.system is Some {
        1
    } else {
        0
    };
    let conv = req.messages@.map_values(|m: AnthropicMessage| message_to_openai(m));
    assert forall|i: int| 0 <= i < req.messages@.len() implies r.messages[s + i] == conv[i] by {}
}

/// The text of the answer is the text of the first choice whenever that
/// choice's content is plain text, whatever its finish reason; it is empty
/// when there is no choice or the first choice's content is not text.
pub proof fn law_answer_text(resp: ChatCompletionResponse)
    ensures
        resp.choices@.len() > 0 ==> (resp.choices@[0].message.content matches Some(
            MessageContent::Text(t),
        ) ==> first_choice_text(resp) == t@),
        (resp.choices@.len() == 0 || !(resp.choices@[0].message.content matches Some(
            MessageContent::Text(_),
        ))) ==> first_choice_text(resp).len() == 0,
{
}

/// The stop reason of an answer: `max_tokens` exactly when the completion
/// stopped at its length limit, `end_turn` for every other finish reason.
pub proof fn law_stop_reason(finish: Seq<char>)
    ensures
        finish == "length"@ ==> stop_reason_of(finish) == "max_tokens"@,
        finish != "length"@ ==> stop_reason_of(finish) == "end_turn"@,
{
    reveal_strlit("stop");
    reveal_strlit("length");
    assert("stop"@ != "length"@) by {
        assert("stop"@[0] != "length"@[0]);
    }
}

} // verus!
