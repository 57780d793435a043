use trestle::convert::{anthropic_to_openai, map_stop_reason, openai_to_anthropic};
use trestle::model::{
    AnthropicContent, AnthropicMessage, AnthropicRequest, ChatCompletionResponse, Choice,
    ContentBlock, ImageSource, Message, MessageContent, Usage,
};

fn text_block(t: &str) -> ContentBlock {
    ContentBlock { block_type: "text".to_string(), text: Some(t.to_string()), source: None }
}

#[test]
fn system_prompt_becomes_first_message() {
    let req = AnthropicRequest {
        model: "m".to_string(),
        messages: vec![AnthropicMessage {
            role: "user".to_string(),
            content: AnthropicContent::Text("hi".to_string()),
        }],
        system: Some("be brief".to_string()),
        max_tokens: 256,
        stream: Some(true),
    };
    let out = anthropic_to_openai(&req);
    assert_eq!(out.model, "m");
    assert_eq!(out.max_tokens, Some(256));
    assert_eq!(out.stream, Some(true));
    assert_eq!(out.messages.len(), 2);
    assert_eq!(out.messages[0].role, "system");
    match &out.messages[0].content {
        Some(MessageContent::Text(t)) => assert_eq!(t, "be brief"),
        _ => panic!("expected text"),
    }
    assert_eq!(out.messages[1].role, "user");
    match &out.messages[1].content {
        Some(MessageContent::Text(t)) => assert_eq!(t, "hi"),
        _ => panic!("expected text"),
    }
    assert!(out.messages[1].tool_calls.is_empty());
}

#[test]
fn blocks_become_parts() {
    let req = AnthropicRequest {
        model: "m".to_string(),
        messages: vec![AnthropicMessage {
            role: "user".to_string(),
            content: AnthropicContent::Blocks(vec![
                text_block("look"),
                ContentBlock {
                    block_type: "image".to_string(),
                    text: None,
                    source: Some(ImageSource {
                        source_type: "base64".to_string(),
                        media_type: "image/png".to_string(),
                        data: "AAAA".to_string(),
                    }),
                },
                ContentBlock { block_type: "tool_use".to_string(), text: None, source: None },
            ]),
        }],
        system: None,
        max_tokens: 10,
        stream: None,
    };
    let out = anthropic_to_openai(&req);
    assert_eq!(out.messages.len(), 1);
    match &out.messages[0].content {
        Some(MessageContent::Parts(parts)) => {
            assert_eq!(parts.len(), 2);
            assert_eq!(parts[0].part_type, "text");
            assert_eq!(parts[0].text.as_deref(), Some("look"));
            assert_eq!(parts[1].part_type, "image_url");
            assert_eq!(
                parts[1].image_url.as_ref().map(|u| u.url.clone()),
                Some("data:image/png;base64,AAAA".to_string())
            );
        }
        _ => panic!("expected parts"),
    }
}

#[test]
fn blocks_without_convertible_content_give_no_content() {
    let req = AnthropicRequest {
        model: "m".to_string(),
        messages: vec![AnthropicMessage {
            role: "assistant".to_string(),
            content: AnthropicContent::Blocks(vec![ContentBlock {
                block_type: "text".to_string(),
                text: None,
                source: None,
            }]),
        }],
        system: None,
        max_tokens: 1,
        stream: None,
    };
    let out = anthropic_to_openai(&req);
    assert!(out.messages[0].content.is_none());
}

fn response(finish: Option<&str>, usage: Option<Usage>, content: Option<MessageContent>) -> ChatCompletionResponse {
    ChatCompletionResponse {
        id: "abc".to_string(),
        model: "m1".to_string(),
        choices: vec![Choice {
            index: 0,
            message: Message {
                role: "assistant".to_string(),
                content,
                name: None,
                tool_calls: Vec::new(),
                tool_call_id: None,
            },
            finish_reason: finish.map(|f| f.to_string()),
        }],
        usage,
    }
}

#[test]
fn completion_becomes_message_response() {
    let resp = response(
        Some("length"),
        Some(Usage { prompt_tokens: 3, completion_tokens: 4, total_tokens: 7 }),
        Some(MessageContent::Text("hello".to_string())),
    );
    let out = openai_to_anthropic(&resp);
    assert_eq!(out.id, "msg_abc");
    assert_eq!(out.response_type, "message");
    assert_eq!(out.role, "assistant");
    assert_eq!(out.model, "m1");
    assert_eq!(out.content.len(), 1);
    assert_eq!(out.content[0].block_type, "text");
    assert_eq!(out.content[0].text.as_deref(), Some("hello"));
    assert_eq!(out.stop_reason.as_deref(), Some("max_tokens"));
    assert_eq!(out.usage.input_tokens, 3);
    assert_eq!(out.usage.output_tokens, 4);
}

#[test]
fn missing_parts_give_defaults() {
    let resp = response(None, None, Some(MessageContent::Parts(Vec::new())));
    let out = openai_to_anthropic(&resp);
    assert_eq!(out.content[0].text.as_deref(), Some(""));
    assert!(out.stop_reason.is_none());
    assert_eq!(out.usage.input_tokens, 0);
    assert_eq!(out.usage.output_tokens, 0);
    let empty = ChatCompletionResponse {
        id: "x".to_string(),
        model: "m".to_string(),
        choices: Vec::new(),
        usage: None,
    };
    let out = openai_to_anthropic(&empty);
    assert_eq!(out.content[0].text.as_deref(), Some(""));
    assert!(out.stop_reason.is_none());
}

#[test]
fn stop_reasons() {
    assert_eq!(map_stop_reason("stop"), "end_turn");
    assert_eq!(map_stop_reason("length"), "max_tokens");
    assert_eq!(map_stop_reason("tool_calls"), "end_turn");
}
