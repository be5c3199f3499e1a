use chatui_rs::parse_completion;
use chatui_rs::APIError;
use chatui_rs::Error;
use chatui_rs::Message;
use chatui_rs::OpenAIClient;
use chatui_rs::OpenAIConfigBuilder;
use chatui_rs::Role;

fn fresh_client() -> OpenAIClient {
    OpenAIClient::new(OpenAIConfigBuilder::new().api_key("k").build().unwrap())
}

fn reply_body(reply: &str) -> String {
    format!(
        r#"{{"model":"gpt-4o","usage":{{"prompt_tokens":4,"completion_tokens":5,"total_tokens":9}},"choices":[{{"message":{{"role":"assistant","content":"{}"}},"finish_reason":"stop","index":0}}]}}"#,
        reply
    )
}

#[test]
fn message_factories_tag_roles() {
    assert_eq!(Message::system("s").role, Role::System);
    assert_eq!(Message::user("u").role, Role::User);
    assert_eq!(Message::assistant("a").role, Role::Assistant);
    assert_eq!(Message::user("u").content, "u");
}

#[test]
fn successful_turns_alternate_user_and_assistant() {
    let mut client = fresh_client();
    let inputs = ["one", "two", "three"];
    let replies = ["alpha", "beta", "gamma"];
    for (input, reply) in inputs.iter().zip(replies.iter()) {
        let _body = client.chat_request(input);
        let got = client.chat_response(Ok(reply_body(reply))).unwrap();
        assert_eq!(got, *reply);
    }
    let transcript = client.conversation();
    assert_eq!(transcript.len(), 6);
    for i in 0..3 {
        assert_eq!(transcript[2 * i].role, Role::User);
        assert_eq!(transcript[2 * i].content, inputs[i]);
        assert_eq!(transcript[2 * i + 1].role, Role::Assistant);
        assert_eq!(transcript[2 * i + 1].content, replies[i]);
    }
}

#[test]
fn failed_turn_keeps_only_the_user_message() {
    let mut client = fresh_client();
    let _body = client.chat_request("hello");
    let r = client.chat_response(Err(Error::RequestFailed(String::from("connection refused"))));
    assert!(matches!(r, Err(Error::RequestFailed(_))));
    assert_eq!(client.conversation().len(), 1);
    assert_eq!(client.conversation()[0].role, Role::User);
    assert_eq!(client.conversation()[0].content, "hello");
}

#[test]
fn parse_stage_failure_keeps_only_the_user_message() {
    let mut client = fresh_client();
    let _body = client.chat_request("hello");
    let r = client.chat_response(Ok(String::from("not json at all")));
    assert!(matches!(r, Err(Error::ResponseParseError(_))));
    assert_eq!(client.conversation().len(), 1);
}

#[test]
fn io_failure_is_forwarded_unchanged() {
    let mut client = fresh_client();
    let _body = client.chat_request("hello");
    let r = client.chat_response(Err(Error::IoError(String::from("pipe closed"))));
    match r {
        Err(Error::IoError(msg)) => assert_eq!(msg, "pipe closed"),
        _ => panic!("expected the transport outcome's own error"),
    }
}

#[test]
fn clear_conversation_is_idempotent_and_resets_history() {
    let mut client = fresh_client();
    client.clear_conversation();
    assert_eq!(client.conversation().len(), 0);

    let _ = client.chat_request("one");
    let _ = client.chat_response(Ok(reply_body("alpha"))).unwrap();
    let _ = client.chat_request("two");
    let _ = client.chat_response(Ok(reply_body("beta"))).unwrap();
    client.clear_conversation();
    assert_eq!(client.conversation().len(), 0);
    client.clear_conversation();
    assert_eq!(client.conversation().len(), 0);

    let _ = client.chat_request("fresh start");
    let _ = client.chat_response(Ok(reply_body("hi"))).unwrap();
    assert_eq!(client.conversation().len(), 2);
    assert_eq!(client.conversation()[0].content, "fresh start");
}

#[test]
fn empty_choices_are_rejected_not_defaulted() {
    let body = r#"{"model":"gpt-4o","usage":{"prompt_tokens":1,"completion_tokens":0,"total_tokens":1},"choices":[]}"#;
    let completion = parse_completion(body).unwrap();
    assert!(matches!(completion.message(), Err(Error::UnexpectedResponse(_))));

    let mut client = fresh_client();
    let _ = client.chat_request("hello");
    let r = client.chat_response(Ok(String::from(body)));
    assert!(matches!(r, Err(Error::UnexpectedResponse(_))));
    assert_eq!(client.conversation().len(), 1);
}

#[test]
fn parse_completion_decodes_the_full_shape() {
    let completion = parse_completion(&reply_body("hi there")).unwrap();
    assert_eq!(completion.model, "gpt-4o");
    assert_eq!(completion.usage.prompt_tokens, 4);
    assert_eq!(completion.usage.completion_tokens, 5);
    assert_eq!(completion.usage.total_tokens, 9);
    assert_eq!(completion.message_choices.len(), 1);
    assert_eq!(completion.message_choices[0].finish_reason, "stop");
    assert_eq!(completion.message_choices[0].index, 0);
    let m = completion.message().unwrap();
    assert_eq!(m.role, Role::Assistant);
    assert_eq!(m.content, "hi there");
}

#[test]
fn malformed_shapes_are_parse_errors() {
    // Structurally valid JSON, wrong shape.
    let missing_usage = r#"{"model":"gpt-4o","choices":[]}"#;
    assert!(matches!(parse_completion(missing_usage), Err(Error::ResponseParseError(_))));
    // A role outside the fixed vocabulary.
    let bad_role = r#"{"model":"m","usage":{"prompt_tokens":1,"completion_tokens":1,"total_tokens":2},"choices":[{"message":{"role":"robot","content":"x"},"finish_reason":"stop","index":0}]}"#;
    assert!(matches!(parse_completion(bad_role), Err(Error::ResponseParseError(_))));
    // choices of the wrong shape.
    let bad_choices = r#"{"model":"m","usage":{"prompt_tokens":1,"completion_tokens":1,"total_tokens":2},"choices":{}}"#;
    assert!(matches!(parse_completion(bad_choices), Err(Error::ResponseParseError(_))));
    // A token counter that does not fit 32 bits.
    let huge = r#"{"model":"m","usage":{"prompt_tokens":1,"completion_tokens":1,"total_tokens":5000000000},"choices":[]}"#;
    assert!(matches!(parse_completion(huge), Err(Error::ResponseParseError(_))));
}

#[test]
fn api_error_slot_carries_the_service_report() {
    let e = Error::APIError(APIError {
        message: String::from("rate limited"),
        error_type: String::from("rate_limit"),
        code: Some(String::from("429")),
        param: None,
    });
    match e {
        Error::APIError(inner) => {
            assert_eq!(inner.message, "rate limited");
            assert_eq!(inner.error_type, "rate_limit");
            assert_eq!(inner.code.as_deref(), Some("429"));
            assert!(inner.param.is_none());
        },
        _ => panic!("wrong variant"),
    }
}

#[test]
fn client_exposes_transport_settings() {
    let client = OpenAIClient::new(
        OpenAIConfigBuilder::new().api_key("secret").timeout(42).build().unwrap(),
    );
    assert_eq!(client.api_key(), "secret");
    assert_eq!(client.timeout_secs(), 42);
}
