use chatui_rs::ChatModel;
use chatui_rs::Decimal;
use chatui_rs::OpenAIClient;
use chatui_rs::OpenAIConfigBuilder;
use chatui_rs::Role;

fn client_with(builder: OpenAIConfigBuilder) -> OpenAIClient {
    OpenAIClient::new(builder.build().unwrap())
}

#[test]
fn role_wire_strings_are_fixed() {
    assert_eq!(Role::System.wire_str(), "system");
    assert_eq!(Role::Assistant.wire_str(), "assistant");
    assert_eq!(Role::User.wire_str(), "user");
}

#[test]
fn model_wire_strings_are_fixed_and_stable() {
    assert_eq!(ChatModel::GPT4o.as_ref(), "gpt-4o");
    assert_eq!(ChatModel::GPT4oMini.as_ref(), "gpt-4o-mini");
    assert_eq!(ChatModel::GPT4Turbo.as_ref(), "gpt-4-turbo");
    // The mapping never changes between calls.
    assert_eq!(ChatModel::GPT4o.as_ref(), ChatModel::GPT4o.as_ref());
}

#[test]
fn one_shot_payload_matches_expected_text_exactly() {
    let client = client_with(
        OpenAIConfigBuilder::new()
            .api_key("k")
            .model(ChatModel::GPT4o)
            .temperature(Decimal::from_centi(100)),
    );
    let body = client.send_message_request("hello");
    assert_eq!(
        body,
        r#"{"model":"gpt-4o","messages":[{"role":"user","content":"hello"}],"temperature":1.0}"#
    );
    // And as a JSON value, independent of key ordering.
    let got: serde_json::Value = serde_json::from_str(&body).unwrap();
    let expected: serde_json::Value = serde_json::from_str(
        r#"{"temperature":1.0,"messages":[{"content":"hello","role":"user"}],"model":"gpt-4o"}"#,
    )
    .unwrap();
    assert_eq!(got, expected);
}

#[test]
fn unset_tuning_parameters_contribute_no_keys() {
    let client = client_with(OpenAIConfigBuilder::new().api_key("k"));
    let body = client.send_message_request("x");
    let v: serde_json::Value = serde_json::from_str(&body).unwrap();
    let obj = v.as_object().unwrap();
    assert_eq!(obj.len(), 3);
    assert!(obj.contains_key("model"));
    assert!(obj.contains_key("messages"));
    assert!(obj.contains_key("temperature"));
    assert!(!obj.contains_key("max_tokens"));
    assert!(!obj.contains_key("top_p"));
    assert!(!obj.contains_key("frequency_penalty"));
    assert!(!obj.contains_key("presence_penalty"));
}

#[test]
fn each_tuning_parameter_appears_exactly_when_set() {
    let client = client_with(OpenAIConfigBuilder::new().api_key("k").max_tokens(512));
    let v: serde_json::Value =
        serde_json::from_str(&client.send_message_request("x")).unwrap();
    assert_eq!(v.get("max_tokens").unwrap().as_u64(), Some(512));
    assert!(v.get("top_p").is_none());

    let client = client_with(OpenAIConfigBuilder::new().api_key("k").top_p(Decimal::from_centi(90)));
    let v: serde_json::Value =
        serde_json::from_str(&client.send_message_request("x")).unwrap();
    assert_eq!(v.get("top_p").unwrap().as_f64(), Some(0.9));
    assert!(v.get("max_tokens").is_none());

    let client = client_with(
        OpenAIConfigBuilder::new().api_key("k").frequency_penalty(Decimal::from_centi(-25)),
    );
    let v: serde_json::Value =
        serde_json::from_str(&client.send_message_request("x")).unwrap();
    assert_eq!(v.get("frequency_penalty").unwrap().as_f64(), Some(-0.25));

    let client = client_with(
        OpenAIConfigBuilder::new().api_key("k").presence_penalty(Decimal::from_centi(125)),
    );
    let v: serde_json::Value =
        serde_json::from_str(&client.send_message_request("x")).unwrap();
    assert_eq!(v.get("presence_penalty").unwrap().as_f64(), Some(1.25));
}

#[test]
fn all_tuning_parameters_together_keep_field_order() {
    let client = client_with(
        OpenAIConfigBuilder::new()
            .api_key("k")
            .max_tokens(16)
            .top_p(Decimal::from_centi(100))
            .frequency_penalty(Decimal::from_centi(0))
            .presence_penalty(Decimal::from_centi(-200)),
    );
    let body = client.send_message_request("hi");
    let expected = r#"{"model":"gpt-4o","messages":[{"role":"user","content":"hi"}],"temperature":1.0,"max_tokens":16,"top_p":1.0,"frequency_penalty":0.0,"presence_penalty":-2.0}"#;
    assert_eq!(body, expected);
}

#[test]
fn message_content_is_escaped_and_round_trips() {
    let content = "a \"quoted\" string with \\ backslash,\nnewline,\ttab and \u{1} control";
    let client = client_with(OpenAIConfigBuilder::new().api_key("k"));
    let body = client.send_message_request(content);
    let v: serde_json::Value = serde_json::from_str(&body).unwrap();
    assert_eq!(v["messages"][0]["content"].as_str(), Some(content));
    assert_eq!(v["messages"][0]["role"].as_str(), Some("user"));
}

#[test]
fn full_transcript_is_sent_in_order() {
    let mut client = client_with(OpenAIConfigBuilder::new().api_key("k"));
    let _ = client.chat_request("first");
    let body = client.chat_request("second");
    let v: serde_json::Value = serde_json::from_str(&body).unwrap();
    let msgs = v["messages"].as_array().unwrap();
    assert_eq!(msgs.len(), 2);
    assert_eq!(msgs[0]["content"].as_str(), Some("first"));
    assert_eq!(msgs[1]["content"].as_str(), Some("second"));
}
