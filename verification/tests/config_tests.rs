use chatui_rs::decimal::u64_to_string;
use chatui_rs::ChatModel;
use chatui_rs::Decimal;
use chatui_rs::Error;
use chatui_rs::OpenAIConfigBuilder;

#[test]
fn build_without_api_key_fails() {
    let r = OpenAIConfigBuilder::new().build();
    assert!(matches!(r, Err(Error::ConfigError(_))));
    match OpenAIConfigBuilder::new().model(ChatModel::GPT4Turbo).build() {
        Err(Error::ConfigError(field)) => assert_eq!(field, "api_key"),
        _ => panic!("expected a configuration error"),
    }
}

#[test]
fn build_with_only_api_key_applies_defaults() {
    let c = OpenAIConfigBuilder::new().api_key("k").build().unwrap();
    assert_eq!(c.api_key, "k");
    assert_eq!(c.model, ChatModel::GPT4o);
    assert_eq!(c.temperature, Decimal { neg: false, whole: 1, centi: 0 });
    assert_eq!(c.timeout, 10);
    assert!(c.max_tokens.is_none());
    assert!(c.top_p.is_none());
    assert!(c.frequency_penalty.is_none());
    assert!(c.presence_penalty.is_none());
}

#[test]
fn build_keeps_every_set_field() {
    let c = OpenAIConfigBuilder::new()
        .api_key("secret")
        .model(ChatModel::GPT4oMini)
        .temperature(Decimal::from_centi(50))
        .max_tokens(256)
        .top_p(Decimal::from_centi(90))
        .frequency_penalty(Decimal::from_centi(-25))
        .presence_penalty(Decimal::from_centi(125))
        .timeout(30)
        .build()
        .unwrap();
    assert_eq!(c.api_key, "secret");
    assert_eq!(c.model, ChatModel::GPT4oMini);
    assert_eq!(c.temperature, Decimal::from_centi(50));
    assert_eq!(c.max_tokens, Some(256));
    assert_eq!(c.top_p, Some(Decimal::from_centi(90)));
    assert_eq!(c.frequency_penalty, Some(Decimal::from_centi(-25)));
    assert_eq!(c.presence_penalty, Some(Decimal::from_centi(125)));
    assert_eq!(c.timeout, 30);
}

#[test]
fn decimal_from_centi_splits_sign_whole_and_fraction() {
    assert_eq!(Decimal::from_centi(75), Decimal { neg: false, whole: 0, centi: 75 });
    assert_eq!(Decimal::from_centi(-150), Decimal { neg: true, whole: 1, centi: 50 });
    assert_eq!(Decimal::from_centi(100), Decimal { neg: false, whole: 1, centi: 0 });
    assert_eq!(Decimal::from_centi(0), Decimal { neg: false, whole: 0, centi: 0 });
}

#[test]
fn decimal_render_gives_exact_number_text() {
    assert_eq!(Decimal::from_centi(100).render(), "1.0");
    assert_eq!(Decimal::from_centi(75).render(), "0.75");
    assert_eq!(Decimal::from_centi(-150).render(), "-1.5");
    assert_eq!(Decimal::from_centi(0).render(), "0.0");
    assert_eq!(Decimal::from_centi(205).render(), "2.05");
}

#[test]
fn u64_rendering_gives_exact_digits() {
    assert_eq!(u64_to_string(0), "0");
    assert_eq!(u64_to_string(7), "7");
    assert_eq!(u64_to_string(1234567890), "1234567890");
    assert_eq!(u64_to_string(u64::MAX), "18446744073709551615");
}
