//! Client configuration and its builder.
//!
//! A configuration is immutable once built.  The builder applies the
//! documented defaults exactly once, at `build` time, and fails with a
//! configuration error when the required API key was never set.

use vstd::prelude::*;
use vstd::string::StringExecFns;

use crate::decimal::Decimal;
use crate::error::Error;
use crate::types::ChatModel;

verus! {

/// Immutable client configuration.
#[derive(Debug, Clone)]
pub struct OpenAIConfig {
    pub api_key: String,
    pub model: ChatModel,
    pub temperature: Decimal,
    pub max_tokens: Option<u32>,
    pub top_p: Option<Decimal>,
    pub frequency_penalty: Option<Decimal>,
    pub presence_penalty: Option<Decimal>,
    pub timeout: u64,
}

/// The mathematical model of a configuration.
pub struct ConfigView {
    pub api_key: Seq<char>,
    pub model: ChatModel,
    pub temperature: Decimal,
    pub max_tokens: Option<u32>,
    pub top_p: Option<Decimal>,
    pub frequency_penalty: Option<Decimal>,
    pub presence_penalty: Option<Decimal>,
    pub timeout: u64,
}

impl View for OpenAIConfig {
    type V = ConfigView;

    open spec fn view(&self) -> ConfigView {
        ConfigView {
            api_key: self.api_key@,
            model: self.model,
            temperature: self.temperature,
            max_tokens: self.max_tokens,
            top_p: self.top_p,
            frequency_penalty: self.frequency_penalty,
            presence_penalty: self.presence_penalty,
            timeout: self.timeout,
        }
    }
}

impl ConfigView {
    /// Every decimal parameter held by the configuration is a
    /// well-formed representation.
    pub open spec fn wf(self) -> bool {
        &&& self.temperature.wf()
        &&& (self.top_p matches Some(d) ==> d.wf())
        &&& (self.frequency_penalty matches Some(d) ==> d.wf())
        &&& (self.presence_penalty matches Some(d) ==> d.wf())
    }
}

/// Mutable staging area for an `OpenAIConfig`.  Every field is optional
/// here; `build` applies the defaults and checks the required key.
pub struct OpenAIConfigBuilder {
    pub api_key: Option<String>,
    pub model: Option<ChatModel>,
    pub temperature: Option<Decimal>,
    pub max_tokens: Option<u32>,
    pub top_p: Option<Decimal>,
    pub frequency_penalty: Option<Decimal>,
    pub presence_penalty: Option<Decimal>,
    pub timeout: Option<u64>,
}

impl Default for OpenAIConfigBuilder {
    /// An empty builder, same as `new`.
    fn default() -> (b: Self)
        ensures
            b.api_key_view() is None,
            b.model is None,
            b.temperature is None,
            b.max_tokens is None,
            b.top_p is None,
            b.frequency_penalty is None,
            b.presence_penalty is None,
            b.timeout is None,
    {
        OpenAIConfigBuilder::new()
    }
}

impl OpenAIConfigBuilder {
    /// An empty builder: nothing set yet.
    pub fn new() -> (b: Self)
        ensures
            b.api_key_view() is None,
            b.model is None,
            b.temperature is None,
            b.max_tokens is None,
            b.top_p is None,
            b.frequency_penalty is None,
            b.presence_penalty is None,
            b.timeout is None,
    {
        OpenAIConfigBuilder {
            api_key: None,
            model: None,
            temperature: None,
            max_tokens: None,
            top_p: None,
            frequency_penalty: None,
            presence_penalty: None,
            timeout: None,
        }
    }

    /// The key sequence currently staged, if any.
    pub open spec fn api_key_view(&self) -> Option<Seq<char>> {
        match self.api_key {
            Some(k) => Some(k@),
            None => None,
        }
    }

    /// Sets the required API key.
    pub fn api_key(self, key: &str) -> (b: Self)
        ensures
            b.api_key_view() == Some(key@),
            b.model == self.model,
            b.temperature == self.temperature,
            b.max_tokens == self.max_tokens,
            b.top_p == self.top_p,
            b.frequency_penalty == self.frequency_penalty,
            b.presence_penalty == self.presence_penalty,
            b.timeout == self.timeout,
    {
        OpenAIConfigBuilder { api_key: Some(key.to_owned()), ..self }
    }

    /// Selects the model.
    pub fn model(self, model: ChatModel) -> (b: Self)
        ensures
            b.model == Some(model),
            b.api_key_view() == self.api_key_view(),
            b.temperature == self.temperature,
            b.max_tokens == self.max_tokens,
            b.top_p == self.top_p,
            b.frequency_penalty == self.frequency_penalty,
            b.presence_penalty == self.presence_penalty,
            b.timeout == self.timeout,
    {
        OpenAIConfigBuilder { model: Some(model), ..self }
    }

    /// Sets the sampling temperature.
    pub fn temperature(self, t: Decimal) -> (b: Self)
        requires
            t.wf(),
        ensures
            b.temperature == Some(t),
            b.api_key_view() == self.api_key_view(),
            b.model == self.model,
            b.max_tokens == self.max_tokens,
            b.top_p == self.top_p,
            b.frequency_penalty == self.frequency_penalty,
            b.presence_penalty == self.presence_penalty,
            b.timeout == self.timeout,
    {
        OpenAIConfigBuilder { temperature: Some(t), ..self }
    }

    /// Sets the completion length cap.
    pub fn max_tokens(self, n: u32) -> (b: Self)
        ensures
            b.max_tokens == Some(n),
            b.api_key_view() == self.api_key_view(),
            b.model == self.model,
            b.temperature == self.temperature,
            b.top_p == self.top_p,
            b.frequency_penalty == self.frequency_penalty,
            b.presence_penalty == self.presence_penalty,
            b.timeout == self.timeout,
    {
        OpenAIConfigBuilder { max_tokens: Some(n), ..self }
    }

    /// Sets the nucleus-sampling parameter.
    pub fn top_p(self, p: Decimal) -> (b: Self)
        requires
            p.wf(),
        ensures
            b.top_p == Some(p),
            b.api_key_view() == self.api_key_view(),
            b.model == self.model,
            b.temperature == self.temperature,
            b.max_tokens == self.max_tokens,
            b.frequency_penalty == self.frequency_penalty,
            b.presence_penalty == self.presence_penalty,
            b.timeout == self.timeout,
    {
        OpenAIConfigBuilder { top_p: Some(p), ..self }
    }

    /// Sets the frequency penalty.
    pub fn frequency_penalty(self, p: Decimal) -> (b: Self)
        requires
            p.wf(),
        ensures
            b.frequency_penalty == Some(p),
            b.api_key_view() == self.api_key_view(),
            b.model == self.model,
            b.temperature == self.temperature,
            b.max_tokens == self.max_tokens,
            b.top_p == self.top_p,
            b.presence_penalty == self.presence_penalty,
            b.timeout == self.timeout,
    {
        OpenAIConfigBuilder { frequency_penalty: Some(p), ..self }
    }

    /// Sets the presence penalty.
    pub fn presence_penalty(self, p: Decimal) -> (b: Self)
        requires
            p.wf(),
        ensures
            b.presence_penalty == Some(p),
            b.api_key_view() == self.api_key_view(),
            b.model == self.model,
            b.temperature == self.temperature,
            b.max_tokens == self.max_tokens,
            b.top_p == self.top_p,
            b.frequency_penalty == self.frequency_penalty,
            b.timeout == self.timeout,
    {
        OpenAIConfigBuilder { presence_penalty: Some(p), ..self }
    }

    /// Sets the transport timeout in seconds.
    pub fn timeout(self, secs: u64) -> (b: Self)
        ensures
            b.timeout == Some(secs),
            b.api_key_view() == self.api_key_view(),
            b.model == self.model,
            b.temperature == self.temperature,
            b.max_tokens == self.max_tokens,
            b.top_p == self.top_p,
            b.frequency_penalty == self.frequency_penalty,
            b.presence_penalty == self.presence_penalty,
    {
        OpenAIConfigBuilder { timeout: Some(secs), ..self }
    }

    /// Every decimal staged so far is well formed.  The setters only
    /// accept well-formed decimals, so this holds of every builder a
    /// caller can reach.
    pub open spec fn staged_wf(&self) -> bool {
        &&& (self.temperature matches Some(d) ==> d.wf())
        &&& (self.top_p matches Some(d) ==> d.wf())
        &&& (self.frequency_penalty matches Some(d) ==> d.wf())
        &&& (self.presence_penalty matches Some(d) ==> d.wf())
    }

    /// Finalizes the configuration.  Fails exactly when the API key was
    /// never set, with a configuration error naming that field;
    /// otherwise every unset optional gets its default: default model,
    /// temperature 1.0, timeout 10 seconds, and no tuning parameters.
    pub fn build(self) -> (r: Result<OpenAIConfig, Error>)
        requires
            self.staged_wf(),
        ensures
            self.api_key_view() is None <==> r is Err,
            r matches Err(e) ==> e@ == crate::error::ErrorView::ConfigError("api_key"@),
            r matches Ok(c) ==> {
                &&& c@.api_key == self.api_key_view()->0
                &&& c@.model == (if self.model is Some {
                    self.model->0
                } else {
                    ChatModel::GPT4o
                })
                &&& c@.temperature == (if self.temperature is Some {
                    self.temperature->0
                } else {
                    Decimal { neg: false, whole: 1, centi: 0 }
                })
                &&& c@.max_tokens == self.max_tokens
                &&& c@.top_p == self.top_p
                &&& c@.frequency_penalty == self.frequency_penalty
                &&& c@.presence_penalty == self.presence_penalty
                &&& c@.timeout == (if self.timeout is Some {
                    self.timeout->0
                } else {
                    10
                })
                &&& c@.wf()
            },
    {
        let api_key = match self.api_key {
            Some(k) => k,
            None => {
                return Err(Error::ConfigError(String::from_str("api_key")));
            },
        };
        let model = match self.model {
            Some(m) => m,
            None => ChatModel::GPT4o,
        };
        let temperature = match self.temperature {
            Some(t) => t,
            None => Decimal { neg: false, whole: 1, centi: 0 },
        };
        let timeout = match self.timeout {
            Some(t) => t,
            None => 10,
        };
        Ok(
            OpenAIConfig {
                api_key,
                model,
                temperature,
                max_tokens: self.max_tokens,
                top_p: self.top_p,
                frequency_penalty: self.frequency_penalty,
                presence_penalty: self.presence_penalty,
                timeout,
            },
        )
    }
}

} // verus!
