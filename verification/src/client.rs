//! The chat client: configuration plus conversation transcript.
//!
//! The HTTP transport is the embedding application's business, so one
//! chat turn is split in two verified halves.  `chat_request` appends
//! the user message and returns the body to send; the application
//! performs the POST and hands the outcome to `chat_response`, which
//! decodes it, appends the assistant reply on success, and leaves the
//! transcript otherwise untouched on failure — the user message of a
//! failed turn deliberately stays recorded.

use vstd::prelude::*;

use crate::config::ConfigView;
use crate::config::OpenAIConfig;
use crate::error::Error;
use crate::parse::parse_completion;
use crate::parse::spec_parse_completion;
use crate::request::build_request_text;
use crate::request::request_body_text;
use crate::types::assistant_msg;
use crate::types::user_msg;
use crate::types::Message;
use crate::types::MessageView;

verus! {

/// A client owns one configuration for its whole lifetime and the
/// transcript of its multi-turn conversation.
pub struct OpenAIClient {
    config: OpenAIConfig,
    conversation: Vec<Message>,
}

impl OpenAIClient {
    /// The configuration this client was built with.
    pub closed spec fn cfg(self) -> ConfigView {
        self.config@
    }

    /// The conversation transcript, in order: insertion order is
    /// conversation order.
    pub closed spec fn transcript(self) -> Seq<MessageView> {
        self.conversation.deep_view()
    }

    /// The client is well formed when its configuration is.
    pub open spec fn wf(self) -> bool {
        self.cfg().wf()
    }

    /// A fresh client: the given configuration, an empty transcript.
    pub fn new(config: OpenAIConfig) -> (c: Self)
        ensures
            c.cfg() == config@,
            c.transcript() == Seq::<MessageView>::empty(),
    {
        let conversation: Vec<Message> = Vec::new();
        proof {
            assert(conversation.deep_view() =~= Seq::<MessageView>::empty());
        }
        OpenAIClient { config, conversation }
    }

    /// The request body for an arbitrary message sequence under this
    /// client's configuration.
    pub fn build_request_body(&self, messages: &Vec<Message>) -> (r: String)
        requires
            self.wf(),
        ensures
            r@ == request_body_text(self.cfg(), messages.deep_view()),
    {
        build_request_text(&self.config, messages)
    }

    /// The request body of a one-shot call: a single user message,
    /// independent of the transcript, which it neither reads nor
    /// changes.
    pub fn send_message_request(&self, content: &str) -> (r: String)
        requires
            self.wf(),
        ensures
            r@ == request_body_text(self.cfg(), seq![user_msg(content@)]),
    {
        let mut messages: Vec<Message> = Vec::new();
        messages.push(Message::user(content));
        proof {
            assert(messages.deep_view() =~= seq![user_msg(content@)]);
        }
        build_request_text(&self.config, &messages)
    }

    /// First half of a chat turn: records the user message and returns
    /// the body of the request that carries the entire transcript so
    /// far, not just the new message.
    pub fn chat_request(&mut self, content: &str) -> (r: String)
        requires
            old(self).wf(),
        ensures
            final(self).wf(),
            final(self).cfg() == old(self).cfg(),
            final(self).transcript() == old(self).transcript().push(user_msg(content@)),
            r@ == request_body_text(final(self).cfg(), final(self).transcript()),
    {
        let ghost before = self.conversation.deep_view();
        self.conversation.push(Message::user(content));
        proof {
            assert(self.conversation.deep_view() =~= before.push(user_msg(content@)));
        }
        build_request_text(&self.config, &self.conversation)
    }

    /// Second half of a chat turn.  When the transport outcome carries
    /// a body that decodes to a completion with at least one choice,
    /// the first choice's message content is appended as the assistant
    /// reply and returned; on any failure — the transport outcome
    /// already failed, the body does not decode, or the decoded
    /// completion carries no choice — the corresponding error is
    /// returned and the transcript is left exactly as `chat_request`
    /// made it, keeping the failed turn's user message.
    pub fn chat_response(&mut self, outcome: Result<String, Error>) -> (r: Result<String, Error>)
        requires
            old(self).wf(),
        ensures
            final(self).wf(),
            final(self).cfg() == old(self).cfg(),
            match r {
                Ok(reply) => final(self).transcript() == old(self).transcript().push(
                    assistant_msg(reply@),
                ),
                Err(_) => final(self).transcript() == old(self).transcript(),
            },
            outcome matches Err(e) ==> (r matches Err(e2) && e2@ == e@),
            outcome matches Ok(b) ==> match r {
                Ok(reply) => {
                    &&& spec_parse_completion(b@) matches Some(c)
                    &&& c.choices.len() > 0
                    &&& reply@ == c.choices[0].message.content
                },
                Err(e) => match spec_parse_completion(b@) {
                    Some(c) => c.choices.len() == 0 && e@ is UnexpectedResponse,
                    None => e@ is ResponseParseError,
                },
            },
    {
        let body = match outcome {
            Ok(b) => b,
            Err(e) => {
                return Err(e);
            },
        };
        let completion = match parse_completion(body.as_str()) {
            Ok(c) => c,
            Err(e) => {
                return Err(e);
            },
        };
        let reply = match completion.message() {
            Ok(m) => m.content.clone(),
            Err(e) => {
                return Err(e);
            },
        };
        let ghost before = self.conversation.deep_view();
        self.conversation.push(Message::assistant(reply.as_str()));
        proof {
            assert(self.conversation.deep_view() =~= before.push(assistant_msg(reply@)));
        }
        Ok(reply)
    }

    /// Empties the transcript.  Idempotent: on an empty transcript it
    /// changes nothing; after any sequence of turns it leaves the
    /// client as `new` did, with the configuration untouched.
    pub fn clear_conversation(&mut self)
        ensures
            final(self).cfg() == old(self).cfg(),
            final(self).transcript() == Seq::<MessageView>::empty(),
    {
        self.conversation.clear();
        proof {
            assert(self.conversation.deep_view() =~= Seq::<MessageView>::empty());
        }
    }

    /// Read access to the transcript.
    pub fn conversation(&self) -> (r: &Vec<Message>)
        ensures
            r.deep_view() == self.transcript(),
    {
        &self.conversation
    }

    /// The configured API key, for the transport's authorization
    /// header.
    pub fn api_key(&self) -> (r: &str)
        ensures
            r@ == self.cfg().api_key,
    {
        self.config.api_key.as_str()
    }

    /// The configured timeout in seconds, for the transport's read and
    /// write phases.
    pub fn timeout_secs(&self) -> (r: u64)
        ensures
            r == self.cfg().timeout,
    {
        self.config.timeout
    }
}

/// The transcript that `n` successful chat turns with the given inputs
/// and replies produce, oldest first.
pub open spec fn dialogue_of(inputs: Seq<Seq<char>>, replies: Seq<Seq<char>>) -> Seq<MessageView>
    decreases inputs.len(),
{
    if inputs.len() == 0 {
        Seq::empty()
    } else {
        dialogue_of(inputs.drop_last(), replies.drop_last()) + seq![
            user_msg(inputs.last()),
            assistant_msg(replies.last()),
        ]
    }
}

/// One successful chat turn extends a dialogue by its user message and
/// its assistant reply, in that order; this is exactly what
/// `chat_request` followed by a successful `chat_response` ensures of
/// the transcript.
pub proof fn lemma_chat_turn_extends_dialogue(
    inputs: Seq<Seq<char>>,
    replies: Seq<Seq<char>>,
    input: Seq<char>,
    reply: Seq<char>,
)
    ensures
        dialogue_of(inputs.push(input), replies.push(reply)) == dialogue_of(inputs, replies).push(
            user_msg(input),
        ).push(assistant_msg(reply)),
{
    assert(inputs.push(input).drop_last() =~= inputs);
    assert(replies.push(reply).drop_last() =~= replies);
    assert(dialogue_of(inputs.push(input), replies.push(reply)) =~= dialogue_of(
        inputs,
        replies,
    ).push(user_msg(input)).push(assistant_msg(reply)));
}

/// Transcript append ordering: after `n` successful chat turns the
/// transcript holds exactly `2n` messages in strict alternating
/// user/assistant order, and each user message carries the matching
/// turn's input text.
pub proof fn lemma_transcript_of_chats(inputs: Seq<Seq<char>>, replies: Seq<Seq<char>>)
    requires
        inputs.len() == replies.len(),
    ensures
        dialogue_of(inputs, replies).len() == 2 * inputs.len(),
        forall|i: int|
            0 <= i < inputs.len() ==> dialogue_of(inputs, replies)[2 * i] == user_msg(inputs[i]),
        forall|i: int|
            0 <= i < inputs.len() ==> dialogue_of(inputs, replies)[2 * i + 1] == assistant_msg(
                replies[i],
            ),
    decreases inputs.len(),
{
    if inputs.len() > 0 {
        lemma_transcript_of_chats(inputs.drop_last(), replies.drop_last());
        let d = dialogue_of(inputs, replies);
        let dp = dialogue_of(inputs.drop_last(), replies.drop_last());
        assert(d == dp + seq![user_msg(inputs.last()), assistant_msg(replies.last())]);
        assert forall|i: int| 0 <= i < inputs.len() implies d[2 * i] == user_msg(inputs[i]) && d[2
            * i + 1] == assistant_msg(replies[i]) by {
            if i < inputs.len() - 1 {
                assert(d[2 * i] == dp[2 * i]);
                assert(d[2 * i + 1] == dp[2 * i + 1]);
                assert(inputs.drop_last()[i] == inputs[i]);
                assert(replies.drop_last()[i] == replies[i]);
            } else {
                assert(d[2 * i] == user_msg(inputs.last()));
                assert(d[2 * i + 1] == assistant_msg(replies.last()));
            }
        }
    }
}

} // verus!
