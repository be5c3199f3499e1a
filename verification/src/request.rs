//! Assembly of the provider-shaped request body.
//!
//! `request_fields` is the specification of the payload: an ordered
//! field list holding the model identifier, the message array and the
//! temperature, followed by each optional tuning parameter exactly when
//! the configuration sets it.  `build_request_text` renders that list
//! as JSON text and is proved to match it field for field.

use vstd::prelude::*;
use vstd::string::StringExecFns;

use crate::config::ConfigView;
use crate::config::OpenAIConfig;
use crate::decimal::dec_render;
use crate::decimal::dec_str;
use crate::decimal::u64_to_string;
use crate::decimal::Decimal;
use crate::encode::append_messages_array;
use crate::encode::field_text;
use crate::encode::fields_inner_text;
use crate::encode::messages_array_text;
use crate::encode::object_text;
use crate::encode::quoted_plain;
use crate::types::model_wire;
use crate::types::Message;
use crate::types::MessageView;

verus! {

/// The field a `u32` parameter contributes when set: none otherwise.
pub open spec fn opt_u32_field(key: Seq<char>, v: Option<u32>) -> Seq<(Seq<char>, Seq<char>)> {
    match v {
        Some(n) => seq![(key, dec_str(n as nat))],
        None => Seq::empty(),
    }
}

/// The field a decimal parameter contributes when set: none otherwise.
pub open spec fn opt_dec_field(key: Seq<char>, v: Option<Decimal>) -> Seq<(Seq<char>, Seq<char>)> {
    match v {
        Some(d) => seq![(key, dec_render(d))],
        None => Seq::empty(),
    }
}

/// The ordered field list of a request payload for the given
/// configuration and message sequence.
pub open spec fn request_fields(c: ConfigView, ms: Seq<MessageView>) -> Seq<
    (Seq<char>, Seq<char>),
> {
    seq![
        ("model"@, quoted_plain(model_wire(c.model))),
        ("messages"@, messages_array_text(ms)),
        ("temperature"@, dec_render(c.temperature)),
    ] + opt_u32_field("max_tokens"@, c.max_tokens) + opt_dec_field("top_p"@, c.top_p)
        + opt_dec_field("frequency_penalty"@, c.frequency_penalty) + opt_dec_field(
        "presence_penalty"@,
        c.presence_penalty,
    )
}

/// The complete JSON text of a request body.
pub open spec fn request_body_text(c: ConfigView, ms: Seq<MessageView>) -> Seq<char> {
    object_text(request_fields(c, ms))
}

/// Joining one more field appends a comma and that field's text.
pub proof fn lemma_fields_inner_push(fs: Seq<(Seq<char>, Seq<char>)>, f: (Seq<char>, Seq<char>))
    requires
        fs.len() >= 1,
    ensures
        fields_inner_text(fs.push(f)) == fields_inner_text(fs) + seq![','] + field_text(f),
{
    assert(fs.push(f).drop_last() =~= fs);
    assert(fs.push(f).last() == f);
}

/// Appends `,"key":` and a rendered decimal value to the body being
/// built.  The caller supplies the prefix text and its ghost key and
/// shows that they agree.
fn append_dec_field(out: &mut String, prefix: &str, key: Ghost<Seq<char>>, d: Decimal)
    requires
        d.wf(),
        prefix@ == seq![','] + seq!['"'] + key@ + "\":"@,
    ensures
        final(out)@ == old(out)@ + seq![','] + field_text((key@, dec_render(d))),
{
    out.append(prefix);
    let v = d.render();
    out.append(v.as_str());
    proof {
        assert(out@ =~= old(out)@ + seq![','] + field_text((key@, dec_render(d))));
    }
}

/// Appends the opening brace and the three required fields: the model
/// identifier, the message array, and the temperature.
fn start_request_body(config: &OpenAIConfig, messages: &Vec<Message>) -> (r: String)
    requires
        config@.wf(),
    ensures
        r@ == seq!['{'] + fields_inner_text(
            seq![
                ("model"@, quoted_plain(model_wire(config@.model))),
                ("messages"@, messages_array_text(messages.deep_view())),
                ("temperature"@, dec_render(config@.temperature)),
            ],
        ),
{
    let ghost f1 = ("model"@, quoted_plain(model_wire(config@.model)));
    let ghost f2 = ("messages"@, messages_array_text(messages.deep_view()));
    let ghost f3 = ("temperature"@, dec_render(config@.temperature));
    let mut out = String::from_str("{\"model\":\"");
    out.append(config.model.as_ref());
    out.append("\",\"messages\":");
    append_messages_array(&mut out, messages);
    out.append(",\"temperature\":");
    let t = config.temperature.render();
    out.append(t.as_str());
    proof {
        reveal_strlit("{\"model\":\"");
        reveal_strlit("\",\"messages\":");
        reveal_strlit(",\"temperature\":");
        reveal_strlit("model");
        reveal_strlit("messages");
        reveal_strlit("temperature");
        reveal_strlit("\":");
        let base = seq![f1, f2, f3];
        assert(seq![f1, f2].drop_last() =~= seq![f1]);
        assert(fields_inner_text(seq![f1, f2]) == fields_inner_text(seq![f1]) + seq![',']
            + field_text(f2));
        assert(base.drop_last() =~= seq![f1, f2]);
        assert(fields_inner_text(base) == fields_inner_text(seq![f1, f2]) + seq![','] + field_text(
            f3,
        ));
        assert(out@ =~= seq!['{'] + fields_inner_text(base));
    }
    out
}

/// Appends the `max_tokens` field when it is set, and extends the ghost
/// field list accordingly.
fn append_opt_max_tokens(
    out: &mut String,
    v: Option<u32>,
    fs: Ghost<Seq<(Seq<char>, Seq<char>)>>,
) -> (fs2: Ghost<Seq<(Seq<char>, Seq<char>)>>)
    requires
        fs@.len() >= 1,
        old(out)@ == seq!['{'] + fields_inner_text(fs@),
    ensures
        fs2@ == fs@ + opt_u32_field("max_tokens"@, v),
        final(out)@ == seq!['{'] + fields_inner_text(fs2@),
{
    if let Some(n) = v {
        out.append(",\"max_tokens\":");
        let s = u64_to_string(n as u64);
        out.append(s.as_str());
        proof {
            reveal_strlit(",\"max_tokens\":");
            reveal_strlit("max_tokens");
            reveal_strlit("\":");
            let f = ("max_tokens"@, dec_str(n as nat));
            lemma_fields_inner_push(fs@, f);
            assert(out@ =~= seq!['{'] + fields_inner_text(fs@.push(f)));
            assert(fs@.push(f) =~= fs@ + opt_u32_field("max_tokens"@, v));
        }
        Ghost(fs@ + opt_u32_field("max_tokens"@, v))
    } else {
        proof {
            assert(fs@ + opt_u32_field("max_tokens"@, v) =~= fs@);
        }
        Ghost(fs@)
    }
}

/// Appends one optional decimal field when it is set, and extends the
/// ghost field list accordingly.
fn append_opt_dec(
    out: &mut String,
    prefix: &str,
    key: Ghost<Seq<char>>,
    v: Option<Decimal>,
    fs: Ghost<Seq<(Seq<char>, Seq<char>)>>,
) -> (fs2: Ghost<Seq<(Seq<char>, Seq<char>)>>)
    requires
        fs@.len() >= 1,
        v matches Some(d) ==> d.wf(),
        prefix@ == seq![','] + seq!['"'] + key@ + "\":"@,
        old(out)@ == seq!['{'] + fields_inner_text(fs@),
    ensures
        fs2@ == fs@ + opt_dec_field(key@, v),
        final(out)@ == seq!['{'] + fields_inner_text(fs2@),
{
    if let Some(d) = v {
        append_dec_field(out, prefix, key, d);
        proof {
            let f = (key@, dec_render(d));
            lemma_fields_inner_push(fs@, f);
            assert(out@ =~= seq!['{'] + fields_inner_text(fs@.push(f)));
            assert(fs@.push(f) =~= fs@ + opt_dec_field(key@, v));
        }
        Ghost(fs@ + opt_dec_field(key@, v))
    } else {
        proof {
            assert(fs@ + opt_dec_field(key@, v) =~= fs@);
        }
        Ghost(fs@)
    }
}

/// Renders the JSON request body for a configuration and an ordered
/// message sequence.  The payload holds the model identifier, the
/// messages, the temperature, and each optional tuning parameter only
/// if present; an absent parameter contributes no key at all.
pub fn build_request_text(config: &OpenAIConfig, messages: &Vec<Message>) -> (r: String)
    requires
        config@.wf(),
    ensures
        r@ == request_body_text(config@, messages.deep_view()),
{
    let ghost base = seq![
        ("model"@, quoted_plain(model_wire(config@.model))),
        ("messages"@, messages_array_text(messages.deep_view())),
        ("temperature"@, dec_render(config@.temperature)),
    ];
    let mut out = start_request_body(config, messages);
    let mut fs: Ghost<Seq<(Seq<char>, Seq<char>)>> = Ghost(base);
    fs = append_opt_max_tokens(&mut out, config.max_tokens, fs);
    proof {
        reveal_strlit(",\"top_p\":");
        reveal_strlit("top_p");
        reveal_strlit("\":");
        assert(",\"top_p\":"@ =~= seq![','] + seq!['"'] + "top_p"@ + "\":"@);
    }
    fs = append_opt_dec(&mut out, ",\"top_p\":", Ghost("top_p"@), config.top_p, fs);
    proof {
        reveal_strlit(",\"frequency_penalty\":");
        reveal_strlit("frequency_penalty");
        reveal_strlit("\":");
        assert(",\"frequency_penalty\":"@ =~= seq![','] + seq!['"'] + "frequency_penalty"@
            + "\":"@);
    }
    fs = append_opt_dec(
        &mut out,
        ",\"frequency_penalty\":",
        Ghost("frequency_penalty"@),
        config.frequency_penalty,
        fs,
    );
    proof {
        reveal_strlit(",\"presence_penalty\":");
        reveal_strlit("presence_penalty");
        reveal_strlit("\":");
        assert(",\"presence_penalty\":"@ =~= seq![','] + seq!['"'] + "presence_penalty"@
            + "\":"@);
    }
    fs = append_opt_dec(
        &mut out,
        ",\"presence_penalty\":",
        Ghost("presence_penalty"@),
        config.presence_penalty,
        fs,
    );
    out.append("}");
    proof {
        reveal_strlit("}");
        assert(fs@ =~= request_fields(config@, messages.deep_view()));
        assert(out@ =~= request_body_text(config@, messages.deep_view()));
    }
    out
}

/// Optional-field omission: when none of the four tuning parameters is
/// set, the payload's field list is exactly the three required fields;
/// each parameter that is set appears under its key with its rendered
/// value, and a parameter that is unset contributes its key nowhere.
pub proof fn lemma_optional_field_omission(c: ConfigView, ms: Seq<MessageView>)
    ensures
        (c.max_tokens is None && c.top_p is None && c.frequency_penalty is None
            && c.presence_penalty is None) ==> request_fields(c, ms) =~= seq![
            ("model"@, quoted_plain(model_wire(c.model))),
            ("messages"@, messages_array_text(ms)),
            ("temperature"@, dec_render(c.temperature)),
        ],
        c.max_tokens matches Some(n) ==> request_fields(c, ms).contains(
            ("max_tokens"@, dec_str(n as nat)),
        ),
        c.top_p matches Some(d) ==> request_fields(c, ms).contains(("top_p"@, dec_render(d))),
        c.frequency_penalty matches Some(d) ==> request_fields(c, ms).contains(
            ("frequency_penalty"@, dec_render(d)),
        ),
        c.presence_penalty matches Some(d) ==> request_fields(c, ms).contains(
            ("presence_penalty"@, dec_render(d)),
        ),
        c.max_tokens is None ==> forall|i: int|
            0 <= i < request_fields(c, ms).len() ==> (#[trigger] request_fields(c, ms)[i]).0
                != "max_tokens"@,
        c.top_p is None ==> forall|i: int|
            0 <= i < request_fields(c, ms).len() ==> (#[trigger] request_fields(c, ms)[i]).0
                != "top_p"@,
        c.frequency_penalty is None ==> forall|i: int|
            0 <= i < request_fields(c, ms).len() ==> (#[trigger] request_fields(c, ms)[i]).0
                != "frequency_penalty"@,
        c.presence_penalty is None ==> forall|i: int|
            0 <= i < request_fields(c, ms).len() ==> (#[trigger] request_fields(c, ms)[i]).0
                != "presence_penalty"@,
{
    reveal_strlit("model");
    reveal_strlit("messages");
    reveal_strlit("temperature");
    reveal_strlit("max_tokens");
    reveal_strlit("top_p");
    reveal_strlit("frequency_penalty");
    reveal_strlit("presence_penalty");
    assert("model"@.len() == 5);
    assert("messages"@.len() == 8);
    assert("temperature"@.len() == 11);
    assert("max_tokens"@.len() == 10);
    assert("top_p"@.len() == 5);
    assert("frequency_penalty"@.len() == 17);
    assert("presence_penalty"@.len() == 16);
    assert("top_p"@[0] != "model"@[0]);
    let fs = request_fields(c, ms);
    let base = seq![
        ("model"@, quoted_plain(model_wire(c.model))),
        ("messages"@, messages_array_text(ms)),
        ("temperature"@, dec_render(c.temperature)),
    ];
    let o1 = opt_u32_field("max_tokens"@, c.max_tokens);
    let o2 = opt_dec_field("top_p"@, c.top_p);
    let o3 = opt_dec_field("frequency_penalty"@, c.frequency_penalty);
    let o4 = opt_dec_field("presence_penalty"@, c.presence_penalty);
    if c.max_tokens is None && c.top_p is None && c.frequency_penalty is None
        && c.presence_penalty is None {
        assert(fs =~= base);
    }
    assert(fs.len() == 3 + o1.len() + o2.len() + o3.len() + o4.len());
    match c.max_tokens {
        Some(n) => {
            assert(fs[3] == ("max_tokens"@, dec_str(n as nat)));
        },
        None => {},
    }
    match c.top_p {
        Some(d) => {
            assert(fs[3 + o1.len() as int] == ("top_p"@, dec_render(d)));
        },
        None => {},
    }
    match c.frequency_penalty {
        Some(d) => {
            assert(fs[3 + o1.len() + o2.len() as int] == ("frequency_penalty"@, dec_render(d)));
        },
        None => {},
    }
    match c.presence_penalty {
        Some(d) => {
            assert(fs[3 + o1.len() + o2.len() + o3.len() as int] == ("presence_penalty"@, dec_render(d)));
        },
        None => {},
    }
    assert forall|i: int| 0 <= i < fs.len() implies #[trigger] fs[i].0 == "model"@ || fs[i].0
        == "messages"@ || fs[i].0 == "temperature"@ || (fs[i].0 == "max_tokens"@
        && c.max_tokens is Some) || (fs[i].0 == "top_p"@ && c.top_p is Some) || (fs[i].0
        == "frequency_penalty"@ && c.frequency_penalty is Some) || (fs[i].0 == "presence_penalty"@
        && c.presence_penalty is Some) by {
        if i < 3 {
        } else if i < 3 + o1.len() {
            assert(fs[i] == o1[i - 3]);
        } else if i < 3 + o1.len() + o2.len() {
            assert(fs[i] == o2[i - 3 - o1.len()]);
        } else if i < 3 + o1.len() + o2.len() + o3.len() {
            assert(fs[i] == o3[i - 3 - o1.len() - o2.len()]);
        } else {
            assert(fs[i] == o4[i - 3 - o1.len() - o2.len() - o3.len()]);
        }
    }
}

} // verus!
