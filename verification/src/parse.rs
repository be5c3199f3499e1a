//! Decoding of a response body into a typed `ChatCompletion`.
//!
//! The decode runs in two stages, as the wire protocol demands: the raw
//! text is first decoded into a generic JSON value (an opaque
//! serialization capability, taken from an outside crate on trust), and
//! that value is then checked field by field against the expected
//! completion shape by verified code, so a malformed body and network
//! trouble stay distinguishable.
//!
//! What the outside decoder produces is a pure function of the text, so
//! it is given a name: `json_of` is the parse of a text, `value_model`
//! the content of an opaque value, both landing in the spec datatype
//! `JsonModel`.  The trusted accessors state their behaviour over these
//! names, and the verified field walk is proved to compute exactly
//! `spec_completion_of` over them: success and failure of the decode,
//! and every field of a decoded completion, are pinned.

use vstd::prelude::*;
use vstd::string::StringExecFns;

use crate::error::Error;
use crate::types::role_from_wire;
use crate::types::spec_role_from_wire;
use crate::types::ChatCompletion;
use crate::types::ChoiceView;
use crate::types::CompletionView;
use crate::types::Message;
use crate::types::MessageChoice;
use crate::types::MessageView;
use crate::types::TokenUsage;

verus! {

/// The mathematical model of a JSON document, as the outside decoder
/// holds it: an object is a key-to-value map (a repeated key keeps its
/// last value, key order is immaterial), an integer number is carried
/// exactly, and a number the decoder holds as floating point is only
/// marked as such — no field read by this library may be one.
pub ghost enum JsonModel {
    Null,
    Bool(bool),
    Int(int),
    FloatNum,
    Str(Seq<char>),
    Arr(Seq<JsonModel>),
    Obj(Map<Seq<char>, JsonModel>),
}

/// What `serde_json::from_str` makes of a text: `None` where it refuses
/// the text (invalid JSON, or nesting past the decoder's limit), else
/// the model of the value it returns.  The parse depends on the text
/// alone.
pub uninterp spec fn json_of(s: Seq<char>) -> Option<JsonModel>;

/// The model of the document an opaque decoded value holds.
pub uninterp spec fn value_model(v: serde_json::Value) -> JsonModel;

#[verifier::external_type_specification]
#[verifier::external_body]
pub struct ExJsonValue(serde_json::Value);

/// Relies on `serde_json::from_str`: decodes JSON text into a generic
/// value, or reports the decoder's own diagnostic text.  The result is
/// a function of the text alone, named `json_of`.
#[verifier::external_body]
fn parse_json_value(body: &str) -> (r: Result<serde_json::Value, String>)
    ensures
        r is Ok <==> json_of(body@) is Some,
        r matches Ok(v) ==> value_model(v) == json_of(body@)->0,
{
    match serde_json::from_str::<serde_json::Value>(body) {
        Ok(v) => Ok(v),
        Err(e) => Err(e.to_string()),
    }
}

/// Relies on `serde_json::Value::get` with a string index: the value
/// under a key of a JSON object, `None` for a missing key or any
/// non-object.
#[verifier::external_body]
fn json_get<'a>(v: &'a serde_json::Value, key: &str) -> (r: Option<&'a serde_json::Value>)
    ensures
        r matches Some(f) ==> value_model(*v) is Obj && value_model(*v)->Obj_0.dom().contains(key@)
            && value_model(*f) == value_model(*v)->Obj_0[key@],
        r is None ==> (value_model(*v) is Obj ==> !value_model(*v)->Obj_0.dom().contains(key@)),
{
    v.get(key)
}

/// Relies on `serde_json::Value::as_str`: the content of a JSON string
/// value, `None` for any other shape.
#[verifier::external_body]
fn json_as_str<'a>(v: &'a serde_json::Value) -> (r: Option<&'a str>)
    ensures
        r matches Some(s) ==> value_model(*v) == JsonModel::Str(s@),
        r is None ==> !(value_model(*v) is Str),
{
    v.as_str()
}

/// Relies on `serde_json::Value::as_u64`: the value of a JSON number
/// that the decoder holds as a non-negative 64-bit integer, `None`
/// otherwise (a negative integer, a floating-point number, or no
/// number at all).
#[verifier::external_body]
fn json_as_u64(v: &serde_json::Value) -> (r: Option<u64>)
    ensures
        r matches Some(n) ==> value_model(*v) == JsonModel::Int(n as int),
        r is None ==> !(value_model(*v) is Int && 0 <= value_model(*v)->Int_0 <= u64::MAX as int),
{
    v.as_u64()
}

/// Relies on `serde_json::Value::as_array`: the elements of a JSON
/// array, in order, `None` for any other shape.
#[verifier::external_body]
fn json_as_array<'a>(v: &'a serde_json::Value) -> (r: Option<&'a Vec<serde_json::Value>>)
    ensures
        r matches Some(a) ==> value_model(*v) is Arr && value_model(*v)->Arr_0.len() == a@.len()
            && (forall|i: int|
            0 <= i < a@.len() ==> value_model(*v)->Arr_0[i] == #[trigger] value_model(a@[i])),
        r is None ==> !(value_model(*v) is Arr),
{
    v.as_array()
}

/// The value under a key of a JSON object model, if there is one.
pub open spec fn spec_field(j: JsonModel, key: Seq<char>) -> Option<JsonModel> {
    if j is Obj && j->Obj_0.dom().contains(key) {
        Some(j->Obj_0[key])
    } else {
        None
    }
}

/// The string under a key, if the key holds a string.
pub open spec fn spec_field_str(j: JsonModel, key: Seq<char>) -> Option<Seq<char>> {
    match spec_field(j, key) {
        Some(f) => if f is Str {
            Some(f->Str_0)
        } else {
            None
        },
        None => None,
    }
}

/// The number under a key, if the key holds a non-negative integer
/// that fits in 32 bits.
pub open spec fn spec_field_u32(j: JsonModel, key: Seq<char>) -> Option<u32> {
    match spec_field(j, key) {
        Some(f) => if f is Int && 0 <= f->Int_0 <= u32::MAX as int {
            Some(f->Int_0 as u32)
        } else {
            None
        },
        None => None,
    }
}

/// What one element of the `choices` array decodes to: an object with a
/// `message` (whose role is in the fixed vocabulary and whose content
/// is a string), a `finish_reason` string, and an `index` number —
/// `None` wherever any of that fails.
pub open spec fn spec_choice_of(j: JsonModel) -> Option<ChoiceView> {
    match spec_field(j, "message"@) {
        Some(m) => if spec_field_str(m, "role"@) is Some && spec_role_from_wire(
            spec_field_str(m, "role"@)->0,
        ) is Some && spec_field_str(m, "content"@) is Some && spec_field_str(j, "finish_reason"@)
            is Some && spec_field_u32(j, "index"@) is Some {
            Some(
                ChoiceView {
                    message: MessageView {
                        role: spec_role_from_wire(spec_field_str(m, "role"@)->0)->0,
                        content: spec_field_str(m, "content"@)->0,
                    },
                    finish_reason: spec_field_str(j, "finish_reason"@)->0,
                    index: spec_field_u32(j, "index"@)->0,
                },
            )
        } else {
            None
        },
        None => None,
    }
}

/// What a sequence of choice elements decodes to: every element in
/// order, or `None` if any element fails.
pub open spec fn spec_choices_of(elems: Seq<JsonModel>) -> Option<Seq<ChoiceView>>
    decreases elems.len(),
{
    if elems.len() == 0 {
        Some(Seq::empty())
    } else {
        match (spec_choices_of(elems.drop_last()), spec_choice_of(elems.last())) {
            (Some(pre), Some(c)) => Some(pre.push(c)),
            _ => None,
        }
    }
}

/// One failing element fails the whole sequence.
proof fn lemma_choices_of_none(elems: Seq<JsonModel>, i: int)
    requires
        0 <= i < elems.len(),
        spec_choice_of(elems[i]) is None,
    ensures
        spec_choices_of(elems) is None,
    decreases elems.len(),
{
    if i < elems.len() - 1 {
        lemma_choices_of_none(elems.drop_last(), i);
    }
}

/// What a whole response body's value decodes to: the echoed `model`
/// string, a `usage` object with the three token counters (each a
/// non-negative integer fitting 32 bits), and a `choices` array of
/// well-shaped choices, order preserved — `None` wherever any of that
/// fails.  An empty `choices` array decodes; rejecting it is the
/// single-reply accessor's job.
pub open spec fn spec_completion_of(j: JsonModel) -> Option<CompletionView> {
    if spec_field_str(j, "model"@) is Some && spec_field(j, "usage"@) is Some && spec_field_u32(
        spec_field(j, "usage"@)->0,
        "prompt_tokens"@,
    ) is Some && spec_field_u32(spec_field(j, "usage"@)->0, "completion_tokens"@) is Some
        && spec_field_u32(spec_field(j, "usage"@)->0, "total_tokens"@) is Some && spec_field(
        j,
        "choices"@,
    ) is Some && spec_field(j, "choices"@)->0 is Arr && spec_choices_of(
        spec_field(j, "choices"@)->0->Arr_0,
    ) is Some {
        Some(
            CompletionView {
                model: spec_field_str(j, "model"@)->0,
                usage: TokenUsage {
                    prompt_tokens: spec_field_u32(spec_field(j, "usage"@)->0, "prompt_tokens"@)->0,
                    completion_tokens: spec_field_u32(
                        spec_field(j, "usage"@)->0,
                        "completion_tokens"@,
                    )->0,
                    total_tokens: spec_field_u32(spec_field(j, "usage"@)->0, "total_tokens"@)->0,
                },
                choices: spec_choices_of(spec_field(j, "choices"@)->0->Arr_0)->0,
            },
        )
    } else {
        None
    }
}

/// What a raw body text decodes to, through both stages.
pub open spec fn spec_parse_completion(s: Seq<char>) -> Option<CompletionView> {
    match json_of(s) {
        Some(j) => spec_completion_of(j),
        None => None,
    }
}

/// The string under a key of a JSON object, if the key is present and
/// its value is a string.
fn field_str(v: &serde_json::Value, key: &str) -> (r: Option<String>)
    ensures
        r matches Some(s) ==> spec_field_str(value_model(*v), key@) == Some(s@),
        r is None ==> spec_field_str(value_model(*v), key@) is None,
{
    match json_get(v, key) {
        Some(f) => match json_as_str(f) {
            Some(s) => Some(s.to_owned()),
            None => None,
        },
        None => None,
    }
}

/// The number under a key of a JSON object, if the key is present and
/// its value is a non-negative integer that fits in 32 bits.
fn field_u32(v: &serde_json::Value, key: &str) -> (r: Option<u32>)
    ensures
        r matches Some(n) ==> spec_field_u32(value_model(*v), key@) == Some(n),
        r is None ==> spec_field_u32(value_model(*v), key@) is None,
{
    match json_get(v, key) {
        Some(f) => match json_as_u64(f) {
            Some(n) => if n <= u32::MAX as u64 {
                Some(n as u32)
            } else {
                None
            },
            None => None,
        },
        None => None,
    }
}

/// A response-parse error naming the part of the shape that failed.
fn shape_err(what: &str) -> (r: Error)
    ensures
        r@ is ResponseParseError,
{
    Error::ResponseParseError(what.to_owned())
}

/// Decodes one element of the `choices` array; computes exactly
/// `spec_choice_of` on the element's model.
fn choice_from_value(v: &serde_json::Value) -> (r: Result<MessageChoice, Error>)
    ensures
        r matches Ok(c) ==> spec_choice_of(value_model(*v)) == Some(c@),
        r matches Err(e) ==> spec_choice_of(value_model(*v)) is None && e@ is ResponseParseError,
{
    let message_v = match json_get(v, "message") {
        Some(m) => m,
        None => {
            return Err(shape_err("choice without a message"));
        },
    };
    let role_s = match field_str(message_v, "role") {
        Some(s) => s,
        None => {
            return Err(shape_err("message without a role"));
        },
    };
    let role = match role_from_wire(role_s.as_str()) {
        Some(role) => role,
        None => {
            return Err(shape_err("role outside the fixed vocabulary"));
        },
    };
    let content = match field_str(message_v, "content") {
        Some(s) => s,
        None => {
            return Err(shape_err("message without a content string"));
        },
    };
    let finish_reason = match field_str(v, "finish_reason") {
        Some(s) => s,
        None => {
            return Err(shape_err("choice without a finish_reason"));
        },
    };
    let index = match field_u32(v, "index") {
        Some(n) => n,
        None => {
            return Err(shape_err("choice without an index"));
        },
    };
    Ok(MessageChoice { message: Message { role, content }, finish_reason, index })
}

/// Checks a generic JSON value against the completion shape; computes
/// exactly `spec_completion_of` on the value's model, reporting the
/// first missing or malformed part as a response-parse error.
#[verifier::loop_isolation(false)]
pub fn completion_from_value(v: &serde_json::Value) -> (r: Result<ChatCompletion, Error>)
    ensures
        r matches Ok(c) ==> spec_completion_of(value_model(*v)) == Some(c@),
        r matches Err(e) ==> spec_completion_of(value_model(*v)) is None && e@
            is ResponseParseError,
{
    let model = match field_str(v, "model") {
        Some(s) => s,
        None => {
            return Err(shape_err("response without a model string"));
        },
    };
    let usage_v = match json_get(v, "usage") {
        Some(u) => u,
        None => {
            return Err(shape_err("response without a usage object"));
        },
    };
    let prompt_tokens = match field_u32(usage_v, "prompt_tokens") {
        Some(n) => n,
        None => {
            return Err(shape_err("usage without prompt_tokens"));
        },
    };
    let completion_tokens = match field_u32(usage_v, "completion_tokens") {
        Some(n) => n,
        None => {
            return Err(shape_err("usage without completion_tokens"));
        },
    };
    let total_tokens = match field_u32(usage_v, "total_tokens") {
        Some(n) => n,
        None => {
            return Err(shape_err("usage without total_tokens"));
        },
    };
    let choices_v = match json_get(v, "choices") {
        Some(c) => c,
        None => {
            return Err(shape_err("response without a choices array"));
        },
    };
    let choices = match json_as_array(choices_v) {
        Some(a) => a,
        None => {
            return Err(shape_err("choices is not an array"));
        },
    };
    let ghost jchoices = value_model(*choices_v)->Arr_0;
    let mut message_choices: Vec<MessageChoice> = Vec::new();
    let n = choices.len();
    let mut i: usize = 0;
    proof {
        assert(jchoices.subrange(0, 0) =~= Seq::<JsonModel>::empty());
        assert(message_choices.deep_view() =~= Seq::<ChoiceView>::empty());
    }
    while i < n
        invariant
            n == choices@.len(),
            i <= n,
            jchoices.len() == n,
            forall|k: int| 0 <= k < n ==> jchoices[k] == #[trigger] value_model(choices@[k]),
            spec_choices_of(jchoices.subrange(0, i as int)) == Some(message_choices.deep_view()),
        decreases n - i,
    {
        let ghost before = message_choices.deep_view();
        match choice_from_value(&choices[i]) {
            Ok(c) => {
                let ghost cv = c@;
                message_choices.push(c);
                proof {
                    let pre = jchoices.subrange(0, i as int);
                    let cur = jchoices.subrange(0, i + 1);
                    assert(cur.drop_last() =~= pre);
                    assert(cur.last() == jchoices[i as int]);
                    assert(message_choices.deep_view() =~= before.push(cv));
                    assert(spec_choices_of(cur) == Some(before.push(cv)));
                }
            },
            Err(e) => {
                proof {
                    assert(value_model(choices@[i as int]) == jchoices[i as int]);
                    assert(spec_choice_of(jchoices[i as int]) is None);
                    lemma_choices_of_none(jchoices, i as int);
                    assert(spec_choices_of(value_model(*choices_v)->Arr_0) is None);
                    assert(spec_completion_of(value_model(*v)) is None);
                }
                return Err(e);
            },
        }
        i = i + 1;
    }
    proof {
        assert(jchoices.subrange(0, n as int) =~= jchoices);
    }
    Ok(
        ChatCompletion {
            model,
            usage: TokenUsage { prompt_tokens, completion_tokens, total_tokens },
            message_choices,
        },
    )
}

/// Decodes a raw response body: text to generic value, then value to
/// the typed completion.  It succeeds if and only if the text is valid
/// JSON of the completion shape, and then the result carries exactly
/// the body's model, usage and choices; every failure of either stage
/// is a response-parse error carrying the decoder's diagnostic.
pub fn parse_completion(body: &str) -> (r: Result<ChatCompletion, Error>)
    ensures
        r matches Ok(c) ==> spec_parse_completion(body@) == Some(c@),
        r is Err <==> spec_parse_completion(body@) is None,
        r matches Err(e) ==> e@ is ResponseParseError,
{
    match parse_json_value(body) {
        Ok(v) => completion_from_value(&v),
        Err(msg) => Err(Error::ResponseParseError(msg)),
    }
}

} // verus!
