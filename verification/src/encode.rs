//! Rendering of the provider-shaped JSON request text: string escaping,
//! message objects, and comma-joined field lists.
//!
//! The request body is assembled as text by verified code, so its exact
//! shape — which keys appear, in what order, with what values — is part
//! of the library's contracts.

use vstd::prelude::*;
use vstd::string::StrSliceExecFns;
use vstd::string::StringExecFns;

use crate::decimal::digit_char;
use crate::decimal::digit_str;
use crate::types::role_wire;
use crate::types::MessageView;

verus! {

/// How one character appears inside a JSON string literal: quote,
/// backslash and the common control characters get their two-character
/// escapes, any other control character gets a `\u00..` escape, and
/// everything else stands for itself.
pub open spec fn escape_char(c: char) -> Seq<char> {
    if c == '"' {
        seq!['\\', '"']
    } else if c == '\\' {
        seq!['\\', '\\']
    } else if c == '\n' {
        seq!['\\', 'n']
    } else if c == '\r' {
        seq!['\\', 'r']
    } else if c == '\t' {
        seq!['\\', 't']
    } else if (c as u32) < 32 {
        seq!['\\', 'u', '0', '0', digit_char((c as u32 / 16) as nat), digit_char(
            (c as u32 % 16) as nat,
        )]
    } else {
        seq![c]
    }
}

/// The body of a JSON string literal for the given text.
pub open spec fn escape_text(s: Seq<char>) -> Seq<char>
    decreases s.len(),
{
    if s.len() == 0 {
        Seq::empty()
    } else {
        escape_char(s[0]) + escape_text(s.drop_first())
    }
}

/// Escaping a text one character longer escapes the prefix and then the
/// final character.
pub proof fn lemma_escape_text_push(s: Seq<char>, c: char)
    ensures
        escape_text(s.push(c)) == escape_text(s) + escape_char(c),
    decreases s.len(),
{
    if s.len() == 0 {
        assert(s.push(c)[0] == c);
        assert(s.push(c).drop_first() =~= Seq::<char>::empty());
        assert(escape_text(s.push(c)) == escape_char(c) + escape_text(s.push(c).drop_first()));
        assert(escape_text(Seq::<char>::empty()) == Seq::<char>::empty());
        assert(escape_char(c) + Seq::<char>::empty() =~= Seq::<char>::empty() + escape_char(c));
    } else {
        assert(s.push(c)[0] == s[0]);
        assert(s.push(c).drop_first() =~= s.drop_first().push(c));
        lemma_escape_text_push(s.drop_first(), c);
        assert(escape_text(s.push(c)) == escape_char(s[0]) + (escape_text(s.drop_first())
            + escape_char(c)));
        assert(escape_char(s[0]) + (escape_text(s.drop_first()) + escape_char(c)) =~= (escape_char(
            s[0],
        ) + escape_text(s.drop_first())) + escape_char(c));
    }
}

/// Appends the escaped form of `s` to `out`.
pub fn append_escaped(out: &mut String, s: &str)
    ensures
        final(out)@ == old(out)@ + escape_text(s@),
{
    let n = s.unicode_len();
    let mut i: usize = 0;
    proof {
        assert(s@.subrange(0, 0) =~= Seq::<char>::empty());
    }
    while i < n
        invariant
            n == s@.len(),
            i <= n,
            out@ == old(out)@ + escape_text(s@.subrange(0, i as int)),
        decreases n - i,
    {
        let c = s.get_char(i);
        if c == '"' {
            out.append("\\\"");
            proof {
                reveal_strlit("\\\"");
            }
        } else if c == '\\' {
            out.append("\\\\");
            proof {
                reveal_strlit("\\\\");
            }
        } else if c == '\n' {
            out.append("\\n");
            proof {
                reveal_strlit("\\n");
            }
        } else if c == '\r' {
            out.append("\\r");
            proof {
                reveal_strlit("\\r");
            }
        } else if c == '\t' {
            out.append("\\t");
            proof {
                reveal_strlit("\\t");
            }
        } else if (c as u32) < 32 {
            out.append("\\u00");
            out.append(digit_str((c as u32 / 16) as u64));
            out.append(digit_str((c as u32 % 16) as u64));
            proof {
                reveal_strlit("\\u00");
            }
        } else {
            out.append(s.substring_char(i, i + 1));
            proof {
                assert(s@.subrange(i as int, i + 1) =~= seq![s@[i as int]]);
            }
        }
        proof {
            lemma_escape_text_push(s@.subrange(0, i as int), c);
            assert(s@.subrange(0, i as int).push(c) =~= s@.subrange(0, i + 1));
            assert(out@ =~= old(out)@ + escape_text(s@.subrange(0, i + 1)));
        }
        i = i + 1;
    }
    proof {
        assert(s@.subrange(0, n as int) =~= s@);
    }
}

/// The JSON object text of one message: its role in wire form, then its
/// escaped content.
pub open spec fn message_text(m: MessageView) -> Seq<char> {
    "{\"role\":\""@ + role_wire(m.role) + "\",\"content\":\""@ + escape_text(m.content) + "\"}"@
}

/// The comma-joined message objects of a transcript, without the
/// surrounding brackets.
pub open spec fn messages_inner_text(ms: Seq<MessageView>) -> Seq<char>
    decreases ms.len(),
{
    if ms.len() == 0 {
        Seq::empty()
    } else if ms.len() == 1 {
        message_text(ms[0])
    } else {
        messages_inner_text(ms.drop_last()) + seq![','] + message_text(ms.last())
    }
}

/// The JSON array text of a message sequence.
pub open spec fn messages_array_text(ms: Seq<MessageView>) -> Seq<char> {
    seq!['['] + messages_inner_text(ms) + seq![']']
}

/// One field of a JSON object: the quoted key, a colon, and the
/// already-rendered value text.
pub open spec fn field_text(f: (Seq<char>, Seq<char>)) -> Seq<char> {
    seq!['"'] + f.0 + "\":"@ + f.1
}

/// The comma-joined fields of a JSON object, without the braces.
pub open spec fn fields_inner_text(fs: Seq<(Seq<char>, Seq<char>)>) -> Seq<char>
    decreases fs.len(),
{
    if fs.len() == 0 {
        Seq::empty()
    } else if fs.len() == 1 {
        field_text(fs[0])
    } else {
        fields_inner_text(fs.drop_last()) + seq![','] + field_text(fs.last())
    }
}

/// The JSON object text for an ordered field list.
pub open spec fn object_text(fs: Seq<(Seq<char>, Seq<char>)>) -> Seq<char> {
    seq!['{'] + fields_inner_text(fs) + seq!['}']
}

/// A raw string value in quotes, for values that are known to contain
/// no character that would need escaping (the fixed wire identifiers).
pub open spec fn quoted_plain(s: Seq<char>) -> Seq<char> {
    seq!['"'] + s + seq!['"']
}

/// Appends one message object to `out`.
pub fn append_message(out: &mut String, m: &crate::types::Message)
    ensures
        final(out)@ == old(out)@ + message_text(m@),
{
    out.append("{\"role\":\"");
    out.append(m.role.wire_str());
    out.append("\",\"content\":\"");
    append_escaped(out, m.content.as_str());
    out.append("\"}");
    proof {
        assert(out@ =~= old(out)@ + message_text(m@));
    }
}

/// Appends the JSON array of all messages to `out`.
pub fn append_messages_array(out: &mut String, ms: &Vec<crate::types::Message>)
    ensures
        final(out)@ == old(out)@ + messages_array_text(ms.deep_view()),
{
    out.append("[");
    proof {
        reveal_strlit("[");
        assert("["@ =~= seq!['[']);
        assert(ms.deep_view().subrange(0, 0) =~= Seq::<MessageView>::empty());
    }
    let n = ms.len();
    let mut i: usize = 0;
    while i < n
        invariant
            n == ms@.len(),
            i <= n,
            ms.deep_view().len() == n,
            out@ == old(out)@ + seq!['['] + messages_inner_text(ms.deep_view().subrange(0, i as int)),
        decreases n - i,
    {
        if i > 0 {
            out.append(",");
            proof {
                reveal_strlit(",");
                assert(","@ =~= seq![',']);
            }
        }
        append_message(out, &ms[i]);
        proof {
            let mvs = ms.deep_view();
            assert(mvs[i as int] == ms[i as int]@);
            let pre = mvs.subrange(0, i as int);
            let cur = mvs.subrange(0, i + 1);
            assert(cur.drop_last() =~= pre);
            assert(cur.last() == mvs[i as int]);
            if i == 0 {
                assert(messages_inner_text(cur) == message_text(mvs[0]));
            } else {
                assert(messages_inner_text(cur) == messages_inner_text(pre) + seq![',']
                    + message_text(mvs[i as int]));
            }
            assert(out@ =~= old(out)@ + seq!['['] + messages_inner_text(cur));
        }
        i = i + 1;
    }
    out.append("]");
    proof {
        reveal_strlit("]");
        assert("]"@ =~= seq![']']);
        assert(ms.deep_view().subrange(0, n as int) =~= ms.deep_view());
        assert(out@ =~= old(out)@ + messages_array_text(ms.deep_view()));
    }
}

} // verus!
