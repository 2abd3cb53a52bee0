//! JSON text of values, as the script compiler embeds it.

use crate::text::{digit_char, joined};
use crate::value::{lemma_view_array, lemma_view_object, members_view, values_view, Json, Member, Value};
use serde_json::Value as SerdeValue;
use vstd::prelude::*;
use vstd::string::*;

verus! {

/// The hexadecimal digit for `d`, a number below sixteen, in lower case.
pub open spec fn hex_char(d: nat) -> char {
    if d < 10 {
        digit_char(d)
    } else if d == 10 {
        'a'
    } else if d == 11 {
        'b'
    } else if d == 12 {
        'c'
    } else if d == 13 {
        'd'
    } else if d == 14 {
        'e'
    } else {
        'f'
    }
}

/// How one character stands inside a JSON string literal. A double quote and
/// a backslash stand behind a backslash; backspace, tab, line feed, form feed
/// and carriage return stand as `\b`, `\t`, `\n`, `\f` and `\r`; any other
/// character below U+0020 stands as `\u00` and its two hexadecimal digits;
/// every other character stands for itself.
pub open spec fn escaped(c: char) -> Seq<char> {
    if c == '"' {
        seq!['\\', '"']
    } else if c == '\\' {
        seq!['\\', '\\']
    } else if c == '\u{8}' {
        seq!['\\', 'b']
    } else if c == '\t' {
        seq!['\\', 't']
    } else if c == '\n' {
        seq!['\\', 'n']
    } else if c == '\u{c}' {
        seq!['\\', 'f']
    } else if c == '\r' {
        seq!['\\', 'r']
    } else if (c as u32) < 0x20 {
        seq![
            '\\',
            'u',
            '0',
            '0',
            hex_char(((c as u32) / 16) as nat),
            hex_char(((c as u32) % 16) as nat),
        ]
    } else {
        seq![c]
    }
}

/// The characters of `text` as they stand inside a JSON string literal.
pub open spec fn escaped_text(text: Seq<char>) -> Seq<char>
    decreases text.len(),
{
    if text.len() == 0 {
        Seq::empty()
    } else {
        escaped_text(text.drop_last()) + escaped(text.last())
    }
}

/// The JSON string literal of `text`: its characters, escaped, between double
/// quotes.
pub open spec fn json_string_text(text: Seq<char>) -> Seq<char> {
    seq!['"'] + escaped_text(text) + seq!['"']
}

/// Inside a string literal no double quote stands bare: where a character is
/// written with a double quote, a backslash stands before it.
pub proof fn lemma_quotes_are_escaped(c: char, k: int)
    requires
        0 <= k < escaped(c).len(),
        escaped(c)[k] == '"',
    ensures
        k == 1,
        escaped(c)[0] == '\\',
{
}

/// `serde_json::to_string` on a string slice. The result is the JSON string
/// literal for `text`: serde_json writes a double quote, then each character
/// as [`escaped`] says, then a double quote. The call cannot fail: serde_json
/// writes a string slice into a byte vector, and the only errors its string
/// writer passes on are those of the writer, of which a byte vector has none.
#[verifier::external_body]
fn string_literal(text: &str) -> (r: String)
    ensures
        r@ == json_string_text(text@),
{
    serde_json::to_string(text).unwrap_or_default()
}

/// A JSON document as serde_json holds it. Nothing inside it is read here:
/// it is turned into a [`Value`] as a whole.
#[verifier::external_type_specification]
#[verifier::external_body]
pub struct ExSerdeValue(SerdeValue);

/// The document that serde_json reads from `bytes`; none where `bytes` are no
/// JSON text. A number stands by the literal that serde_json writes for it,
/// the members of an object in the order in which serde_json walks them.
pub uninterp spec fn json_of(bytes: Seq<u8>) -> Option<Json>;

/// Turns a document of serde_json into a [`Value`], variant for variant; a
/// number by `Number::to_string`.
#[verifier::external_body]
fn lift(value: SerdeValue) -> (r: Value) {
    match value {
        SerdeValue::Null => Value::Null,
        SerdeValue::Bool(b) => Value::Boolean(b),
        SerdeValue::Number(n) => Value::Number(n.to_string()),
        SerdeValue::String(s) => Value::String(s),
        SerdeValue::Array(items) => Value::Array(items.into_iter().map(lift).collect()),
        SerdeValue::Object(members) => Value::Object(
            members.into_iter().map(|(key, value)| (key, lift(value))).collect(),
        ),
    }
}

/// `serde_json::from_slice`: reads one JSON document from `bytes`. What it
/// reads is a function of the bytes alone; it fails where the bytes are no
/// JSON text, trailing characters and too deep a nesting included.
#[verifier::external_body]
fn decode(bytes: &[u8]) -> (r: Option<Value>)
    ensures
        match r {
            Some(value) => json_of(bytes@) == Some(value@),
            None => json_of(bytes@) is None,
        },
{
    serde_json::from_slice::<SerdeValue>(bytes).ok().map(lift)
}

/// The JSON text of each of `items`, in order.
pub open spec fn item_texts(items: Seq<Json>) -> Seq<Seq<char>>
    decreases items, 0nat,
{
    Seq::new(
        items.len(),
        |i: int|
            if 0 <= i < items.len() {
                json_text(items[i])
            } else {
                Seq::empty()
            },
    )
}

/// The JSON text of each of `members`, in order: the key as a string literal,
/// a colon, the value.
pub open spec fn member_texts(members: Seq<Member>) -> Seq<Seq<char>>
    decreases members, 0nat,
{
    Seq::new(
        members.len(),
        |i: int|
            if 0 <= i < members.len() {
                json_string_text(members[i].key) + seq![':'] + json_text(members[i].value)
            } else {
                Seq::empty()
            },
    )
}

/// The JSON text of an object with these members: all of them, in their
/// order, a repeated key as often as it stands there.
pub open spec fn object_text(members: Seq<Member>) -> Seq<char>
    decreases members, 1nat,
{
    seq!['{'] + joined(member_texts(members), seq![',']) + seq!['}']
}

/// The compact JSON text of a value: no white space; a number by its literal,
/// a string as serde_json writes it.
pub open spec fn json_text(j: Json) -> Seq<char>
    decreases j, 0nat,
{
    match j {
        Json::Null => "null"@,
        Json::Boolean(b) => if b {
            "true"@
        } else {
            "false"@
        },
        Json::Number(literal) => literal,
        Json::String(text) => json_string_text(text),
        Json::Array(items) => seq!['['] + joined(item_texts(items), seq![',']) + seq![']'],
        Json::Object(members) => object_text(members),
    }
}

/// Joining one more part: the join so far, the separator unless the part is
/// the first, and the part.
pub proof fn lemma_joined_step(parts: Seq<Seq<char>>, sep: Seq<char>, i: int)
    requires
        0 <= i < parts.len(),
    ensures
        joined(parts.take(i + 1), sep) == if i == 0 {
            parts[i]
        } else {
            joined(parts.take(i), sep) + sep + parts[i]
        },
{
    assert(parts.take(i + 1).drop_last() =~= parts.take(i));
}

/// Appends the JSON text of an object with the members `members` to `out`.
pub fn write_object(members: &Vec<(String, Value)>, out: &mut String)
    ensures
        final(out)@ == old(out)@ + object_text(members_view(members@)),
    decreases members,
{
    let ghost view = members_view(members@);
    let ghost texts = member_texts(view);
    out.append("{");
    let mut i: usize = 0;
    while i < members.len()
        invariant
            0 <= i <= members@.len(),
            view == members_view(members@),
            texts == member_texts(view),
            out@ == old(out)@ + "{"@ + joined(texts.take(i as int), seq![',']),
        decreases members@.len() - i,
    {
        let ghost before = out@;
        if i > 0 {
            out.append(",");
        }
        let key = string_literal(members[i].0.as_str());
        out.append(key.as_str());
        out.append(":");
        write_json(&members[i].1, out);
        proof {
            reveal_strlit(",");
            reveal_strlit(":");
            lemma_joined_step(texts, seq![','], i as int);
            assert(texts[i as int] == json_string_text(view[i as int].key) + seq![':'] + json_text(
                view[i as int].value,
            ));
            assert(","@ =~= seq![',']);
            assert(":"@ =~= seq![':']);
            assert(out@ =~= old(out)@ + "{"@ + joined(texts.take(i + 1), seq![',']));
        }
        i += 1;
    }
    out.append("}");
    proof {
        reveal_strlit("{");
        reveal_strlit("}");
        assert(texts.take(i as int) =~= texts);
        assert("{"@ =~= seq!['{']);
        assert("}"@ =~= seq!['}']);
        assert(out@ =~= old(out)@ + object_text(view));
    }
}

/// Appends the compact JSON text of `value` to `out`.
pub fn write_json(value: &Value, out: &mut String)
    ensures
        final(out)@ == old(out)@ + json_text(value@),
    decreases value,
{
    match value {
        Value::Null => {
            out.append("null");
        },
        Value::Boolean(b) => {
            if *b {
                out.append("true");
            } else {
                out.append("false");
            }
        },
        Value::Number(literal) => {
            out.append(literal.as_str());
        },
        Value::String(text) => {
            let quoted = string_literal(text.as_str());
            out.append(quoted.as_str());
        },
        Value::Array(items) => {
            let ghost views = values_view(items@);
            let ghost texts = item_texts(views);
            proof {
                lemma_view_array(*items);
            }
            out.append("[");
            let mut i: usize = 0;
            while i < items.len()
                invariant
                    value is Array,
                    value->Array_0 == *items,
                    0 <= i <= items@.len(),
                    views == values_view(items@),
                    texts == item_texts(views),
                    out@ == old(out)@ + "["@ + joined(texts.take(i as int), seq![',']),
                decreases items@.len() - i,
            {
                if i > 0 {
                    out.append(",");
                }
                write_json(&items[i], out);
                proof {
                    reveal_strlit(",");
                    lemma_joined_step(texts, seq![','], i as int);
                    assert(texts[i as int] == json_text(views[i as int]));
                    assert(","@ =~= seq![',']);
                    assert(out@ =~= old(out)@ + "["@ + joined(texts.take(i + 1), seq![',']));
                }
                i += 1;
            }
            out.append("]");
            proof {
                reveal_strlit("[");
                reveal_strlit("]");
                assert(texts.take(i as int) =~= texts);
                assert("["@ =~= seq!['[']);
                assert("]"@ =~= seq![']']);
                assert(out@ =~= old(out)@ + json_text(value@));
            }
        },
        Value::Object(members) => {
            proof {
                lemma_view_object(*members);
            }
            write_object(members, out);
        },
    }
}

impl Value {
    /// Reads a JSON document; none where `bytes` are no JSON text.
    pub fn from_json(bytes: &[u8]) -> (r: Option<Value>)
        ensures
            match r {
                Some(value) => json_of(bytes@) == Some(value@),
                None => json_of(bytes@) is None,
            },
    {
        decode(bytes)
    }

    /// The compact JSON text of this value.
    pub fn to_json(&self) -> (r: String)
        ensures
            r@ == json_text(self@),
    {
        let mut out = String::new();
        write_json(self, &mut out);
        assert(out@ =~= json_text(self@));
        out
    }
}

} // verus!
