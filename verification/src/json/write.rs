//! Writing JSON text: string literals, arrays and objects.

use vstd::prelude::*;

use crate::json::member::members_view;
use crate::json::member::texts_view;
use crate::json::member::JsonMember;
use crate::json::member::Member;

verus! {

/// The JSON string literal for a text, quotes included: what `serde_json`
/// returns from `to_string` on a `str`.
pub uninterp spec fn json_string_literal(text: Seq<char>) -> Seq<char>;

/// Calls `serde_json::to_string` on a `str`. Trusted: the result is the JSON
/// string literal of the text. Writing into memory cannot fail, so the error
/// arm is never taken.
#[verifier::external_body]
pub(crate) fn quote(text: &str) -> (r: String)
    ensures
        r@ == json_string_literal(text@),
{
    match serde_json::to_string(text) {
        Ok(literal) => literal,
        Err(_) => String::new(),
    }
}

/// The JSON string literal of an optional text.
pub open spec fn string_value(text: Option<Seq<char>>) -> Option<Seq<char>> {
    match text {
        Some(t) => Some(json_string_literal(t)),
        None => None,
    }
}

/// The parts of a list, with a comma between each two.
pub open spec fn comma_joined(parts: Seq<Seq<char>>) -> Seq<char>
    decreases parts.len(),
{
    if parts.len() == 0 {
        Seq::empty()
    } else if parts.len() == 1 {
        parts[0]
    } else {
        comma_joined(parts.drop_last()) + seq![','] + parts.last()
    }
}

/// A JSON array whose items are the given JSON texts.
pub open spec fn array_text(items: Seq<Seq<char>>) -> Seq<char> {
    seq!['['] + comma_joined(items) + seq![']']
}

/// The JSON text of a member: the key between quotes, a colon, the value. The
/// key is written as it is: keys are meant to be plain identifiers, which
/// need no escaping.
pub open spec fn member_text(m: Member) -> Seq<char> {
    seq!['"'] + m.key + seq!['"', ':'] + m.value
}

/// A JSON object with the given members, in their order.
pub open spec fn object_text(members: Seq<Member>) -> Seq<char> {
    seq!['{'] + comma_joined(members.map_values(|m: Member| member_text(m))) + seq!['}']
}

/// Joining one part more puts a comma and the part behind what was joined
/// before, and no comma before the first part.
proof fn lemma_comma_joined_step(parts: Seq<Seq<char>>, i: int)
    requires
        0 <= i < parts.len(),
    ensures
        comma_joined(parts.take(i + 1)) == if i == 0 {
            parts[0]
        } else {
            comma_joined(parts.take(i)) + seq![','] + parts[i]
        },
{
    let next = parts.take(i + 1);
    assert(next.last() == parts[i]);
    assert(next.drop_last() =~= parts.take(i));
    if i == 0 {
        assert(next[0] == parts[0]);
    }
}

/// Writes a JSON array from the JSON texts of its items.
pub fn render_array(items: &Vec<String>) -> (r: String)
    ensures
        r@ == array_text(texts_view(items@)),
{
    let ghost parts = texts_view(items@);
    let mut out = "[".to_owned();
    let mut i: usize = 0;
    proof {
        reveal_strlit("[");
        assert(parts.take(0) =~= Seq::<Seq<char>>::empty());
    }
    while i < items.len()
        invariant
            0 <= i <= items.len(),
            parts == texts_view(items@),
            out@ == seq!['['] + comma_joined(parts.take(i as int)),
        decreases items.len() - i,
    {
        proof {
            reveal_strlit(",");
            lemma_comma_joined_step(parts, i as int);
        }
        if i > 0 {
            out.append(",");
        }
        out.append(items[i].as_str());
        assert(out@ =~= seq!['['] + comma_joined(parts.take(i + 1)));
        i = i + 1;
    }
    out.append("]");
    proof {
        reveal_strlit("]");
        assert(parts.take(i as int) =~= parts);
        assert(out@ =~= array_text(parts));
    }
    out
}

/// Writes a JSON object from its members, in their order. Keys are written
/// between quotes as they are.
pub fn render_object(members: &Vec<JsonMember>) -> (r: String)
    ensures
        r@ == object_text(members_view(members@)),
{
    let ghost parts = members_view(members@).map_values(|m: Member| member_text(m));
    let mut out = "{".to_owned();
    let mut i: usize = 0;
    proof {
        reveal_strlit("{");
        assert(parts.take(0) =~= Seq::<Seq<char>>::empty());
    }
    while i < members.len()
        invariant
            0 <= i <= members.len(),
            parts == members_view(members@).map_values(|m: Member| member_text(m)),
            out@ == seq!['{'] + comma_joined(parts.take(i as int)),
        decreases members.len() - i,
    {
        proof {
            reveal_strlit(",");
            reveal_strlit("\"");
            reveal_strlit("\":");
            lemma_comma_joined_step(parts, i as int);
        }
        if i > 0 {
            out.append(",");
        }
        out.append("\"");
        out.append(members[i].key.as_str());
        out.append("\":");
        out.append(members[i].value.as_str());
        assert(parts[i as int] == member_text(members@[i as int]@));
        assert(out@ =~= seq!['{'] + comma_joined(parts.take(i + 1)));
        i = i + 1;
    }
    out.append("}");
    proof {
        reveal_strlit("}");
        assert(parts.take(i as int) =~= parts);
        assert(out@ =~= object_text(members_view(members@)));
    }
    out
}

} // verus!
