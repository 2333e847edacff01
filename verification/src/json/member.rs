//! The members of a JSON object: keys with the JSON text of their values,
//! and what an object gives to a key.

use vstd::prelude::*;

verus! {

/// One member of a JSON object: its key, as plain text, and its value, as
/// JSON text.
pub struct Member {
    pub key: Seq<char>,
    pub value: Seq<char>,
}

/// A member of a JSON object that is being written: a key and the JSON text
/// of its value.
#[derive(Debug, Clone, PartialEq, Eq)]
pub struct JsonMember {
    pub key: String,
    pub value: String,
}

impl View for JsonMember {
    type V = Member;

    open spec fn view(&self) -> Member {
        Member { key: self.key@, value: self.value@ }
    }
}

/// The members that a vector of written members stands for.
pub open spec fn members_view(members: Seq<JsonMember>) -> Seq<Member> {
    members.map_values(|m: JsonMember| m@)
}

/// The texts that a vector of strings stands for.
pub open spec fn texts_view(items: Seq<String>) -> Seq<Seq<char>> {
    items.map_values(|s: String| s@)
}

/// The value that an object gives to a key: that of the first member with the
/// key, if there is one.
pub open spec fn member_value(members: Seq<Member>, key: Seq<char>) -> Option<Seq<char>>
    decreases members.len(),
{
    if members.len() == 0 {
        None
    } else if members[0].key == key {
        Some(members[0].value)
    } else {
        member_value(members.drop_first(), key)
    }
}

/// The one member that a field contributes which is always written.
pub open spec fn single_member(key: Seq<char>, value: Seq<char>) -> Seq<Member> {
    seq![Member { key, value }]
}

/// The members that an optional field contributes: one where it is set, none
/// where it is not.
pub open spec fn optional_member(key: Seq<char>, value: Option<Seq<char>>) -> Seq<Member> {
    match value {
        Some(text) => single_member(key, text),
        None => Seq::empty(),
    }
}

/// Looking a key up in two lists of members, one behind the other, finds what
/// the first list gives it, and otherwise what the second gives it.
pub proof fn lemma_member_value_concat(front: Seq<Member>, back: Seq<Member>, key: Seq<char>)
    ensures
        member_value(front + back, key) == match member_value(front, key) {
            Some(value) => Some(value),
            None => member_value(back, key),
        },
    decreases front.len(),
{
    if front.len() == 0 {
        assert(front + back =~= back);
    } else {
        assert((front + back)[0] == front[0]);
        assert((front + back).drop_first() =~= front.drop_first() + back);
        lemma_member_value_concat(front.drop_first(), back, key);
    }
}

/// An optional field gives its own key its value where it is set, and gives
/// no other key anything.
pub proof fn lemma_member_value_optional(name: Seq<char>, value: Option<Seq<char>>, key: Seq<char>)
    ensures
        member_value(optional_member(name, value), key) == if name == key {
            value
        } else {
            None
        },
{
    reveal_with_fuel(member_value, 2);
}

/// Looking any key up behind one more field finds what the fields before
/// give it, and otherwise what the new field gives it.
pub proof fn lemma_member_value_step(front: Seq<Member>, name: Seq<char>, value: Option<Seq<char>>)
    ensures
        forall|key: Seq<char>| #[trigger]
            member_value(front + optional_member(name, value), key) == match member_value(
                front,
                key,
            ) {
                Some(found) => Some(found),
                None => if name == key {
                    value
                } else {
                    None
                },
            },
{
    assert forall|key: Seq<char>| #[trigger]
        member_value(front + optional_member(name, value), key) == match member_value(
            front,
            key,
        ) {
            Some(found) => Some(found),
            None => if name == key {
                value
            } else {
                None
            },
        } by {
        lemma_member_value_concat(front, optional_member(name, value), key);
        lemma_member_value_optional(name, value, key);
    }
}

/// Looks a key up among the members of an object: the value of the first
/// member with the key.
pub fn find_member<'a>(members: &'a Vec<JsonMember>, key: &str) -> (r: Option<&'a str>)
    ensures
        match r {
            Some(value) => member_value(members_view(members@), key@) == Some(value@),
            None => member_value(members_view(members@), key@) is None,
        },
{
    let ghost all = members_view(members@);
    let wanted = key.to_owned();
    let mut i: usize = 0;
    assert(all.skip(0) =~= all);
    while i < members.len()
        invariant
            0 <= i <= members.len(),
            all == members_view(members@),
            wanted@ == key@,
            member_value(all, key@) == member_value(all.skip(i as int), key@),
        decreases members.len() - i,
    {
        let ghost rest = all.skip(i as int);
        assert(rest[0] == members@[i as int]@);
        assert(rest.drop_first() =~= all.skip(i + 1));
        if members[i].key == wanted {
            return Some(members[i].value.as_str());
        }
        i = i + 1;
    }
    None
}

} // verus!
