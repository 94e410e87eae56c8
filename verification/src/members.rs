//! The members of JSON objects: what records and feeds are read from.
//!
//! The documents are parsed elsewhere; here it is said what their members come to.

use vstd::prelude::*;

use crate::text::{opt_text, same};

verus! {

/// The value of a member.
#[derive(Debug)]
pub enum MemberValue {
    Text(String),
    Null,
    /// Anything else.
    Other,
}

/// A member of an object.
#[derive(Debug)]
pub struct Member {
    pub key: String,
    pub value: MemberValue,
}

/// The value of a member, as the text it holds.
pub enum Held {
    Text(Seq<char>),
    Null,
    Other,
}

impl View for MemberValue {
    type V = Held;

    open spec fn view(&self) -> Held {
        match self {
            MemberValue::Text(t) => Held::Text(t@),
            MemberValue::Null => Held::Null,
            MemberValue::Other => Held::Other,
        }
    }
}

/// What an object holds; of two members with one key the last counts.
pub open spec fn held(list: Seq<Member>) -> Map<Seq<char>, Held>
    decreases list.len(),
{
    if list.len() == 0 {
        Map::empty()
    } else {
        held(list.drop_last()).insert(list.last().key@, list.last().value@)
    }
}

/// The text that an object holds for a key, if it holds one.
pub open spec fn text_at(m: Map<Seq<char>, Held>, key: Seq<char>) -> Option<Seq<char>> {
    if m.contains_key(key) {
        match m[key] {
            Held::Text(t) => Some(t),
            _ => None,
        }
    } else {
        None
    }
}

/// An object holds for a key what is neither a text nor nothing.
pub open spec fn odd_at(m: Map<Seq<char>, Held>, key: Seq<char>) -> bool {
    m.contains_key(key) && m[key] is Other
}

/// The text that an object holds for a key, if it holds one, and whether it holds
/// something else there.
pub fn look_up(list: &Vec<Member>, key: &str) -> (r: (Option<String>, bool))
    ensures
        opt_text(r.0) == text_at(held(list@), key@),
        r.1 == odd_at(held(list@), key@),
{
    let mut found: Option<String> = None;
    let mut odd: bool = false;
    let mut i: usize = 0;
    assert(list@.take(0) =~= seq![]);
    while i < list.len()
        invariant
            i <= list@.len(),
            opt_text(found) == text_at(held(list@.take(i as int)), key@),
            odd == odd_at(held(list@.take(i as int)), key@),
        decreases list@.len() - i,
    {
        let ghost so_far = list@.take(i + 1);
        assert(so_far.drop_last() =~= list@.take(i as int));
        assert(so_far.last() == list@[i as int]);
        if same(list[i].key.as_str(), key) {
            match &list[i].value {
                MemberValue::Text(t) => {
                    found = Some(t.clone());
                    odd = false;
                },
                MemberValue::Null => {
                    found = None;
                    odd = false;
                },
                MemberValue::Other => {
                    found = None;
                    odd = true;
                },
            }
        }
        i += 1;
    }
    assert(list@.take(i as int) =~= list@);
    (found, odd)
}

/// The text that an object holds for a key, if it holds one.
pub fn text_of(list: &Vec<Member>, key: &str) -> (r: Option<String>)
    ensures
        opt_text(r) == text_at(held(list@), key@),
{
    look_up(list, key).0
}

/// A member that is written: its key and its text.
#[derive(Debug)]
pub struct Field {
    pub key: &'static str,
    pub value: String,
}

/// The keys and texts of some members, in order.
pub open spec fn pairs(list: Seq<Field>) -> Seq<(Seq<char>, Seq<char>)> {
    list.map_values(|f: Field| (f.key@, f.value@))
}

/// What an object holds into which these members were written.
pub open spec fn written(list: Seq<(Seq<char>, Seq<char>)>) -> Map<Seq<char>, Held>
    decreases list.len(),
{
    if list.len() == 0 {
        Map::empty()
    } else {
        written(list.drop_last()).insert(list.last().0, Held::Text(list.last().1))
    }
}

/// A list of members with one more, if there is one.
pub open spec fn with_pair(
    list: Seq<(Seq<char>, Seq<char>)>,
    key: Seq<char>,
    value: Option<Seq<char>>,
) -> Seq<(Seq<char>, Seq<char>)> {
    match value {
        Some(v) => list.push((key, v)),
        None => list,
    }
}

/// What one more member makes of an object.
pub proof fn lemma_with_pair(
    list: Seq<(Seq<char>, Seq<char>)>,
    key: Seq<char>,
    value: Option<Seq<char>>,
)
    ensures
        written(with_pair(list, key, value)) == match value {
            Some(v) => written(list).insert(key, Held::Text(v)),
            None => written(list),
        },
{
    if let Some(v) = value {
        assert(list.push((key, v)).drop_last() =~= list);
    }
}

/// Add a member to a list, if there is one.
pub fn push_field(list: &mut Vec<Field>, key: &'static str, value: &Option<String>)
    ensures
        pairs(final(list)@) == with_pair(pairs(old(list)@), key@, opt_text(*value)),
{
    let ghost before = pairs(list@);
    if let Some(v) = value {
        list.push(Field { key, value: v.clone() });
        assert(pairs(list@) =~= before.push((key@, v@)));
    }
}

/// Of an object's members the last with a key counts, and members with other keys do not
/// matter.
pub proof fn law_last_member_counts(list: Seq<Member>, member: Member, key: Seq<char>)
    ensures
        held(seq![]) == Map::<Seq<char>, Held>::empty(),
        member.key@ == key ==> held(list.push(member)).contains_key(key) && held(
            list.push(member),
        )[key] == member.value@,
        member.key@ != key ==> held(list.push(member)).contains_key(key) == held(list).contains_key(
            key,
        ) && held(list.push(member))[key] == held(list)[key],
        member.key@ == key ==> text_at(held(list.push(member)), key) == match member.value {
            MemberValue::Text(t) => Some(t@),
            _ => None,
        },
        member.key@ == key ==> odd_at(held(list.push(member)), key) == member.value is Other,
{
    assert(list.push(member).drop_last() =~= list);
}

} // verus!
