//! JSON documents as trees of plain values, and how a member of an object is
//! found by its name.
use vstd::prelude::*;

verus! {

/// A JSON document as a tree of plain values.
pub enum JsonTree {
    Null,
    Bool(bool),
    /// A number written without fraction or exponent that fits in 64 bits,
    /// signed or unsigned.
    Integer(int),
    /// Any other number, by its digits.
    Decimal(Seq<char>),
    Text(Seq<char>),
    List(Seq<JsonTree>),
    /// The members of an object, in their order, each key once.
    Object(Seq<(Seq<char>, JsonTree)>),
}

/// The place of the first member named `key`, if there is one.
pub open spec fn member_index(members: Seq<(Seq<char>, JsonTree)>, key: Seq<char>) -> Option<int>
    decreases members.len(),
{
    if members.len() == 0 {
        None
    } else if members.last().0 != key {
        member_index(members.drop_last(), key)
    } else {
        match member_index(members.drop_last(), key) {
            Some(i) => Some(i),
            None => Some(members.len() - 1),
        }
    }
}

/// The value of the first member named `key`, if there is one.
pub open spec fn member(members: Seq<(Seq<char>, JsonTree)>, key: Seq<char>) -> Option<JsonTree> {
    match member_index(members, key) {
        Some(i) => Some(members[i].1),
        None => None,
    }
}

/// The place that is found for a name holds that name, and no place before
/// it does; where none is found, no member has the name.
pub proof fn lemma_member_index_is_first(members: Seq<(Seq<char>, JsonTree)>, key: Seq<char>)
    ensures
        match member_index(members, key) {
            Some(i) => {
                &&& 0 <= i < members.len()
                &&& members[i].0 == key
                &&& forall|j: int| 0 <= j < i ==> (#[trigger] members[j]).0 != key
            },
            None => forall|j: int| 0 <= j < members.len() ==> (#[trigger] members[j]).0 != key,
        },
    decreases members.len(),
{
    if members.len() > 0 {
        let shorter = members.drop_last();
        lemma_member_index_is_first(shorter, key);
        assert forall|j: int| 0 <= j < shorter.len() implies shorter[j] == members[j] by {}
    }
}

/// Where a member is added behind the others, a name is found where it was
/// found before; a name that was not found is found in last place if it is
/// the new member's, and not at all otherwise.
pub proof fn lemma_member_index_push(
    members: Seq<(Seq<char>, JsonTree)>,
    entry: (Seq<char>, JsonTree),
    key: Seq<char>,
)
    ensures
        member_index(members.push(entry), key) == match member_index(members, key) {
            Some(i) => Some(i),
            None => if entry.0 == key {
                Some(members.len() as int)
            } else {
                None
            },
        },
{
    assert(members.push(entry).drop_last() =~= members);
}

} // verus!
