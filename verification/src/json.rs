//! JSON values, as far as a response is read from them.

use crate::text::same_text;
use vstd::prelude::*;

verus! {

/// A JSON number: a whole number as it is, any other as its decimal text.
#[derive(Clone, Debug, PartialEq, Eq)]
pub enum Number {
    Unsigned(u64),
    Signed(i64),
    Real(String),
}

/// What a `Number` holds.
pub enum NumberView {
    Unsigned(u64),
    Signed(i64),
    Real(Seq<char>),
}

impl View for Number {
    type V = NumberView;

    open spec fn view(&self) -> NumberView {
        match self {
            Number::Unsigned(n) => NumberView::Unsigned(*n),
            Number::Signed(n) => NumberView::Signed(*n),
            Number::Real(text) => NumberView::Real(text@),
        }
    }
}

/// A JSON value. An object holds its members in the order in which they were written; where
/// a name occurs twice, the first member counts.
#[derive(Debug, PartialEq, Eq)]
pub enum Json {
    Null,
    Bool(bool),
    Number(Number),
    Text(String),
    Array(Vec<Json>),
    Object(Vec<(String, Json)>),
}

/// The value of the first member of `members` that is named `name`.
pub open spec fn member(members: Seq<(String, Json)>, name: Seq<char>) -> Option<Json>
    decreases members.len(),
{
    if members.len() == 0 {
        None
    } else if members[0].0@ == name {
        Some(members[0].1)
    } else {
        member(members.drop_first(), name)
    }
}

/// Finds the member named `name`.
pub fn get<'a>(members: &'a Vec<(String, Json)>, name: &str) -> (r: Option<&'a Json>)
    ensures
        match r {
            Some(value) => member(members@, name@) == Some(*value),
            None => member(members@, name@) is None,
        },
{
    let mut i: usize = 0;
    proof {
        assert(members@.skip(0) =~= members@);
    }
    while i < members.len()
        invariant
            i <= members.len(),
            member(members@, name@) == member(members@.skip(i as int), name@),
        decreases members.len() - i,
    {
        proof {
            assert(members@.skip(i as int).drop_first() =~= members@.skip(i + 1));
        }
        if same_text(members[i].0.as_str(), name) {
            return Some(&members[i].1);
        }
        i += 1;
    }
    None
}

} // verus!
