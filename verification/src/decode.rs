//! Values that a definition may give as one string or as a list.

use vstd::prelude::*;
use crate::text::views;

verus! {

/// One string, or a list of strings.
#[derive(Debug)]
pub enum StringOrSeq {
    One(String),
    Many(Vec<String>),
}

/// The list that `value` stands for: a single string is the list that
/// holds it alone.
pub fn string_or_seq(value: StringOrSeq) -> (list: Vec<String>)
    ensures
        views(list@) == match value {
            StringOrSeq::One(text) => seq![text@],
            StringOrSeq::Many(list) => views(list@),
        },
{
    match value {
        StringOrSeq::One(text) => {
            let mut list: Vec<String> = Vec::new();
            list.push(text);
            assert(views(list@) =~= seq![text@]);
            list
        },
        StringOrSeq::Many(list) => list,
    }
}

} // verus!
