//! The mathematical view of lists and of values that may be missing, and
//! copies that keep it.

use crate::named::named_views;
use vstd::prelude::*;

verus! {

/// The views of a sequence of values.
pub open spec fn views<T: View>(items: Seq<T>) -> Seq<T::V> {
    Seq::new(items.len(), |i: int| items[i]@)
}

/// The views of a list, if there is a list.
pub open spec fn optional_views<T: View>(items: Option<Vec<T>>) -> Option<Seq<T::V>> {
    match items {
        Some(items) => Some(views(items@)),
        None => None,
    }
}

/// The view of a value that may be missing.
pub open spec fn optional_view<T: View>(item: Option<T>) -> Option<T::V> {
    match item {
        Some(item) => Some(item@),
        None => None,
    }
}

/// A copy of a list of strings.
pub fn copy_strings(strings: &Vec<String>) -> (result: Vec<String>)
    ensures
        views(result@) == views(strings@),
{
    let mut result: Vec<String> = Vec::new();
    let mut i: usize = 0;
    while i < strings.len()
        invariant
            i <= strings.len(),
            result@.len() == i,
            forall|k: int| 0 <= k < i ==> result@[k]@ == strings@[k]@,
        decreases strings.len() - i,
    {
        result.push(strings[i].clone());
        i += 1;
    }
    assert(views(result@) =~= views(strings@));
    result
}

/// A copy of a list of pairs of strings.
pub fn copy_pairs(pairs: &Vec<(String, String)>) -> (result: Vec<(String, String)>)
    ensures
        named_views(result@) == named_views(pairs@),
{
    let mut result: Vec<(String, String)> = Vec::new();
    let mut i: usize = 0;
    while i < pairs.len()
        invariant
            i <= pairs.len(),
            result@.len() == i,
            forall|k: int|
                0 <= k < i ==> result@[k].0@ == pairs@[k].0@ && result@[k].1@ == pairs@[k].1@,
        decreases pairs.len() - i,
    {
        result.push((pairs[i].0.clone(), pairs[i].1.clone()));
        i += 1;
    }
    assert(named_views(result@) =~= named_views(pairs@));
    result
}

/// A copy of a string that may be missing.
pub fn copy_optional(text: &Option<String>) -> (result: Option<String>)
    ensures
        optional_view(result) == optional_view(*text),
{
    match text {
        Some(text) => Some(text.clone()),
        None => None,
    }
}

} // verus!
