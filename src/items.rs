use vstd::prelude::*;

verus! {

/// The labels written one after another, `", "` between each two.
pub open spec fn comma_joined(items: Seq<Seq<char>>) -> Seq<char>
    decreases items.len(),
{
    if items.len() == 0 {
        seq![]
    } else if items.len() == 1 {
        items[0]
    } else {
        comma_joined(items.drop_last()) + seq![',', ' '] + items.last()
    }
}

pub open spec fn views(items: Seq<String>) -> Seq<Seq<char>> {
    items.map_values(|s: String| s@)
}

/// Relies on `itertools::Itertools::format`: it writes the first item,
/// then the separator and the next item for each further one.
#[verifier::external_body]
fn join_comma(items: &[String]) -> (r: String)
    ensures
        r@ == comma_joined(views(items@)),
{
    itertools::Itertools::format(items.iter(), ", ").to_string()
}

/// The label of the operators found under a point: `None` where none is,
/// else their texts in the order they were recorded, joined by `", "`.
pub fn label_of(hits: &[String]) -> (r: Option<String>)
    ensures
        hits@.len() == 0 ==> r is None,
        hits@.len() > 0 ==> r is Some && r->Some_0@ == comma_joined(views(hits@)),
{
    if hits.len() == 0 {
        None
    } else {
        Some(join_comma(hits))
    }
}

} // verus!
