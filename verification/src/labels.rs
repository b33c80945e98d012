//! Label pairs as plain values: pairing label names with values, and
//! deciding whether two lists of pairs stand for the same set of labels.

use vstd::prelude::*;

verus! {

/// Each name with the value at the same position, as far as both lists
/// reach.
pub open spec fn paired(names: Seq<Seq<char>>, values: Seq<Seq<char>>) -> Seq<
    (Seq<char>, Seq<char>),
> {
    Seq::new(
        if names.len() <= values.len() {
            names.len()
        } else {
            values.len()
        },
        |i: int| (names[i], values[i]),
    )
}

/// Pairs each name with the value at the same position, as far as both lists
/// reach.
pub fn pair_up(names: &Vec<String>, values: &Vec<String>) -> (pairs: Vec<(String, String)>)
    ensures
        pairs.deep_view() == paired(names.deep_view(), values.deep_view()),
{
    let mut pairs: Vec<(String, String)> = Vec::new();
    let mut i: usize = 0;
    while i < names.len() && i < values.len()
        invariant
            i <= names.len(),
            i <= values.len(),
            pairs.len() == i,
            forall|j: int|
                0 <= j < i ==> (#[trigger] pairs@[j]).0@ == names@[j]@ && pairs@[j].1@
                    == values@[j]@,
        decreases names.len() - i,
    {
        pairs.push((names[i].clone(), values[i].clone()));
        i += 1;
    }
    assert(pairs.deep_view() =~= paired(names.deep_view(), values.deep_view()));
    pairs
}

/// Whether `pair` occurs in `pairs`.
pub fn has_pair(pairs: &Vec<(String, String)>, pair: &(String, String)) -> (found: bool)
    ensures
        found == pairs.deep_view().contains(pair.deep_view()),
{
    let mut i: usize = 0;
    while i < pairs.len()
        invariant
            i <= pairs.len(),
            forall|j: int| 0 <= j < i ==> #[trigger] pairs.deep_view()[j] != pair.deep_view(),
        decreases pairs.len() - i,
    {
        if pairs[i].0 == pair.0 && pairs[i].1 == pair.1 {
            assert(pairs.deep_view()[i as int] == pair.deep_view());
            return true;
        }
        i += 1;
    }
    false
}

/// Whether every pair of `part` occurs in `whole`.
pub fn covers(whole: &Vec<(String, String)>, part: &Vec<(String, String)>) -> (all: bool)
    ensures
        all == part.deep_view().to_set().subset_of(whole.deep_view().to_set()),
{
    let mut i: usize = 0;
    while i < part.len()
        invariant
            i <= part.len(),
            forall|j: int|
                0 <= j < i ==> whole.deep_view().contains(#[trigger] part.deep_view()[j]),
        decreases part.len() - i,
    {
        if !has_pair(whole, &part[i]) {
            assert(part.deep_view().to_set().contains(part.deep_view()[i as int]));
            return false;
        }
        i += 1;
    }
    true
}

/// Whether two lists of pairs hold the same pairs, whatever their order and
/// however often each occurs.
pub fn same_labels(a: &Vec<(String, String)>, b: &Vec<(String, String)>) -> (same: bool)
    ensures
        same == (a.deep_view().to_set() == b.deep_view().to_set()),
{
    let same = covers(a, b) && covers(b, a);
    proof {
        if same {
            assert(a.deep_view().to_set() =~= b.deep_view().to_set());
        }
    }
    same
}

} // verus!
