use std::cmp::Ordering;

use vstd::prelude::*;

verus! {

broadcast use vstd::seq_lib::group_to_multiset_ensures;

/// The mathematical integer of an index.
pub open spec fn index_value(index: usize) -> int {
    index as int
}

/// `order` is a total preorder given by three-way answers: `a` is after `b`
/// exactly when `b` is before `a`, and "not after" is transitive.
pub open spec fn is_total_preorder<T>(order: spec_fn(T, T) -> Ordering) -> bool {
    &&& forall|a: T, b: T|
        #[trigger] order(a, b) == Ordering::Greater <==> order(b, a) == Ordering::Less
    &&& forall|a: T, b: T, c: T|
        #![trigger order(a, b), order(b, c)]
        order(a, b) != Ordering::Greater && order(b, c) != Ordering::Greater ==> order(a, c)
            != Ordering::Greater
}

/// Every answer the comparison can give for a pair is what `order` answers.
pub open spec fn answers_as<T, G: Fn(&T, &T) -> Ordering>(
    compare: G,
    order: spec_fn(T, T) -> Ordering,
) -> bool {
    forall|a: T, b: T, r: Ordering| #[trigger] compare.ensures((&a, &b), r) ==> r == order(a, b)
}

/// `positions` maps each output slot to a distinct input slot holding the same value.
pub open spec fn is_rearrangement<T>(input: Seq<T>, output: Seq<T>, positions: Seq<int>) -> bool {
    &&& positions.len() == output.len()
    &&& forall|k: int|
        0 <= k < output.len() ==> 0 <= #[trigger] positions[k] < input.len() && output[k]
            == input[positions[k]]
    &&& forall|p: int, q: int|
        0 <= p < q < output.len() ==> #[trigger] positions[p] != #[trigger] positions[q]
}

/// No element is after a later element under `order`.
pub open spec fn is_sorted_under<T>(order: spec_fn(T, T) -> Ordering, output: Seq<T>) -> bool {
    forall|p: int, q: int|
        0 <= p < q < output.len() ==> order(#[trigger] output[p], #[trigger] output[q])
            != Ordering::Greater
}

/// Elements that are equal under `order` keep their input order.
pub open spec fn keeps_ties_under<T>(
    order: spec_fn(T, T) -> Ordering,
    output: Seq<T>,
    positions: Seq<int>,
) -> bool {
    forall|p: int, q: int|
        0 <= p < q < output.len() && order(#[trigger] output[q], #[trigger] output[p])
            != Ordering::Greater ==> positions[p] < positions[q]
}

/// `output` rearranges `input` through `positions`; for every total preorder
/// that the comparison answers as, `output` is sorted by it and ties keep
/// their input order.
pub open spec fn is_stable_sort_of<T, G: Fn(&T, &T) -> Ordering>(
    compare: G,
    input: Seq<T>,
    output: Seq<T>,
    positions: Seq<int>,
) -> bool {
    &&& is_rearrangement(input, output, positions)
    &&& forall|order: spec_fn(T, T) -> Ordering|
        #[trigger] answers_as(compare, order) && is_total_preorder(order) ==> is_sorted_under(
            order,
            output,
        ) && keeps_ties_under(order, output, positions)
}

/// Stable insertion sort driven by a caller comparison `after(a, b)`, which
/// answers how `a` orders against `b`.
///
/// The output is always a rearrangement of the input. When the comparison
/// answers as a total preorder does, the output is sorted by that preorder
/// and ties keep their input order.
pub fn stable_insertion_sort<T: Copy, G: Fn(&T, &T) -> Ordering>(input: &Vec<T>, after: G) -> (output:
    Vec<T>)
    requires
        forall|a: T, b: T| after.requires((&a, &b)),
    ensures
        output@.len() == input@.len(),
        output@.to_multiset() == input@.to_multiset(),
        exists|positions: Seq<int>| is_stable_sort_of(after, input@, output@, positions),
{
    let mut output: Vec<T> = Vec::new();
    let ghost mut positions: Seq<int> = Seq::empty();
    let n = input.len();
    for i in 0..n
        invariant
            n == input@.len(),
            forall|a: T, b: T| after.requires((&a, &b)),
            output@.len() == i,
            output@.to_multiset() == input@.take(index_value(i)).to_multiset(),
            is_rearrangement(input@, output@, positions),
            forall|k: int| 0 <= k < output@.len() ==> #[trigger] positions[k] < i,
            forall|order: spec_fn(T, T) -> Ordering|
                #[trigger] answers_as(after, order) && is_total_preorder(order) ==> is_sorted_under(
                    order,
                    output@,
                ) && keeps_ties_under(order, output@, positions),
    {
        let x = input[i];
        let mut j = output.len();
        while j > 0
            invariant
                forall|a: T, b: T| after.requires((&a, &b)),
                j <= output@.len(),
                forall|k: int|
                    j <= k < output@.len() ==> after.ensures(
                        (&#[trigger] output@[k], &x),
                        Ordering::Greater,
                    ),
            ensures
                j <= output@.len(),
                forall|k: int|
                    j <= k < output@.len() ==> after.ensures(
                        (&#[trigger] output@[k], &x),
                        Ordering::Greater,
                    ),
                j > 0 ==> exists|o: Ordering|
                    #[trigger] after.ensures((&output@[j - 1], &x), o) && o != Ordering::Greater,
            decreases j,
        {
            match after(&output[j - 1], &x) {
                Ordering::Greater => {
                    j = j - 1;
                },
                _ => {
                    break;
                },
            }
        }
        let ghost old_output = output@;
        let ghost old_positions = positions;
        output.insert(j, x);
        proof {
            positions = old_positions.insert(index_value(j), index_value(i));
            assert(input@.take(i + 1) =~= input@.take(index_value(i)).push(x));
            assert(output@ =~= old_output.insert(index_value(j), x));
            assert forall|k: int| 0 <= k < output@.len() implies 0 <= #[trigger] positions[k]
                < input@.len() && output@[k] == input@[positions[k]] && positions[k] < i + 1 by {
                if k < j {
                } else if k == j {
                } else {
                    assert(positions[k] == old_positions[k - 1]);
                }
            }
            assert forall|p: int, q: int|
                0 <= p < q < output@.len() implies #[trigger] positions[p]
                != #[trigger] positions[q] by {
                if p < j && q > j {
                    assert(positions[q] == old_positions[q - 1]);
                } else if p > j {
                    assert(positions[p] == old_positions[p - 1]);
                    assert(positions[q] == old_positions[q - 1]);
                } else if q < j {
                } else if p == j {
                    assert(positions[q] == old_positions[q - 1]);
                    assert(old_positions[q - 1] < i);
                } else {
                    assert(old_positions[p] < i);
                }
            }
            assert forall|order: spec_fn(T, T) -> Ordering|
                #[trigger] answers_as(after, order) && is_total_preorder(
                    order,
                ) implies is_sorted_under(order, output@) && keeps_ties_under(
                order,
                output@,
                positions,
            ) by {
                assert(is_sorted_under(order, old_output));
                assert(keeps_ties_under(order, old_output, old_positions));
                if j > 0 {
                    let o = choose|o: Ordering|
                        #[trigger] after.ensures((&old_output[j - 1], &x), o) && o
                            != Ordering::Greater;
                    assert(order(old_output[j - 1], x) != Ordering::Greater);
                }
                assert forall|p: int, q: int| 0 <= p < q < output@.len() implies order(
                    #[trigger] output@[p],
                    #[trigger] output@[q],
                ) != Ordering::Greater by {
                    if q < j {
                        assert(output@[p] == old_output[p] && output@[q] == old_output[q]);
                    } else if p > j {
                        assert(output@[p] == old_output[p - 1] && output@[q] == old_output[q - 1]);
                    } else if p == j {
                        assert(after.ensures((&old_output[q - 1], &x), Ordering::Greater));
                        assert(order(old_output[q - 1], x) == Ordering::Greater);
                    } else if q == j {
                        if p < j - 1 {
                            assert(order(old_output[p], old_output[j - 1]) != Ordering::Greater);
                        }
                    } else {
                        assert(output@[p] == old_output[p] && output@[q] == old_output[q - 1]);
                    }
                }
                assert forall|p: int, q: int|
                    0 <= p < q < output@.len() && order(
                        #[trigger] output@[q],
                        #[trigger] output@[p],
                    ) != Ordering::Greater implies positions[p] < positions[q] by {
                    if q < j {
                        assert(output@[p] == old_output[p] && output@[q] == old_output[q]);
                    } else if p > j {
                        assert(output@[p] == old_output[p - 1] && output@[q] == old_output[q - 1]);
                        assert(positions[p] == old_positions[p - 1]);
                        assert(positions[q] == old_positions[q - 1]);
                    } else if p == j {
                        assert(after.ensures((&old_output[q - 1], &x), Ordering::Greater));
                        assert(order(old_output[q - 1], x) == Ordering::Greater);
                    } else if q == j {
                        assert(old_positions[p] < i);
                    } else {
                        assert(output@[p] == old_output[p] && output@[q] == old_output[q - 1]);
                        assert(positions[q] == old_positions[q - 1]);
                    }
                }
            }
        }
    }
    assert(input@.take(index_value(n)) =~= input@);
    assert(is_stable_sort_of(after, input@, output@, positions));
    output
}

} // verus!
