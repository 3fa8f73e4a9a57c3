//! Stable ordering by an integer key.

use vstd::prelude::*;

verus! {

/// Whether `order` lists the indices of `keys` by ascending key, indices of
/// equal keys in ascending order. There is exactly one such list.
pub open spec fn is_stable_order(keys: Seq<i64>, order: Seq<usize>) -> bool {
    &&& order.len() == keys.len()
    &&& forall|i: int| 0 <= i < order.len() ==> (#[trigger] order[i]) < keys.len()
    &&& forall|i: int, j: int|
        0 <= i < j < order.len() ==> {
            ||| keys[(#[trigger] order[i]) as int] < keys[(#[trigger] order[j]) as int]
            ||| (keys[order[i] as int] == keys[order[j] as int] && order[i] < order[j])
        }
}

/// The position at which index `index` is entered into `order`, which is in
/// stable order already: behind every index whose key is not larger.
fn insert_position(keys: &Vec<i64>, order: &Vec<usize>, index: usize) -> (r: usize)
    requires
        index < keys@.len(),
        forall|i: int| 0 <= i < order@.len() ==> (#[trigger] order@[i]) < index,
        forall|i: int, j: int|
            0 <= i < j < order@.len() ==> {
                ||| keys@[(#[trigger] order@[i]) as int] < keys@[(#[trigger] order@[j]) as int]
                ||| (keys@[order@[i] as int] == keys@[order@[j] as int] && order@[i] < order@[j])
            },
    ensures
        r <= order@.len(),
        forall|i: int| 0 <= i < r ==> keys@[(#[trigger] order@[i]) as int] <= keys@[index as int],
        forall|i: int|
            r <= i < order@.len() ==> keys@[(#[trigger] order@[i]) as int] > keys@[index as int],
{
    let mut at = order.len();
    while at > 0 && keys[order[at - 1]] > keys[index]
        invariant
            at <= order@.len(),
            index < keys@.len(),
            forall|i: int| 0 <= i < order@.len() ==> (#[trigger] order@[i]) < index,
            forall|i: int|
                at <= i < order@.len() ==> keys@[(#[trigger] order@[i]) as int] > keys@[index as int],
        decreases at,
    {
        at -= 1;
    }
    proof {
        assert forall|i: int| 0 <= i < at implies keys@[(#[trigger] order@[i]) as int]
            <= keys@[index as int] by {
            if i < at - 1 {
                assert(keys@[order@[i] as int] <= keys@[order@[at - 1] as int]);
            }
        }
    }
    at
}

/// The indices of `keys` by ascending key, indices of equal keys in
/// ascending order.
pub fn stable_order(keys: &Vec<i64>) -> (order: Vec<usize>)
    ensures
        is_stable_order(keys@, order@),
{
    let mut order: Vec<usize> = Vec::new();
    let mut index: usize = 0;
    while index < keys.len()
        invariant
            index <= keys@.len(),
            order@.len() == index,
            forall|i: int| 0 <= i < order@.len() ==> (#[trigger] order@[i]) < index,
            forall|i: int, j: int|
                0 <= i < j < order@.len() ==> {
                    ||| keys@[(#[trigger] order@[i]) as int] < keys@[(#[trigger] order@[j]) as int]
                    ||| (keys@[order@[i] as int] == keys@[order@[j] as int] && order@[i]
                        < order@[j])
                },
        decreases keys@.len() - index,
    {
        let at = insert_position(keys, &order, index);
        let ghost before = order@;
        order.insert(at, index);
        proof {
            let after = order@;
            assert(after == before.insert(at as int, index));
            assert forall|i: int| 0 <= i < after.len() implies (#[trigger] after[i]) < index + 1 by {
                if i < at {
                    assert(after[i] == before[i]);
                } else if i > at {
                    assert(after[i] == before[i - 1]);
                }
            }
            assert forall|i: int, j: int| 0 <= i < j < after.len() implies {
                ||| keys@[(#[trigger] after[i]) as int] < keys@[(#[trigger] after[j]) as int]
                ||| (keys@[after[i] as int] == keys@[after[j] as int] && after[i] < after[j])
            } by {
                let bi = if i < at {
                    i
                } else {
                    i - 1
                };
                let bj = if j < at {
                    j
                } else {
                    j - 1
                };
                if i != at {
                    assert(after[i] == before[bi]);
                }
                if j != at {
                    assert(after[j] == before[bj]);
                }
            }
        }
        index += 1;
    }
    order
}

} // verus!
