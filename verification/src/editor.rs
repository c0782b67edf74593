//! Selection of tiles by key.

use vstd::prelude::*;

use crate::fxmaps::Coord;

verus! {

/// Whether `i` is the first position of `key` in `keys`.
pub open spec fn is_first_position(keys: Seq<Coord>, key: Coord, i: int) -> bool {
    0 <= i < keys.len() && keys[i] == key && forall|j: int| 0 <= j < i ==> keys[j] != key
}

/// The first position of `key` in `keys` (when it occurs).
pub open spec fn first_position(keys: Seq<Coord>, key: Coord) -> int {
    choose|i: int| is_first_position(keys, key, i)
}

/// `keys` with its first occurrence of `key` taken out.
pub open spec fn without_first(keys: Seq<Coord>, key: Coord) -> Seq<Coord> {
    let i = first_position(keys, key);
    keys.take(i) + keys.skip(i + 1)
}

/// The first position is unique.
proof fn lemma_first_position(keys: Seq<Coord>, key: Coord, i: int)
    requires
        is_first_position(keys, key, i),
    ensures
        first_position(keys, key) == i,
{
    let k = first_position(keys, key);
    assert(is_first_position(keys, key, k));
    if k < i {
        assert(keys[k] != key);
    } else if k > i {
        assert(keys[i] != key);
    }
}

/// Toggles `key` in the selection: the first occurrence is taken out when
/// `key` is selected, otherwise `key` is added at the end.
pub fn toggle_key(keys: &mut Vec<Coord>, key: Coord)
    ensures
        old(keys)@.contains(key) ==> final(keys)@ == without_first(old(keys)@, key),
        !old(keys)@.contains(key) ==> final(keys)@ == old(keys)@.push(key),
{
    let n = keys.len();
    let mut i: usize = 0;
    while i < n
        invariant
            n == keys@.len(),
            keys@ == old(keys)@,
            i <= n,
            forall|j: int| 0 <= j < i ==> keys@[j] != key,
        decreases n - i,
    {
        let k = keys[i];
        if k.0 == key.0 && k.1 == key.1 && k.2 == key.2 {
            proof {
                assert(k == key);
                lemma_first_position(keys@, key, i as int);
            }
            keys.remove(i);
            assert(keys@ =~= without_first(old(keys)@, key));
            return;
        }
        i = i + 1;
    }
    assert(!keys@.contains(key));
    keys.push(key);
}

/// Toggling a key that is not selected and then toggling it again gives
/// back the selection; toggling flips whether the key is selected when it
/// occurs at most once.
pub proof fn lemma_toggle_twice(keys: Seq<Coord>, key: Coord)
    requires
        !keys.contains(key),
    ensures
        keys.push(key).contains(key),
        without_first(keys.push(key), key) == keys,
{
    let p = keys.push(key);
    assert(p[keys.len() as int] == key);
    assert forall|j: int| 0 <= j < keys.len() implies p[j] != key by {
        assert(p[j] == keys[j]);
    }
    lemma_first_position(p, key, keys.len() as int);
    assert(without_first(p, key) =~= keys);
}

/// Taking out the only occurrence of a key leaves it unselected.
pub proof fn lemma_toggle_removes(keys: Seq<Coord>, key: Coord)
    requires
        keys.contains(key),
        forall|i: int, j: int| 0 <= i < j < keys.len() ==> keys[i] != keys[j],
    ensures
        !without_first(keys, key).contains(key),
        without_first(keys, key).len() + 1 == keys.len(),
{
    let j0 = choose|j: int| 0 <= j < keys.len() && keys[j] == key;
    assert(is_first_position(keys, key, j0)) by {
        assert forall|j: int| 0 <= j < j0 implies keys[j] != key by {}
    }
    lemma_first_position(keys, key, j0);
    let i = j0;
    let w = without_first(keys, key);
    assert forall|k: int| 0 <= k < w.len() implies w[k] != key by {
        if k < i {
            assert(w[k] == keys[k]);
        } else {
            assert(w[k] == keys[k + 1]);
        }
    }
}

} // verus!
