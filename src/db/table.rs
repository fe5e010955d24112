//! Association tables: sequences of (type identity, value) pairs whose keys
//! are unique, read as maps.

use crate::container::same_type_id;
use std::any::TypeId;
use vstd::prelude::*;

verus! {

/// No identity occurs twice among the keys of `s`.
pub open spec fn keys_unique<V>(s: Seq<(TypeId, V)>) -> bool {
    forall|i: int, j: int|
        0 <= i < s.len() && 0 <= j < s.len() && #[trigger] s[i].0 == #[trigger] s[j].0 ==> i == j
}

/// The map that `s` stands for: each key to the value paired with it, a later
/// pair taking precedence over an earlier one with the same key.
pub open spec fn table_map<V>(s: Seq<(TypeId, V)>) -> Map<TypeId, V>
    decreases s.len(),
{
    if s.len() == 0 {
        Map::empty()
    } else {
        table_map(s.drop_last()).insert(s.last().0, s.last().1)
    }
}

pub proof fn lemma_table_contains<V>(s: Seq<(TypeId, V)>, k: TypeId)
    ensures
        table_map(s).contains_key(k) <==> exists|i: int| 0 <= i < s.len() && #[trigger] s[i].0 == k,
    decreases s.len(),
{
    if s.len() > 0 {
        lemma_table_contains(s.drop_last(), k);
        if table_map(s.drop_last()).contains_key(k) {
            let i = choose|i: int| 0 <= i < s.drop_last().len() && #[trigger] s.drop_last()[i].0 == k;
            assert(s[i].0 == k);
        }
        if exists|i: int| 0 <= i < s.len() && #[trigger] s[i].0 == k {
            let i = choose|i: int| 0 <= i < s.len() && #[trigger] s[i].0 == k;
            if i < s.len() - 1 {
                assert(s.drop_last()[i].0 == k);
            }
        }
    }
}

pub proof fn lemma_table_value<V>(s: Seq<(TypeId, V)>, i: int)
    requires
        keys_unique(s),
        0 <= i < s.len(),
    ensures
        table_map(s).contains_key(s[i].0),
        table_map(s)[s[i].0] == s[i].1,
    decreases s.len(),
{
    if i < s.len() - 1 {
        let t = s.drop_last();
        assert(keys_unique(t)) by {
            assert forall|a: int, b: int|
                0 <= a < t.len() && 0 <= b < t.len() && #[trigger] t[a].0 == #[trigger] t[b].0 implies a
                == b by {
                assert(s[a].0 == s[b].0);
            }
        }
        lemma_table_value(t, i);
        assert(t[i] == s[i]);
        assert(s.last().0 != s[i].0) by {
            assert(s[s.len() - 1].0 == s.last().0);
        }
    }
}

pub proof fn lemma_table_update<V>(s: Seq<(TypeId, V)>, i: int, v: V)
    requires
        keys_unique(s),
        0 <= i < s.len(),
    ensures
        keys_unique(s.update(i, (s[i].0, v))),
        table_map(s.update(i, (s[i].0, v))) == table_map(s).insert(s[i].0, v),
    decreases s.len(),
{
    let u = s.update(i, (s[i].0, v));
    assert(keys_unique(u)) by {
        assert forall|a: int, b: int|
            0 <= a < u.len() && 0 <= b < u.len() && #[trigger] u[a].0 == #[trigger] u[b].0 implies a
            == b by {
            assert(s[a].0 == u[a].0);
            assert(s[b].0 == u[b].0);
        }
    }
    let t = s.drop_last();
    if i == s.len() - 1 {
        assert(u.drop_last() =~= t);
        assert(table_map(u) =~= table_map(s).insert(s[i].0, v));
    } else {
        assert(keys_unique(t)) by {
            assert forall|a: int, b: int|
                0 <= a < t.len() && 0 <= b < t.len() && #[trigger] t[a].0 == #[trigger] t[b].0 implies a
                == b by {
                assert(s[a].0 == s[b].0);
            }
        }
        lemma_table_update(t, i, v);
        assert(u.drop_last() =~= t.update(i, (t[i].0, v)));
        assert(u.last() == s.last());
        assert(s.last().0 != s[i].0) by {
            assert(s[s.len() - 1].0 == s.last().0);
        }
        assert(table_map(u) =~= table_map(s).insert(s[i].0, v));
    }
}

pub proof fn lemma_table_push<V>(s: Seq<(TypeId, V)>, k: TypeId, v: V)
    requires
        keys_unique(s),
        !table_map(s).contains_key(k),
    ensures
        keys_unique(s.push((k, v))),
        table_map(s.push((k, v))) == table_map(s).insert(k, v),
{
    let p = s.push((k, v));
    lemma_table_contains(s, k);
    assert(keys_unique(p)) by {
        assert forall|a: int, b: int|
            0 <= a < p.len() && 0 <= b < p.len() && #[trigger] p[a].0 == #[trigger] p[b].0 implies a
            == b by {
            if a < s.len() {
                assert(p[a] == s[a]);
            }
            if b < s.len() {
                assert(p[b] == s[b]);
            }
        }
    }
    assert(p.drop_last() =~= s);
}

/// The index of the pair whose key is `key`, if any.
pub fn position<V>(table: &Vec<(TypeId, V)>, key: &TypeId) -> (r: Option<usize>)
    ensures
        r matches Some(i) ==> i < table@.len() && table@[i as int].0 == *key,
        r is None ==> forall|i: int| 0 <= i < table@.len() ==> #[trigger] table@[i].0 != *key,
{
    let mut i: usize = 0;
    while i < table.len()
        invariant
            0 <= i <= table@.len(),
            forall|j: int| 0 <= j < i ==> #[trigger] table@[j].0 != *key,
        decreases table@.len() - i,
    {
        if same_type_id(&table[i].0, key) {
            return Some(i);
        }
        i = i + 1;
    }
    None
}

} // verus!
