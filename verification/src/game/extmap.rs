//! Association lists keyed by strings, used for extension-owned search terms.
//!
//! A map is a `Vec` of `(key, value)` pairs; lookups find the first pair with
//! the key, and writes replace that pair in place or append a new one at the
//! end, so entries keep the order in which their keys first appeared.
use vstd::prelude::*;

verus! {

/// Index of the first key equal to `k`, searching from `from`; `-1` if none.
pub open spec fn index_of_key(keys: Seq<Seq<char>>, k: Seq<char>, from: nat) -> int
    decreases keys.len() - from,
{
    if from >= keys.len() {
        -1
    } else if keys[from as int] == k {
        from as int
    } else {
        index_of_key(keys, k, from + 1)
    }
}

pub open spec fn keys_of<V>(m: Seq<(Seq<char>, V)>) -> Seq<Seq<char>> {
    m.map_values(|p: (Seq<char>, V)| p.0)
}

/// Value stored under `k`, if any.
pub open spec fn assoc_get<V>(m: Seq<(Seq<char>, V)>, k: Seq<char>) -> Option<V> {
    let i = index_of_key(keys_of(m), k, 0);
    if i >= 0 {
        Some(m[i].1)
    } else {
        None
    }
}

/// `m` with `k` bound to `v`: the existing pair is replaced in place, or a
/// new pair is appended.
pub open spec fn assoc_set<V>(m: Seq<(Seq<char>, V)>, k: Seq<char>, v: V) -> Seq<(Seq<char>, V)> {
    let i = index_of_key(keys_of(m), k, 0);
    if i >= 0 {
        m.update(i, (k, v))
    } else {
        m.push((k, v))
    }
}

/// Two-level map: extension id, then key.
pub open spec fn ext_set<V>(
    m: Seq<(Seq<char>, Seq<(Seq<char>, V)>)>,
    ext_id: Seq<char>,
    key: Seq<char>,
    v: V,
) -> Seq<(Seq<char>, Seq<(Seq<char>, V)>)> {
    let inner = match assoc_get(m, ext_id) {
        Some(x) => x,
        None => Seq::empty(),
    };
    assoc_set(m, ext_id, assoc_set(inner, key, v))
}

/// Two-level map of lists: appends `v` to the list under `ext_id`, `key`.
pub open spec fn ext_push(
    m: Seq<(Seq<char>, Seq<(Seq<char>, Seq<Seq<char>>)>)>,
    ext_id: Seq<char>,
    key: Seq<char>,
    v: Seq<char>,
) -> Seq<(Seq<char>, Seq<(Seq<char>, Seq<Seq<char>>)>)> {
    let inner = match assoc_get(m, ext_id) {
        Some(x) => x,
        None => Seq::empty(),
    };
    let list = match assoc_get(inner, key) {
        Some(l) => l,
        None => Seq::empty(),
    };
    assoc_set(m, ext_id, assoc_set(inner, key, list.push(v)))
}

pub proof fn lemma_index_of_key(keys: Seq<Seq<char>>, k: Seq<char>, from: nat)
    ensures
        ({
            let i = index_of_key(keys, k, from);
            (i == -1 && forall|j: int| from <= j < keys.len() ==> keys[j] != k) || (from <= i
                < keys.len() && keys[i] == k && forall|j: int| from <= j < i ==> keys[j] != k)
        }),
    decreases keys.len() - from,
{
    if from < keys.len() && keys[from as int] != k {
        lemma_index_of_key(keys, k, from + 1);
    }
}

pub open spec fn exec_keys<V>(m: Seq<(String, V)>) -> Seq<Seq<char>> {
    m.map_values(|p: (String, V)| p.0@)
}

/// Position of the first pair whose key is `k`.
pub fn find_key<V>(m: &Vec<(String, V)>, k: &String) -> (r: Option<usize>)
    ensures
        match r {
            Some(i) => i as int == index_of_key(exec_keys(m@), k@, 0) && i < m@.len(),
            None => index_of_key(exec_keys(m@), k@, 0) == -1,
        },
{
    let ghost keys = exec_keys(m@);
    proof {
        lemma_index_of_key(keys, k@, 0);
    }
    let mut i: usize = 0;
    while i < m.len()
        invariant
            i <= m@.len(),
            keys == exec_keys(m@),
            keys.len() == m@.len(),
            forall|j: int| 0 <= j < i ==> keys[j] != k@,
            ({
                let x = index_of_key(keys, k@, 0);
                (x == -1 && forall|j: int| 0 <= j < keys.len() ==> keys[j] != k@) || (0 <= x
                    < keys.len() && keys[x] == k@ && forall|j: int| 0 <= j < x ==> keys[j] != k@)
            }),
        decreases m.len() - i,
    {
        assert(keys[i as int] == m@[i as int].0@);
        if m[i].0 == *k {
            return Some(i);
        }
        i = i + 1;
    }
    None
}

pub proof fn lemma_keys_deep<V: DeepView>(m: Vec<(String, V)>)
    ensures
        keys_of(m.deep_view()) == exec_keys(m@),
{
    assert(keys_of(m.deep_view()) =~= exec_keys(m@));
}

/// Access to the value stored under a key, adding an empty one first when
/// the key is missing.
pub trait InsertOrGet<V> {
    fn insert_or_get(&mut self, item: String) -> (r: &mut V);
}

/// A map whose values are lists: a missing key gets an empty list, appended
/// at the end.
impl<T> InsertOrGet<Vec<T>> for Vec<(String, Vec<T>)> {
    fn insert_or_get(&mut self, item: String) -> (r: &mut Vec<T>)
        ensures
            ({
                let i = index_of_key(exec_keys(old(self)@), item@, 0);
                if i >= 0 {
                    &&& *r == old(self)@[i].1
                    &&& final(self)@ == old(self)@.update(i, (old(self)@[i].0, *final(r)))
                } else {
                    &&& r@ == Seq::<T>::empty()
                    &&& final(self)@ == old(self)@.push((item, *final(r)))
                }
            }),
    {
        match find_key(self, &item) {
            Some(i) => &mut self[i].1,
            None => {
                self.push((item, Vec::new()));
                let n = self.len() - 1;
                &mut self[n].1
            },
        }
    }
}

/// Appends `v` under `ext_id`, `key`, creating the entries that are missing.
pub fn ext_push_exec(
    m: &mut Vec<(String, Vec<(String, Vec<String>)>)>,
    ext_id: &String,
    key: &String,
    v: String,
)
    ensures
        final(m).deep_view() == ext_push(old(m).deep_view(), ext_id@, key@, v@),
{
    let ghost m0 = *m;
    proof {
        lemma_keys_deep(m0);
        lemma_index_of_key(exec_keys(m0@), ext_id@, 0);
    }
    let inner = m.insert_or_get(ext_id.clone());
    let ghost inner0 = *inner;
    proof {
        lemma_keys_deep(inner0);
        lemma_index_of_key(exec_keys(inner0@), key@, 0);
    }
    let list = inner.insert_or_get(key.clone());
    let ghost list0 = *list;
    list.push(v);
    proof {
        let i = index_of_key(exec_keys(m0@), ext_id@, 0);
        let inner_dv = if i >= 0 { m0@[i].1.deep_view() } else { Seq::empty() };
        assert(inner0.deep_view() == inner_dv);
        let j = index_of_key(exec_keys(inner0@), key@, 0);
        let list_dv = if j >= 0 { inner0@[j].1.deep_view() } else { Seq::empty() };
        assert(list0.deep_view() =~= list_dv);
        assert(final(list).deep_view() =~= list_dv.push(v@));
        assert(final(inner).deep_view() =~= assoc_set(inner_dv, key@, list_dv.push(v@)));
        assert(final(m).deep_view() =~= ext_push(m0.deep_view(), ext_id@, key@, v@));
    }
}

/// Binds `key` under `ext_id` to `v`, creating the entries that are missing.
pub fn ext_set_exec<V: Copy + DeepView>(
    m: &mut Vec<(String, Vec<(String, V)>)>,
    ext_id: &String,
    key: &String,
    v: V,
)
    ensures
        final(m).deep_view() == ext_set(old(m).deep_view(), ext_id@, key@, v.deep_view()),
{
    let ghost m0 = *m;
    proof {
        lemma_keys_deep(m0);
        lemma_index_of_key(exec_keys(m0@), ext_id@, 0);
    }
    let inner = m.insert_or_get(ext_id.clone());
    let ghost inner0 = *inner;
    proof {
        lemma_keys_deep(inner0);
        lemma_index_of_key(exec_keys(inner0@), key@, 0);
    }
    match find_key(inner, key) {
        Some(j) => {
            inner[j] = (key.clone(), v);
        },
        None => {
            inner.push((key.clone(), v));
        },
    }
    proof {
        let i = index_of_key(exec_keys(m0@), ext_id@, 0);
        let inner_dv = if i >= 0 { m0@[i].1.deep_view() } else { Seq::empty() };
        assert(inner0.deep_view() == inner_dv);
        assert(final(inner).deep_view() =~= assoc_set(inner_dv, key@, v.deep_view()));
        assert(final(m).deep_view() =~= ext_set(m0.deep_view(), ext_id@, key@, v.deep_view()));
    }
}

/// Value stored under `k` in a map with `String` keys.
pub open spec fn exec_assoc_get<V>(m: Seq<(String, V)>, k: Seq<char>) -> Option<V> {
    let i = index_of_key(exec_keys(m), k, 0);
    if i >= 0 {
        Some(m[i].1)
    } else {
        None
    }
}

/// `m` with `k` bound to `v`, in a map with `String` keys.
pub open spec fn exec_assoc_set<V>(m: Seq<(String, V)>, k: String, v: V) -> Seq<(String, V)> {
    let i = index_of_key(exec_keys(m), k@, 0);
    if i >= 0 {
        m.update(i, (k, v))
    } else {
        m.push((k, v))
    }
}

pub proof fn lemma_index_of_key_push(keys: Seq<Seq<char>>, x: Seq<char>, k: Seq<char>, from: nat)
    requires
        from <= keys.len(),
    ensures
        index_of_key(keys.push(x), k, from) == (if index_of_key(keys, k, from) >= 0 {
            index_of_key(keys, k, from)
        } else if x == k {
            keys.len() as int
        } else {
            -1
        }),
    decreases keys.len() - from,
{
    if from < keys.len() {
        assert(keys.push(x)[from as int] == keys[from as int]);
        if keys[from as int] != k {
            lemma_index_of_key_push(keys, x, k, from + 1);
        }
    } else {
        assert(keys.push(x)[from as int] == x);
        if x != k {
            assert(index_of_key(keys.push(x), k, from + 1) == -1);
        }
    }
}

/// Reading a key back after binding it gives the bound value; other keys
/// are unaffected.
pub proof fn lemma_exec_assoc_set_get<V>(m: Seq<(String, V)>, k: String, v: V, k2: Seq<char>)
    ensures
        exec_assoc_get(exec_assoc_set(m, k, v), k2) == (if k2 == k@ {
            Some(v)
        } else {
            exec_assoc_get(m, k2)
        }),
{
    let keys = exec_keys(m);
    let i = index_of_key(keys, k@, 0);
    lemma_index_of_key(keys, k@, 0);
    lemma_index_of_key(keys, k2, 0);
    let m2 = exec_assoc_set(m, k, v);
    if i >= 0 {
        assert(exec_keys(m2) =~= keys);
    } else {
        assert(exec_keys(m2) =~= keys.push(k@));
        lemma_index_of_key_push(keys, k@, k2, 0);
    }
}

} // verus!
