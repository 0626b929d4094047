//! Environment-variable lists: ordered (name, value) pairs in which each
//! name occurs at most once; setting a name replaces its value in place.

use vstd::prelude::*;
use crate::text::str_eq;

verus! {

/// The (name, value) pairs of a list, as characters.
pub open spec fn env_view(v: Seq<(String, String)>) -> Seq<(Seq<char>, Seq<char>)> {
    v.map_values(|p: (String, String)| (p.0@, p.1@))
}

/// Index of the first pair at or after `i` whose name is `k` (the length
/// when there is none).
pub open spec fn key_index_from(env: Seq<(Seq<char>, Seq<char>)>, k: Seq<char>, i: int) -> int
    decreases env.len() - i,
{
    if i < 0 || i >= env.len() {
        env.len() as int
    } else if env[i].0 == k {
        i
    } else {
        key_index_from(env, k, i + 1)
    }
}

/// The list with `k` set to `v`: the value of an existing `k` is replaced,
/// otherwise the pair is appended.
pub open spec fn env_set(env: Seq<(Seq<char>, Seq<char>)>, k: Seq<char>, v: Seq<char>) -> Seq<(Seq<char>, Seq<char>)> {
    let i = key_index_from(env, k, 0);
    if i < env.len() {
        env.update(i, (k, v))
    } else {
        env.push((k, v))
    }
}

/// The value of `k` in a list, if set.
pub open spec fn env_get(env: Seq<(Seq<char>, Seq<char>)>, k: Seq<char>) -> Option<Seq<char>> {
    let i = key_index_from(env, k, 0);
    if i < env.len() {
        Some(env[i].1)
    } else {
        None
    }
}

/// Sets `k` to `v` (see `env_set`).
pub fn env_insert(env: &mut Vec<(String, String)>, k: String, v: String)
    ensures
        env_view(final(env)@) == env_set(env_view(old(env)@), k@, v@),
{
    let ghost e = env_view(env@);
    let mut i: usize = 0;
    while i < env.len()
        invariant
            e == env_view(env@),
            e == env_view(old(env)@),
            i <= env@.len(),
            key_index_from(e, k@, 0) == key_index_from(e, k@, i as int),
        decreases env.len() - i,
    {
        if str_eq(env[i].0.as_str(), k.as_str()) {
            assert(key_index_from(e, k@, i as int) == i as int);
            env.set(i, (k, v));
            assert(env_view(env@) =~= e.update(i as int, (k@, v@)));
            return;
        }
        i = i + 1;
    }
    env.push((k, v));
    assert(env_view(env@) =~= e.push((k@, v@)));
}

/// The value of `k`, if set (see `env_get`).
pub fn env_lookup(env: &Vec<(String, String)>, k: &str) -> (r: Option<String>)
    ensures
        match r {
            Some(v) => env_get(env_view(env@), k@) == Some(v@),
            None => env_get(env_view(env@), k@) is None,
        },
{
    let ghost e = env_view(env@);
    let mut i: usize = 0;
    while i < env.len()
        invariant
            e == env_view(env@),
            i <= env@.len(),
            key_index_from(e, k@, 0) == key_index_from(e, k@, i as int),
        decreases env.len() - i,
    {
        if str_eq(env[i].0.as_str(), k) {
            assert(key_index_from(e, k@, i as int) == i as int);
            return Some(env[i].1.clone());
        }
        i = i + 1;
    }
    None
}

/// A copy of a list.
pub fn env_clone(env: &Vec<(String, String)>) -> (r: Vec<(String, String)>)
    ensures
        env_view(r@) == env_view(env@),
{
    let mut r: Vec<(String, String)> = Vec::new();
    let mut i: usize = 0;
    while i < env.len()
        invariant
            i <= env@.len(),
            env_view(r@) == env_view(env@.subrange(0, i as int)),
        decreases env.len() - i,
    {
        let ghost before = r@;
        let a = env[i].0.clone();
        let b = env[i].1.clone();
        r.push((a, b));
        proof {
            assert(env_view(r@) =~= env_view(before).push((env@[i as int].0@, env@[i as int].1@)));
            assert(env@.subrange(0, i + 1) =~= env@.subrange(0, i as int).push(env@[i as int]));
            assert(env_view(r@) =~= env_view(env@.subrange(0, i + 1)));
        }
        i = i + 1;
    }
    assert(env@.subrange(0, i as int) =~= env@);
    r
}

proof fn lemma_key_index_from(env: Seq<(Seq<char>, Seq<char>)>, k: Seq<char>, i: int)
    requires
        0 <= i <= env.len(),
    ensures
        i <= key_index_from(env, k, i) <= env.len(),
        key_index_from(env, k, i) < env.len() ==> env[key_index_from(env, k, i)].0 == k,
        forall|j: int| i <= j < key_index_from(env, k, i) ==> env[j].0 != k,
    decreases env.len() - i,
{
    if i < env.len() && env[i].0 != k {
        lemma_key_index_from(env, k, i + 1);
    }
}

proof fn lemma_key_index_same(
    a: Seq<(Seq<char>, Seq<char>)>,
    b: Seq<(Seq<char>, Seq<char>)>,
    k: Seq<char>,
    i: int,
)
    requires
        0 <= i <= a.len(),
        a.len() <= b.len(),
        forall|j: int| 0 <= j < a.len() ==> a[j].0 == b[j].0,
        key_index_from(a, k, i) < a.len(),
    ensures
        key_index_from(b, k, i) == key_index_from(a, k, i),
    decreases a.len() - i,
{
    if a[i].0 != k {
        lemma_key_index_same(a, b, k, i + 1);
    }
}

proof fn lemma_key_index_absent(
    a: Seq<(Seq<char>, Seq<char>)>,
    b: Seq<(Seq<char>, Seq<char>)>,
    k: Seq<char>,
    i: int,
)
    requires
        0 <= i <= a.len(),
        a.len() <= b.len(),
        forall|j: int| 0 <= j < a.len() ==> a[j].0 == b[j].0,
        key_index_from(a, k, i) == a.len(),
    ensures
        key_index_from(b, k, i) == key_index_from(b, k, a.len() as int),
    decreases a.len() - i,
{
    if i < a.len() {
        lemma_key_index_absent(a, b, k, i + 1);
    }
}

/// After setting a variable, reading it gives the value just set.
pub proof fn get_after_set(env: Seq<(Seq<char>, Seq<char>)>, k: Seq<char>, v: Seq<char>)
    ensures
        env_get(env_set(env, k, v), k) == Some(v),
{
    let i = key_index_from(env, k, 0);
    lemma_key_index_from(env, k, 0);
    let e2 = env_set(env, k, v);
    if i < env.len() {
        lemma_key_index_same(env, e2, k, 0);
    } else {
        lemma_key_index_absent(env, e2, k, 0);
        assert(e2[env.len() as int].0 == k);
    }
}

/// Setting a variable leaves every other variable as it was.
pub proof fn set_keeps_other_variables(env: Seq<(Seq<char>, Seq<char>)>, k: Seq<char>, v: Seq<char>, other: Seq<char>)
    requires
        other != k,
    ensures
        env_get(env_set(env, k, v), other) == env_get(env, other),
{
    let i = key_index_from(env, k, 0);
    lemma_key_index_from(env, k, 0);
    lemma_key_index_from(env, other, 0);
    let e2 = env_set(env, k, v);
    let o = key_index_from(env, other, 0);
    if o < env.len() {
        lemma_key_index_same(env, e2, other, 0);
        assert(o != i || i >= env.len());
    } else {
        lemma_key_index_absent(env, e2, other, 0);
        if i >= env.len() {
            assert(e2[env.len() as int].0 == k);
            assert(key_index_from(e2, other, env.len() as int + 1) == e2.len() as int);
        }
    }
}

} // verus!
