use vstd::prelude::*;

use crate::text::str_eq;

verus! {

/// Items found by a textual key (a tag id, a sample name, a table key).
pub trait Keyed {
    spec fn key_view(&self) -> Seq<char>;

    fn key(&self) -> (k: &str)
        ensures
            k@ == self.key_view(),
    ;
}

impl Keyed for String {
    open spec fn key_view(&self) -> Seq<char> {
        self@
    }

    fn key(&self) -> (k: &str) {
        self.as_str()
    }
}

impl Keyed for (String, String) {
    open spec fn key_view(&self) -> Seq<char> {
        self.0@
    }

    fn key(&self) -> (k: &str) {
        self.0.as_str()
    }
}

/// `i` is the first position whose key is `key`.
pub open spec fn is_first<T: Keyed>(items: Seq<T>, key: Seq<char>, i: int) -> bool {
    &&& 0 <= i < items.len()
    &&& items[i].key_view() == key
    &&& forall|j: int| 0 <= j < i ==> items[j].key_view() != key
}

/// The first position whose key is `key`, if any.
pub open spec fn first_index<T: Keyed>(items: Seq<T>, key: Seq<char>) -> Option<int> {
    if exists|i: int| is_first(items, key, i) {
        Some(choose|i: int| is_first(items, key, i))
    } else {
        None
    }
}

/// Whether some item has the key.
pub open spec fn has_key<T: Keyed>(items: Seq<T>, key: Seq<char>) -> bool {
    exists|i: int| 0 <= i < items.len() && items[i].key_view() == key
}

pub proof fn lemma_first_unique<T: Keyed>(items: Seq<T>, key: Seq<char>, i: int, k: int)
    requires
        is_first(items, key, i),
        is_first(items, key, k),
    ensures
        i == k,
{
}

pub proof fn lemma_first_index_found<T: Keyed>(items: Seq<T>, key: Seq<char>, i: int)
    requires
        is_first(items, key, i),
    ensures
        first_index(items, key) == Some(i),
{
    let k = choose|k: int| is_first(items, key, k);
    lemma_first_unique(items, key, i, k);
}

pub proof fn lemma_first_index_none<T: Keyed>(items: Seq<T>, key: Seq<char>)
    requires
        !has_key(items, key),
    ensures
        first_index(items, key) == None::<int>,
{
}

/// A key is found exactly when some item has it, and then the first one is returned.
pub proof fn lemma_first_index_spec<T: Keyed>(items: Seq<T>, key: Seq<char>)
    ensures
        first_index(items, key) is Some <==> has_key(items, key),
        first_index(items, key) matches Some(i) ==> is_first(items, key, i),
{
    if has_key(items, key) {
        let w = choose|w: int| 0 <= w < items.len() && items[w].key_view() == key;
        let i = lemma_exists_first(items, key, w);
        lemma_first_index_found(items, key, i);
    }
}

proof fn lemma_exists_first<T: Keyed>(items: Seq<T>, key: Seq<char>, w: int) -> (i: int)
    requires
        0 <= w < items.len(),
        items[w].key_view() == key,
    ensures
        is_first(items, key, i),
    decreases w,
{
    if exists|j: int| 0 <= j < w && items[j].key_view() == key {
        let j = choose|j: int| 0 <= j < w && items[j].key_view() == key;
        lemma_exists_first(items, key, j)
    } else {
        w
    }
}

/// Appending an item leaves earlier keys where they were.
pub proof fn lemma_first_index_push<T: Keyed>(items: Seq<T>, x: T, key: Seq<char>)
    ensures
        first_index(items.push(x), key) == (match first_index(items, key) {
            Some(i) => Some(i),
            None => if x.key_view() == key {
                Some(items.len() as int)
            } else {
                None
            },
        }),
{
    let s = items.push(x);
    lemma_first_index_spec(items, key);
    match first_index(items, key) {
        Some(i) => {
            assert(is_first(s, key, i));
            lemma_first_index_found(s, key, i);
        },
        None => {
            if x.key_view() == key {
                assert(is_first(s, key, items.len() as int));
                lemma_first_index_found(s, key, items.len() as int);
            } else {
                assert(!has_key(s, key)) by {
                    if has_key(s, key) {
                        let w = choose|w: int| 0 <= w < s.len() && s[w].key_view() == key;
                        assert(has_key(items, key) || w == items.len());
                    }
                }
            }
        },
    }
}

/// Replacing an item by one with the same key moves no key.
pub proof fn lemma_first_index_update<T: Keyed>(items: Seq<T>, i: int, x: T, key: Seq<char>)
    requires
        0 <= i < items.len(),
        x.key_view() == items[i].key_view(),
    ensures
        first_index(items.update(i, x), key) == first_index(items, key),
{
    let s = items.update(i, x);
    lemma_first_index_spec(items, key);
    lemma_first_index_spec(s, key);
    if let Some(k) = first_index(items, key) {
        assert(is_first(s, key, k));
        lemma_first_index_found(s, key, k);
    } else {
        assert(!has_key(s, key)) by {
            if has_key(s, key) {
                let w = choose|w: int| 0 <= w < s.len() && s[w].key_view() == key;
                assert(items[w].key_view() == key);
            }
        }
    }
}

pub open spec fn opt_index(r: Option<usize>) -> Option<int> {
    match r {
        Some(i) => Some(i as int),
        None => None,
    }
}

/// Position of the first item whose key is `key`.
pub fn position<T: Keyed>(items: &Vec<T>, key: &str) -> (r: Option<usize>)
    ensures
        opt_index(r) == first_index(items@, key@),
        r matches Some(i) ==> is_first(items@, key@, i as int),
        r is None <==> !has_key(items@, key@),
{
    let n = items.len();
    let mut i: usize = 0;
    while i < n
        invariant
            n == items.len(),
            i <= n,
            forall|j: int| 0 <= j < i ==> items@[j].key_view() != key@,
        decreases n - i,
    {
        if str_eq(items[i].key(), key) {
            proof {
                lemma_first_index_found(items@, key@, i as int);
            }
            return Some(i);
        }
        i = i + 1;
    }
    proof {
        lemma_first_index_none(items@, key@);
    }
    None
}

} // verus!
