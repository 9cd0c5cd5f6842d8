//! Lists of strings kept free of duplicates: the active-id sets of the
//! stream checkers, in insertion order.

use vstd::prelude::*;

verus! {

/// Clones a list of strings element by element.
pub fn clone_strings(v: &Vec<String>) -> (r: Vec<String>)
    ensures
        r@ == v@,
{
    let mut out: Vec<String> = Vec::new();
    let mut i: usize = 0;
    while i < v.len()
        invariant
            i <= v.len(),
            out@ == v@.subrange(0, i as int),
        decreases v.len() - i,
    {
        out.push(v[i].clone());
        i = i + 1;
    }
    assert(out@ =~= v@);
    out
}


/// The texts of a list of strings.
pub open spec fn texts(v: Seq<String>) -> Seq<Seq<char>> {
    v.map_values(|s: String| s@)
}

/// Whether `v` holds a string with the text `key`.
pub fn contains_text(v: &Vec<String>, key: &String) -> (r: bool)
    ensures
        r == texts(v@).contains(key@),
{
    let mut i: usize = 0;
    while i < v.len()
        invariant
            i <= v.len(),
            forall|j: int| 0 <= j < i ==> v@[j]@ != key@,
        decreases v.len() - i,
    {
        if v[i] == *key {
            assert(texts(v@)[i as int] == key@);
            return true;
        }
        i = i + 1;
    }
    proof {
        if texts(v@).contains(key@) {
            let k = choose|k: int| 0 <= k < texts(v@).len() && texts(v@)[k] == key@;
            assert(v@[k]@ == key@);
        }
    }
    false
}

/// Removes the first string with the text `key`, if any.
pub fn remove_text(v: &mut Vec<String>, key: &String)
    ensures
        texts(final(v)@) == texts(old(v)@).remove_value(key@),
{
    let ghost old_texts = texts(v@);
    let mut i: usize = 0;
    while i < v.len()
        invariant
            i <= v.len(),
            v@ == old(v)@,
            old_texts == texts(v@),
            forall|j: int| 0 <= j < i ==> v@[j]@ != key@,
        decreases v.len() - i,
    {
        if v[i] == *key {
            proof {
                old_texts.index_of_first_ensures(key@);
                assert(old_texts[i as int] == key@);
                assert(old_texts.contains(key@));
                let f = old_texts.index_of_first(key@).unwrap();
                assert(f == i as int);
            }
            let ghost before = v@;
            v.remove(i);
            proof {
                assert(texts(v@) =~= old_texts.remove(i as int));
            }
            return;
        }
        i = i + 1;
    }
    proof {
        old_texts.index_of_first_ensures(key@);
        if old_texts.contains(key@) {
            let k = choose|k: int| 0 <= k < old_texts.len() && old_texts[k] == key@;
            assert(v@[k]@ == key@);
        }
    }
}

/// Appends a string.
pub fn push_text(v: &mut Vec<String>, key: String)
    ensures
        texts(final(v)@) == texts(old(v)@).push(key@),
{
    v.push(key);
    proof {
        assert(texts(v@) =~= texts(old(v)@).push(key@));
    }
}

/// The text Rust's `Debug` writes for a list of strings (such as
/// `["a", "b"]`).
pub uninterp spec fn debug_list_text(items: Seq<Seq<char>>) -> Seq<char>;

/// Formats a list of strings with `Debug` (`format!("{:?}", ..)`).
#[verifier::external_body]
pub(crate) fn debug_list(items: &Vec<String>) -> (r: String)
    ensures
        r@ == debug_list_text(texts(items@)),
{
    format!("{:?}", items)
}

/// Removing an item keeps a duplicate-free list duplicate-free and leaves
/// the item absent.
pub proof fn lemma_remove_value_no_duplicates(s: Seq<Seq<char>>, x: Seq<char>)
    requires
        s.no_duplicates(),
    ensures
        s.remove_value(x).no_duplicates(),
        !s.remove_value(x).contains(x),
        forall|y: Seq<char>| y != x ==> (s.remove_value(x).contains(y) <==> s.contains(y)),
{
    s.index_of_first_ensures(x);
    match s.index_of_first(x) {
        Some(i) => {
            let r = s.remove(i);
            assert forall|a: int, b: int| 0 <= a < r.len() && 0 <= b < r.len() && a != b implies r[a] != r[b] by {
                let sa = if a < i { a } else { a + 1 };
                let sb = if b < i { b } else { b + 1 };
                assert(r[a] == s[sa]);
                assert(r[b] == s[sb]);
            }
            if r.contains(x) {
                let k = choose|k: int| 0 <= k < r.len() && r[k] == x;
                let sk = if k < i { k } else { k + 1 };
                assert(s[sk] == x);
            }
            assert forall|y: Seq<char>| y != x implies (r.contains(y) <==> s.contains(y)) by {
                if s.contains(y) {
                    let k = choose|k: int| 0 <= k < s.len() && s[k] == y;
                    assert(k != i);
                    let rk = if k < i { k } else { k - 1 };
                    assert(r[rk] == y);
                }
                if r.contains(y) {
                    let k = choose|k: int| 0 <= k < r.len() && r[k] == y;
                    let sk = if k < i { k } else { k + 1 };
                    assert(s[sk] == y);
                }
            }
        },
        None => {},
    }
}

/// Adding an absent item keeps a list duplicate-free.
pub proof fn lemma_push_no_duplicates(s: Seq<Seq<char>>, x: Seq<char>)
    requires
        s.no_duplicates(),
        !s.contains(x),
    ensures
        s.push(x).no_duplicates(),
{
    let r = s.push(x);
    assert forall|a: int, b: int| 0 <= a < r.len() && 0 <= b < r.len() && a != b implies r[a] != r[b] by {
        if a == s.len() {
            assert(s[b] == r[b]);
        } else if b == s.len() {
            assert(s[a] == r[a]);
        }
    }
}

} // verus!
