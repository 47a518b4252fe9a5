//! The search filter: the keys whose lowercase form contains the lowercase
//! query, in the order in which they were given.

use vstd::prelude::*;
use vstd::string::*;

use crate::text::{
    contains_seq, lemma_contains_empty, lower_of, lowercase, text_contains, texts,
};

verus! {

/// A key passes the filter when its lowercase form contains the lowercase query.
pub open spec fn key_matches(key: Seq<char>, query: Seq<char>) -> bool {
    contains_seq(lower_of(key), lower_of(query))
}

/// The keys of `keys` that match `query`, in their original order.
pub open spec fn filter_keys(keys: Seq<Seq<char>>, query: Seq<char>) -> Seq<Seq<char>>
    decreases keys.len(),
{
    if keys.len() == 0 {
        Seq::empty()
    } else {
        let rest = filter_keys(keys.drop_last(), query);
        if key_matches(keys.last(), query) {
            rest.push(keys.last())
        } else {
            rest
        }
    }
}

/// A key is in the filtered list exactly when it is one of the keys and
/// contains the query case-insensitively; every key left out does not.
pub proof fn lemma_filter_exact(keys: Seq<Seq<char>>, query: Seq<char>)
    ensures
        forall|k: Seq<char>| #[trigger]
            filter_keys(keys, query).contains(k) <==> (keys.contains(k) && key_matches(k, query)),
        forall|k: Seq<char>|
            keys.contains(k) && !#[trigger] filter_keys(keys, query).contains(k) ==> !key_matches(
                k,
                query,
            ),
    decreases keys.len(),
{
    if keys.len() > 0 {
        let init = keys.drop_last();
        lemma_filter_exact(init, query);
        assert(keys == init.push(keys.last()));
        assert forall|k: Seq<char>| keys.contains(k) <==> (init.contains(k) || k == keys.last()) by {
            if keys.contains(k) {
                let j = choose|j: int| 0 <= j < keys.len() && keys[j] == k;
                if j < keys.len() - 1 {
                    assert(init[j] == k);
                }
            }
            if init.contains(k) {
                let j = choose|j: int| 0 <= j < init.len() && init[j] == k;
                assert(keys[j] == k);
            }
            if k == keys.last() {
                assert(keys[keys.len() - 1] == k);
            }
        }
        let rest = filter_keys(init, query);
        assert forall|k: Seq<char>| rest.push(keys.last()).contains(k) <==> (rest.contains(k)
            || k == keys.last()) by {
            let p = rest.push(keys.last());
            if p.contains(k) {
                let j = choose|j: int| 0 <= j < p.len() && p[j] == k;
                if j < rest.len() {
                    assert(rest[j] == k);
                }
            }
            if rest.contains(k) {
                let j = choose|j: int| 0 <= j < rest.len() && rest[j] == k;
                assert(p[j] == k);
            }
            if k == keys.last() {
                assert(p[p.len() - 1] == k);
            }
        }
        let f = filter_keys(keys, query);
        if key_matches(keys.last(), query) {
            assert(f == rest.push(keys.last()));
        } else {
            assert(f == rest);
        }
        assert forall|k: Seq<char>| f.contains(k) <==> (keys.contains(k) && key_matches(k, query)) by {
            assert(rest.contains(k) <==> (init.contains(k) && key_matches(k, query)));
            assert(keys.contains(k) <==> (init.contains(k) || k == keys.last()));
        }
    } else {
        assert(filter_keys(keys, query) =~= Seq::<Seq<char>>::empty());
        assert forall|k: Seq<char>| !keys.contains(k) by {}
    }
}

/// The keys whose folded form (at the same position of `folded`) contains
/// `q`, in their original order.
pub open spec fn keep_matching(keys: Seq<Seq<char>>, folded: Seq<Seq<char>>, q: Seq<char>) -> Seq<
    Seq<char>,
>
    decreases keys.len(),
{
    if keys.len() == 0 || folded.len() != keys.len() {
        Seq::empty()
    } else {
        let rest = keep_matching(keys.drop_last(), folded.drop_last(), q);
        if contains_seq(folded.last(), q) {
            rest.push(keys.last())
        } else {
            rest
        }
    }
}

/// Filtering on the lowercase forms of the keys and of the query is the
/// case-insensitive filter.
proof fn lemma_keep_matching_lowered(
    keys: Seq<Seq<char>>,
    folded: Seq<Seq<char>>,
    query: Seq<char>,
)
    requires
        folded.len() == keys.len(),
        forall|j: int| 0 <= j < keys.len() ==> #[trigger] folded[j] == lower_of(keys[j]),
    ensures
        keep_matching(keys, folded, lower_of(query)) == filter_keys(keys, query),
    decreases keys.len(),
{
    if keys.len() > 0 {
        let (ki, fi) = (keys.drop_last(), folded.drop_last());
        assert forall|j: int| 0 <= j < ki.len() implies #[trigger] fi[j] == lower_of(ki[j]) by {
            assert(folded[j] == lower_of(keys[j]));
        }
        lemma_keep_matching_lowered(ki, fi, query);
        assert(folded[folded.len() - 1] == lower_of(keys[keys.len() - 1]));
    }
}

/// The keys whose lowercase form, given at the same position of `lowered`,
/// contains `query_lower`, in the order of `keys`. An empty `query_lower`
/// keeps every key.
pub fn filter_lowered(keys: &Vec<String>, lowered: &Vec<String>, query_lower: &str) -> (r: Vec<
    String,
>)
    requires
        lowered@.len() == keys@.len(),
    ensures
        texts(r@) == keep_matching(texts(keys@), texts(lowered@), query_lower@),
        query_lower@.len() == 0 ==> r@ == keys@,
{
    let mut r: Vec<String> = Vec::new();
    let mut i: usize = 0;
    while i < keys.len()
        invariant
            i <= keys@.len(),
            lowered@.len() == keys@.len(),
            texts(r@) == keep_matching(
                texts(keys@.subrange(0, i as int)),
                texts(lowered@.subrange(0, i as int)),
                query_lower@,
            ),
            query_lower@.len() == 0 ==> r@ == keys@.subrange(0, i as int),
        decreases keys@.len() - i,
    {
        let keep = text_contains(lowered[i].as_str(), query_lower);
        let ghost before = r@;
        if keep {
            r.push(keys[i].clone());
        }
        proof {
            let kp = keys@.subrange(0, i as int + 1);
            let lp = lowered@.subrange(0, i as int + 1);
            assert(kp.drop_last() =~= keys@.subrange(0, i as int));
            assert(lp.drop_last() =~= lowered@.subrange(0, i as int));
            assert(texts(kp).drop_last() =~= texts(kp.drop_last()));
            assert(texts(lp).drop_last() =~= texts(lp.drop_last()));
            assert(texts(kp).last() == keys@[i as int]@);
            assert(texts(lp).last() == lowered@[i as int]@);
            if keep {
                assert(texts(r@) =~= texts(before).push(keys@[i as int]@));
            }
            if query_lower@.len() == 0 {
                lemma_contains_empty(lowered@[i as int]@);
                assert(query_lower@ =~= Seq::<char>::empty());
                assert(kp =~= keys@.subrange(0, i as int).push(keys@[i as int]));
            }
        }
        i += 1;
    }
    assert(keys@.subrange(0, i as int) =~= keys@);
    assert(lowered@.subrange(0, i as int) =~= lowered@);
    r
}

/// The keys of `all_keys` whose lowercase form contains the lowercase
/// `query`, in the order of `all_keys`. An empty query keeps every key.
pub fn recompute(all_keys: &Vec<String>, query: &str) -> (r: Vec<String>)
    ensures
        texts(r@) == filter_keys(texts(all_keys@), query@),
        query@.len() == 0 ==> r@ == all_keys@,
{
    let q = lowercase(query);
    let mut lowered: Vec<String> = Vec::new();
    let mut i: usize = 0;
    while i < all_keys.len()
        invariant
            i <= all_keys@.len(),
            lowered@.len() == i,
            forall|j: int| 0 <= j < i ==> #[trigger] lowered@[j]@ == lower_of(all_keys@[j]@),
        decreases all_keys@.len() - i,
    {
        lowered.push(lowercase(all_keys[i].as_str()));
        i += 1;
    }
    let r = filter_lowered(all_keys, &lowered, q.as_str());
    proof {
        assert forall|j: int| 0 <= j < texts(all_keys@).len() implies #[trigger] texts(lowered@)[j]
            == lower_of(texts(all_keys@)[j]) by {
            assert(lowered@[j]@ == lower_of(all_keys@[j]@));
        }
        lemma_keep_matching_lowered(texts(all_keys@), texts(lowered@), query@);
    }
    r
}

} // verus!
