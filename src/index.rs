use vstd::prelude::*;

verus! {

/// The search index's upsert-by-key, as the crawl relies on it: the index
/// after upserting each `(key, document)` of `page` in order, where a key
/// already present gets the new document and a new key is added.
pub open spec fn upsert_all<T>(index: Map<i64, T>, page: Seq<(i64, T)>) -> Map<i64, T>
    decreases page.len(),
{
    if page.len() == 0 {
        index
    } else {
        upsert_all(index, page.drop_last()).insert(page.last().0, page.last().1)
    }
}

/// The documents of `page` by key, the last one winning for a repeated key.
pub open spec fn page_map<T>(page: Seq<(i64, T)>) -> Map<i64, T> {
    upsert_all(Map::empty(), page)
}

/// Upserting a page overwrites exactly the page's keys.
pub proof fn lemma_upsert_all_union<T>(index: Map<i64, T>, page: Seq<(i64, T)>)
    ensures
        upsert_all(index, page) == index.union_prefer_right(page_map(page)),
    decreases page.len(),
{
    if page.len() == 0 {
        assert(index.union_prefer_right(Map::<i64, T>::empty()) =~= index);
    } else {
        lemma_upsert_all_union(index, page.drop_last());
        lemma_upsert_all_union(Map::<i64, T>::empty(), page.drop_last());
        assert(Map::<i64, T>::empty().union_prefer_right(page_map(page.drop_last()))
            =~= page_map(page.drop_last()));
        assert(upsert_all(index, page) =~= index.union_prefer_right(page_map(page)));
    }
}

/// Upserting the same page twice leaves the index as upserting it once; so
/// a crawl step that indexes an unchanged page again (see `Crawler::step`)
/// changes nothing the crawl has upserted.
pub proof fn upsert_idempotent<T>(index: Map<i64, T>, page: Seq<(i64, T)>)
    ensures
        upsert_all(upsert_all(index, page), page) == upsert_all(index, page),
{
    lemma_upsert_all_union(index, page);
    lemma_upsert_all_union(upsert_all(index, page), page);
    assert(index.union_prefer_right(page_map(page)).union_prefer_right(page_map(page))
        =~= index.union_prefer_right(page_map(page)));
}

/// After upserting a page the index holds exactly the keys it held before
/// and every key of the page: no item of the page is left out.
pub proof fn upsert_all_covers<T>(index: Map<i64, T>, page: Seq<(i64, T)>, k: i64)
    ensures
        upsert_all(index, page).contains_key(k)
            <==> (index.contains_key(k) || exists|i: int| 0 <= i < page.len() && (#[trigger] page[i]).0 == k),
    decreases page.len(),
{
    if page.len() > 0 {
        let q = page.drop_last();
        upsert_all_covers(index, q, k);
        if exists|i: int| 0 <= i < q.len() && (#[trigger] q[i]).0 == k {
            let i = choose|i: int| 0 <= i < q.len() && (#[trigger] q[i]).0 == k;
            assert(page[i].0 == k);
        }
        if exists|i: int| 0 <= i < page.len() && (#[trigger] page[i]).0 == k {
            let i = choose|i: int| 0 <= i < page.len() && (#[trigger] page[i]).0 == k;
            if i < q.len() {
                assert(q[i].0 == k);
            }
        }
    }
}

} // verus!
