//! The resolution stage: from the outcomes of the per-post requests to the
//! assets that will be downloaded.

use crate::catalog::{asset_view, AssetReference, AssetView};
use crate::error::{ErrorView, PipelineError};
use crate::text::views;
use vstd::prelude::*;

verus! {

/// What the videos request for one post came to: an asset, no asset, or a
/// failure.
#[derive(Debug, PartialEq, Eq)]
pub struct Resolved {
    pub post_id: String,
    pub outcome: Result<Option<AssetReference>, PipelineError>,
}

/// The mathematical value of a [`Resolved`].
pub struct ResolvedView {
    pub post_id: Seq<char>,
    pub outcome: Result<Option<AssetView>, ErrorView>,
}

impl View for Resolved {
    type V = ResolvedView;

    open spec fn view(&self) -> ResolvedView {
        ResolvedView {
            post_id: self.post_id@,
            outcome: match self.outcome {
                Ok(asset) => Ok(asset_view(asset)),
                Err(error) => Err(error@),
            },
        }
    }
}

/// One post with the asset chosen for it.
#[derive(Debug, PartialEq, Eq)]
pub struct ResolvedAsset {
    pub post_id: String,
    pub asset: AssetReference,
}

/// The mathematical value of a [`ResolvedAsset`].
pub struct EntryView {
    pub post_id: Seq<char>,
    pub asset: AssetView,
}

impl View for ResolvedAsset {
    type V = EntryView;

    open spec fn view(&self) -> EntryView {
        EntryView { post_id: self.post_id@, asset: self.asset@ }
    }
}

/// Whether no post identifier occurs twice in `entries`.
pub open spec fn distinct_ids(entries: Seq<EntryView>) -> bool {
    forall|i: int, j: int|
        0 <= i < entries.len() && 0 <= j < entries.len() && (#[trigger] entries[i]).post_id == (
        #[trigger] entries[j]).post_id ==> i == j
}

/// Whether `entries` holds an entry for `post_id`.
pub open spec fn has_id(entries: Seq<EntryView>, post_id: Seq<char>) -> bool {
    exists|i: int| 0 <= i < entries.len() && (#[trigger] entries[i]).post_id == post_id
}

/// The mapping that `entries` stand for: each post identifier in it, with
/// the asset of an entry that holds it.
pub open spec fn map_of(entries: Seq<EntryView>) -> Map<Seq<char>, AssetView> {
    Map::new(
        |post_id: Seq<char>| has_id(entries, post_id),
        |post_id: Seq<char>|
            entries[choose|i: int|
                0 <= i < entries.len() && (#[trigger] entries[i]).post_id == post_id].asset,
    )
}

/// With distinct identifiers, the mapping holds each entry's asset under
/// the entry's identifier.
pub proof fn lemma_map_of_entry(entries: Seq<EntryView>, i: int)
    requires
        distinct_ids(entries),
        0 <= i < entries.len(),
    ensures
        map_of(entries).dom().contains(entries[i].post_id),
        map_of(entries)[entries[i].post_id] == entries[i].asset,
{
    let post_id = entries[i].post_id;
    let j = choose|j: int| 0 <= j < entries.len() && (#[trigger] entries[j]).post_id == post_id;
    assert(i == j);
}

/// Adding an entry under a new identifier adds it to the mapping.
pub proof fn lemma_map_of_push(entries: Seq<EntryView>, entry: EntryView)
    requires
        distinct_ids(entries),
        !has_id(entries, entry.post_id),
    ensures
        distinct_ids(entries.push(entry)),
        map_of(entries.push(entry)) == map_of(entries).insert(entry.post_id, entry.asset),
{
    let more = entries.push(entry);
    let target = map_of(entries).insert(entry.post_id, entry.asset);
    assert(more[entries.len() as int] == entry);
    assert forall|post_id: Seq<char>| has_id(more, post_id) <==> (has_id(entries, post_id)
        || post_id == entry.post_id) by {
        if has_id(entries, post_id) {
            let i = choose|i: int|
                0 <= i < entries.len() && (#[trigger] entries[i]).post_id == post_id;
            assert(more[i] == entries[i]);
        }
    }
    assert forall|post_id: Seq<char>| #[trigger] target.dom().contains(post_id) implies map_of(
        more,
    )[post_id] == target[post_id] by {
        if post_id == entry.post_id {
            lemma_map_of_entry(more, entries.len() as int);
        } else {
            let i = choose|i: int|
                0 <= i < entries.len() && (#[trigger] entries[i]).post_id == post_id;
            lemma_map_of_entry(more, i);
            lemma_map_of_entry(entries, i);
        }
    }
}

/// Replacing the asset of an entry replaces it in the mapping.
pub proof fn lemma_map_of_update(entries: Seq<EntryView>, i: int, asset: AssetView)
    requires
        distinct_ids(entries),
        0 <= i < entries.len(),
    ensures
        distinct_ids(entries.update(i, EntryView { post_id: entries[i].post_id, asset })),
        map_of(entries.update(i, EntryView { post_id: entries[i].post_id, asset })) == map_of(
            entries,
        ).insert(entries[i].post_id, asset),
{
    let entry = EntryView { post_id: entries[i].post_id, asset };
    let changed = entries.update(i, entry);
    let target = map_of(entries).insert(entry.post_id, asset);
    assert forall|post_id: Seq<char>| has_id(changed, post_id) <==> has_id(entries, post_id) by {
        if has_id(entries, post_id) {
            let a = choose|a: int|
                0 <= a < entries.len() && (#[trigger] entries[a]).post_id == post_id;
            assert(changed[a].post_id == post_id);
        }
    }
    assert forall|post_id: Seq<char>| #[trigger] target.dom().contains(post_id) implies map_of(
        changed,
    )[post_id] == target[post_id] by {
        if post_id == entry.post_id {
            lemma_map_of_entry(changed, i);
        } else {
            let a = choose|a: int|
                0 <= a < entries.len() && (#[trigger] entries[a]).post_id == post_id;
            lemma_map_of_entry(changed, a);
            lemma_map_of_entry(entries, a);
        }
    }
}

/// The assets to download, one for each post that has one. The posts keep
/// the order in which they first came in.
#[derive(Debug, PartialEq, Eq)]
pub struct ResolvedAssets {
    entries: Vec<ResolvedAsset>,
}

impl View for ResolvedAssets {
    type V = Map<Seq<char>, AssetView>;

    open spec fn view(&self) -> Map<Seq<char>, AssetView> {
        map_of(self.entries())
    }
}

impl ResolvedAssets {
    /// The posts and their assets, in order.
    pub closed spec fn entries(&self) -> Seq<EntryView> {
        views(self.entries@)
    }

    /// No post occurs twice.
    #[verifier::type_invariant]
    pub closed spec fn distinct(&self) -> bool {
        distinct_ids(views(self.entries@))
    }

    /// No assets.
    pub fn new() -> (res: ResolvedAssets)
        ensures
            res.entries() == Seq::<EntryView>::empty(),
            res@ == Map::<Seq<char>, AssetView>::empty(),
            distinct_ids(res.entries()),
    {
        let entries: Vec<ResolvedAsset> = Vec::new();
        ResolvedAssets { entries }
    }

    /// The number of posts that have an asset.
    pub fn len(&self) -> (res: usize)
        ensures
            res == self.entries().len(),
            distinct_ids(self.entries()),
    {
        proof {
            use_type_invariant(self);
        }
        self.entries.len()
    }

    /// The post at position `i` and its asset.
    pub fn entry(&self, i: usize) -> (res: &ResolvedAsset)
        requires
            i < self.entries().len(),
        ensures
            res@ == self.entries()[i as int],
    {
        &self.entries[i]
    }

    /// The position of the entry for `post_id`, if there is one.
    fn position(&self, post_id: &str) -> (res: Option<usize>)
        ensures
            match res {
                Some(i) => i < self.entries().len() && self.entries()[i as int].post_id == post_id@,
                None => !has_id(self.entries(), post_id@),
            },
    {
        let wanted = String::from_str(post_id);
        let mut i: usize = 0;
        while i < self.entries.len()
            invariant
                i <= self.entries.len(),
                wanted@ == post_id@,
                forall|j: int| 0 <= j < i ==> (#[trigger] views(self.entries@)[j]).post_id != post_id@,
            decreases self.entries.len() - i,
        {
            if self.entries[i].post_id == wanted {
                return Some(i);
            }
            i = i + 1;
        }
        None
    }

    /// The asset chosen for `post_id`, if it has one.
    pub fn get(&self, post_id: &str) -> (res: Option<&AssetReference>)
        ensures
            match res {
                Some(asset) => self@.dom().contains(post_id@) && self@[post_id@] == asset@,
                None => !self@.dom().contains(post_id@),
            },
    {
        proof {
            use_type_invariant(self);
        }
        match self.position(post_id) {
            Some(i) => {
                proof {
                    lemma_map_of_entry(self.entries(), i as int);
                }
                Some(&self.entries[i].asset)
            },
            None => None,
        }
    }

    /// Records `asset` for `post_id`, in place of an earlier asset for the
    /// same post if there was one.
    pub fn insert(self, post_id: String, asset: AssetReference) -> (res: ResolvedAssets)
        ensures
            res@ == self@.insert(post_id@, asset@),
            distinct_ids(res.entries()),
            has_id(self.entries(), post_id@) ==> exists|i: int|
                0 <= i < self.entries().len() && (#[trigger] self.entries()[i]).post_id == post_id@
                    && res.entries() == self.entries().update(
                    i,
                    EntryView { post_id: post_id@, asset: asset@ },
                ),
            !has_id(self.entries(), post_id@) ==> res.entries() == self.entries().push(
                EntryView { post_id: post_id@, asset: asset@ },
            ),
    {
        proof {
            use_type_invariant(&self);
        }
        let found = self.position(post_id.as_str());
        let ghost before = self.entries();
        let mut entries = self.entries;
        match found {
            Some(i) => {
                proof {
                    lemma_map_of_update(before, i as int, asset@);
                }
                entries.set(i, ResolvedAsset { post_id, asset });
                assert(views(entries@) =~= before.update(
                    i as int,
                    EntryView { post_id: before[i as int].post_id, asset: asset@ },
                ));
            },
            None => {
                proof {
                    lemma_map_of_push(before, EntryView { post_id: post_id@, asset: asset@ });
                }
                entries.push(ResolvedAsset { post_id, asset });
                assert(views(entries@) =~= before.push(
                    EntryView { post_id: post_id@, asset: asset@ },
                ));
            },
        }
        ResolvedAssets { entries }
    }
}

/// Whether the request for the item at `i` failed and none before it did.
pub open spec fn is_first_failure(items: Seq<ResolvedView>, i: int) -> bool {
    &&& 0 <= i < items.len()
    &&& items[i].outcome is Err
    &&& forall|j: int| 0 <= j < i ==> (#[trigger] items[j]).outcome is Ok
}

/// Whether every request of `items` succeeded.
pub open spec fn all_resolved(items: Seq<ResolvedView>) -> bool {
    forall|i: int| 0 <= i < items.len() ==> (#[trigger] items[i]).outcome is Ok
}

/// The mapping that `items` come to, taken in order: a post with an asset
/// is recorded with it, over an earlier asset of the same post; a post
/// without an asset is left out.
pub open spec fn resolved_map(items: Seq<ResolvedView>) -> Map<Seq<char>, AssetView>
    decreases items.len(),
{
    if items.len() == 0 {
        Map::empty()
    } else {
        let before = resolved_map(items.drop_last());
        match items.last().outcome {
            Ok(Some(asset)) => before.insert(items.last().post_id, asset),
            _ => before,
        }
    }
}

/// Whether the item at `i` holds an asset for `post_id`.
pub open spec fn offers(items: Seq<ResolvedView>, i: int, post_id: Seq<char>) -> bool {
    0 <= i < items.len() && items[i].post_id == post_id && items[i].outcome matches Ok(Some(_))
}

/// A post is in the mapping exactly if some item holds an asset for it, and
/// the mapping then holds the asset of the last such item: one asset, or
/// none, for each post.
pub proof fn lemma_resolved_map(items: Seq<ResolvedView>, post_id: Seq<char>)
    ensures
        resolved_map(items).dom().contains(post_id) <==> exists|i: int|
            #[trigger] offers(items, i, post_id),
        forall|i: int|
            #[trigger] offers(items, i, post_id) && (forall|j: int|
                i < j < items.len() ==> !#[trigger] offers(items, j, post_id))
                ==> resolved_map(items)[post_id] == items[i].outcome->Ok_0->Some_0,
    decreases items.len(),
{
    if items.len() > 0 {
        let front = items.drop_last();
        let last = items.len() - 1;
        lemma_resolved_map(front, post_id);
        assert forall|i: int| offers(front, i, post_id) == (i < last && offers(items, i, post_id)) by {
            if 0 <= i < last {
                assert(front[i] == items[i]);
            }
        }
        if !offers(items, last, post_id) {
            if exists|i: int| #[trigger] offers(items, i, post_id) {
                let i = choose|i: int| #[trigger] offers(items, i, post_id);
                assert(offers(front, i, post_id));
            }
            assert forall|i: int|
                #[trigger] offers(items, i, post_id) && (forall|j: int|
                    i < j < items.len() ==> !#[trigger] offers(items, j, post_id))
                    implies resolved_map(items)[post_id] == items[i].outcome->Ok_0->Some_0 by {
                assert(offers(front, i, post_id));
            }
        }
    }
}

/// Gathers the outcomes of the resolution stage. If any request failed,
/// the stage fails with the failure of the first such item, and no mapping
/// is handed on. Otherwise the result maps each post that has an asset to
/// it.
pub fn collect_resolved(items: &Vec<Resolved>) -> (res: Result<ResolvedAssets, PipelineError>)
    ensures
        all_resolved(views(items@)) ==> res is Ok && res.unwrap()@ == resolved_map(views(items@)),
        forall|i: int|
            is_first_failure(views(items@), i) ==> res is Err && Err::<Option<AssetView>, ErrorView>(
                res.unwrap_err()@,
            ) == (#[trigger] views(items@)[i]).outcome,
{
    let ghost all = views(items@);
    let mut assets = ResolvedAssets::new();
    let mut i: usize = 0;
    while i < items.len()
        invariant
            i <= items.len(),
            all == views(items@),
            assets@ == resolved_map(all.take(i as int)),
            forall|j: int| 0 <= j < i ==> (#[trigger] all[j]).outcome is Ok,
        decreases items.len() - i,
    {
        let item = &items[i];
        assert(all.take(i as int + 1).drop_last() =~= all.take(i as int));
        match &item.outcome {
            Err(error) => {
                assert forall|k: int| is_first_failure(all, k) implies k == i by {
                    if i < k {
                        assert(all[i as int].outcome is Ok);
                    }
                }
                return Err(error.clone());
            },
            Ok(None) => {},
            Ok(Some(asset)) => {
                assets = assets.insert(item.post_id.clone(), asset.clone());
            },
        }
        i = i + 1;
    }
    assert(all.take(i as int) =~= all);
    Ok(assets)
}

} // verus!
