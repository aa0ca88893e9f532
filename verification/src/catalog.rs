//! What the catalog answers, and what the pipeline reads from it.

use crate::text::views;
use vstd::prelude::*;

verus! {

/// One post of a listing page.
#[derive(Debug, PartialEq, Eq)]
pub struct Post {
    pub id: String,
}

impl View for Post {
    type V = Seq<char>;

    open spec fn view(&self) -> Seq<char> {
        self.id@
    }
}

/// The cursor of a listing page: its own number, where the server gives
/// it, and the number of the page that follows it, if one does.
#[derive(Debug, Clone, Copy, PartialEq, Eq, Structural)]
pub struct Pagination {
    pub current: Option<usize>,
    pub next: Option<usize>,
}

/// The answer to a listing request: one page of posts.
#[derive(Debug, PartialEq, Eq)]
pub struct PostResponse {
    pub data: Vec<Post>,
    pub pagination: Pagination,
}

/// The mathematical value of a [`PostResponse`].
pub struct PostResponseView {
    pub ids: Seq<Seq<char>>,
    pub pagination: Pagination,
}

impl View for PostResponse {
    type V = PostResponseView;

    open spec fn view(&self) -> PostResponseView {
        PostResponseView { ids: views(self.data@), pagination: self.pagination }
    }
}

/// Reads a listing page: the identifiers of its posts, in the order the
/// server gave them, and the number of the next page, if there is one.
pub fn post_ids(response: PostResponse) -> (res: (Vec<String>, Option<usize>))
    ensures
        views(res.0@) == response@.ids,
        res.1 == response.pagination.next,
{
    let mut ids: Vec<String> = Vec::new();
    let mut i: usize = 0;
    while i < response.data.len()
        invariant
            i <= response.data.len(),
            ids.len() == i,
            forall|j: int| 0 <= j < i ==> ids[j]@ == response.data[j].id@,
        decreases response.data.len() - i,
    {
        ids.push(response.data[i].id.clone());
        i = i + 1;
    }
    (ids, response.pagination.next)
}

/// One rendition of a post's video.
#[derive(Debug, PartialEq, Eq)]
pub struct Variant {
    pub url: String,
    pub width: u64,
}

/// The rendition chosen for a post: where it is fetched from, and how wide
/// it is.
#[derive(Debug, PartialEq, Eq)]
pub struct AssetReference {
    pub url: String,
    pub width: u64,
}

/// The mathematical value of a [`Variant`] and of an [`AssetReference`].
pub struct AssetView {
    pub url: Seq<char>,
    pub width: u64,
}

impl View for Variant {
    type V = AssetView;

    open spec fn view(&self) -> AssetView {
        AssetView { url: self.url@, width: self.width }
    }
}

impl View for AssetReference {
    type V = AssetView;

    open spec fn view(&self) -> AssetView {
        AssetView { url: self.url@, width: self.width }
    }
}

impl Clone for AssetReference {
    fn clone(&self) -> (res: Self)
        ensures
            res == *self,
    {
        AssetReference { url: self.url.clone(), width: self.width }
    }
}

/// The mathematical value of an optional [`AssetReference`].
pub open spec fn asset_view(asset: Option<AssetReference>) -> Option<AssetView> {
    match asset {
        Some(asset) => Some(asset@),
        None => None,
    }
}

/// The answer to a videos request: the renditions on offer, if any.
#[derive(Debug, PartialEq, Eq)]
pub struct VideosResponse {
    pub main: Option<Vec<Variant>>,
}

/// The renditions that a videos answer offers: none where the list is missing.
pub open spec fn offered(response: VideosResponse) -> Seq<AssetView> {
    match response.main {
        Some(variants) => views(variants@),
        None => Seq::empty(),
    }
}

/// Whether the variant at `i` is as wide as any in `variants` and wider
/// than each one after it.
pub open spec fn is_last_widest(variants: Seq<AssetView>, i: int) -> bool {
    &&& 0 <= i < variants.len()
    &&& forall|j: int|
        0 <= j < variants.len() ==> (#[trigger] variants[j]).width <= variants[i].width
    &&& forall|j: int| i < j < variants.len() ==> (#[trigger] variants[j]).width < variants[i].width
}

/// The position of the widest of `variants`; of several equally wide, the
/// last one.
pub open spec fn widest_index(variants: Seq<AssetView>) -> int
    decreases variants.len(),
{
    if variants.len() <= 1 {
        0
    } else {
        let before = widest_index(variants.drop_last());
        if variants.last().width >= variants[before].width {
            variants.len() - 1
        } else {
            before
        }
    }
}

/// The rendition chosen among `variants`: none of none, else the widest.
pub open spec fn best_variant_spec(variants: Seq<AssetView>) -> Option<AssetView> {
    if variants.len() == 0 {
        None
    } else {
        Some(variants[widest_index(variants)])
    }
}

/// The chosen position holds a variant of maximal width, and no variant
/// after it is as wide.
pub proof fn lemma_widest_index(variants: Seq<AssetView>)
    requires
        variants.len() > 0,
    ensures
        is_last_widest(variants, widest_index(variants)),
    decreases variants.len(),
{
    if variants.len() > 1 {
        let front = variants.drop_last();
        lemma_widest_index(front);
        let before = widest_index(front);
        assert forall|j: int| 0 <= j < variants.len() implies (#[trigger] variants[j]).width
            <= variants[widest_index(variants)].width by {
            if j < front.len() {
                assert(front[j] == variants[j]);
            }
        }
        assert forall|j: int| widest_index(variants) < j < variants.len() implies (
        #[trigger] variants[j]).width < variants[widest_index(variants)].width by {
            if j < front.len() {
                assert(front[j] == variants[j]);
            }
        }
    }
}

/// At most one position is the last widest.
pub proof fn lemma_last_widest_is_unique(variants: Seq<AssetView>, i: int, j: int)
    requires
        is_last_widest(variants, i),
        is_last_widest(variants, j),
    ensures
        i == j,
{
    // Each of the two is as wide as the other, so neither comes first.
    assert(variants[i].width == variants[j].width);
}

/// Chooses the rendition to download: the widest of `variants`, and of
/// several equally wide the last; none where there are none.
pub fn best_variant(variants: &Vec<Variant>) -> (res: Option<AssetReference>)
    ensures
        asset_view(res) == best_variant_spec(views(variants@)),
        res is Some <==> variants.len() > 0,
        res is Some ==> exists|i: int|
            is_last_widest(views(variants@), i) && res.unwrap()@ == #[trigger] views(variants@)[i],
{
    if variants.len() == 0 {
        return None;
    }
    let ghost all = views(variants@);
    let mut best: usize = 0;
    let mut i: usize = 1;
    while i < variants.len()
        invariant
            1 <= i <= variants.len(),
            all == views(variants@),
            best as int == widest_index(all.take(i as int)),
            0 <= best < i,
        decreases variants.len() - i,
    {
        assert(all.take(i as int + 1).drop_last() =~= all.take(i as int));
        if variants[i].width >= variants[best].width {
            best = i;
        }
        i = i + 1;
    }
    assert(all.take(i as int) =~= all);
    proof {
        lemma_widest_index(all);
    }
    let chosen = &variants[best];
    Some(AssetReference { url: chosen.url.clone(), width: chosen.width })
}

/// Resolves a videos answer to the rendition to download, if it offers any.
pub fn resolve_video(response: &VideosResponse) -> (res: Option<AssetReference>)
    ensures
        asset_view(res) == best_variant_spec(offered(*response)),
{
    match &response.main {
        Some(variants) => best_variant(variants),
        None => None,
    }
}

} // verus!
