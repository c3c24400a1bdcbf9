use vstd::prelude::*;

verus! {

/// The media type of the archives that can be installed: a gzip-compressed tar.
pub const ARCHIVE_MEDIA_TYPE: &'static str = "application/gzip";

/// One downloadable file attached to a release.
#[derive(Debug, PartialEq, Eq)]
pub struct Asset {
    pub name: String,
    pub browser_download_url: String,
    pub content_type: String,
}

/// A published version of the tool, with its notes and downloadable files.
#[derive(Debug, Clone, PartialEq, Eq)]
pub struct Release {
    pub tag_name: String,
    pub body: String,
    pub html_url: String,
    pub assets: Vec<Asset>,
}

/// The unit of work handed to one download worker: what to fetch and under
/// which name to keep it.
#[derive(Debug, Clone, PartialEq, Eq)]
pub struct WorkItem {
    pub name: String,
    pub url: String,
}

impl Clone for Asset {
    fn clone(&self) -> (r: Self)
        ensures
            r == *self,
    {
        Asset {
            name: self.name.clone(),
            browser_download_url: self.browser_download_url.clone(),
            content_type: self.content_type.clone(),
        }
    }
}

/// Whether an asset is an archive that the installer can unpack.
pub open spec fn is_archive(a: Asset) -> bool {
    a.content_type@ == ARCHIVE_MEDIA_TYPE@
}

/// The work item that downloads an asset.
pub open spec fn work_item_of(a: Asset) -> WorkItem {
    WorkItem { name: a.name, url: a.browser_download_url }
}

/// The work items for the archives among `assets`, in the order of `assets`.
pub open spec fn selected(assets: Seq<Asset>) -> Seq<WorkItem>
    decreases assets.len(),
{
    if assets.len() == 0 {
        Seq::empty()
    } else {
        let rest = selected(assets.drop_last());
        if is_archive(assets.last()) {
            rest.push(work_item_of(assets.last()))
        } else {
            rest
        }
    }
}

/// Selection keeps order: selecting from two lists laid end to end gives the
/// selection from the first followed by the selection from the second.
pub proof fn lemma_selection_keeps_order(first: Seq<Asset>, second: Seq<Asset>)
    ensures
        selected(first + second) == selected(first) + selected(second),
    decreases second.len(),
{
    if second.len() == 0 {
        assert(first + second == first);
        assert(selected(first) + selected(second) == selected(first));
    } else {
        let whole = first + second;
        assert(whole.drop_last() == first + second.drop_last());
        assert(whole.last() == second.last());
        lemma_selection_keeps_order(first, second.drop_last());
        if is_archive(second.last()) {
            assert(selected(first) + selected(second) == (selected(first) + selected(
                second.drop_last()
            )).push(work_item_of(second.last())));
        }
    }
}

/// A single asset is selected exactly when it is an archive.
pub proof fn lemma_selection_of_one(a: Asset)
    ensures
        is_archive(a) ==> selected(seq![a]) == seq![work_item_of(a)],
        !is_archive(a) ==> selected(seq![a]) == Seq::<WorkItem>::empty(),
{
    assert(seq![a].drop_last() == Seq::<Asset>::empty());
    assert(selected(Seq::<Asset>::empty()) == Seq::<WorkItem>::empty());
    assert(seq![a].last() == a);
    assert(Seq::<WorkItem>::empty().push(work_item_of(a)) == seq![work_item_of(a)]);
}

/// Whether `w` is the work item of some archive among `assets`.
pub open spec fn comes_from_archive(assets: Seq<Asset>, w: WorkItem) -> bool {
    exists|j: int| 0 <= j < assets.len() && is_archive(assets[j]) && w == work_item_of(assets[j])
}

/// Every selected work item comes from an archive among the assets.
pub proof fn lemma_selection_only_archives(assets: Seq<Asset>)
    ensures
        forall|i: int|
            0 <= i < selected(assets).len() ==> comes_from_archive(
                assets,
                #[trigger] selected(assets)[i],
            ),
    decreases assets.len(),
{
    if assets.len() > 0 {
        let rest = assets.drop_last();
        lemma_selection_only_archives(rest);
        assert forall|i: int| 0 <= i < selected(assets).len() implies comes_from_archive(
            assets,
            #[trigger] selected(assets)[i],
        ) by {
            if i < selected(rest).len() {
                assert(comes_from_archive(rest, selected(rest)[i]));
                let j = choose|j: int|
                    0 <= j < rest.len() && is_archive(rest[j]) && selected(rest)[i]
                        == work_item_of(rest[j]);
                assert(assets[j] == rest[j]);
            } else {
                let j = assets.len() - 1;
                assert(assets[j] == assets.last());
            }
        }
    }
}

impl Release {
    /// The work items for the archives among this release's assets, in the
    /// order in which the release lists them.
    pub fn select_assets(&self) -> (r: Vec<WorkItem>)
        ensures
            r@ == selected(self.assets@),
    {
        let wanted = String::from_str(ARCHIVE_MEDIA_TYPE);
        let mut r: Vec<WorkItem> = Vec::new();
        let mut i: usize = 0;
        while i < self.assets.len()
            invariant
                i <= self.assets@.len(),
                wanted@ == ARCHIVE_MEDIA_TYPE@,
                r@ == selected(self.assets@.subrange(0, i as int)),
            decreases self.assets@.len() - i,
        {
            let a = &self.assets[i];
            proof {
                let next = self.assets@.subrange(0, i as int + 1);
                assert(next.drop_last() == self.assets@.subrange(0, i as int));
                assert(next.last() == *a);
            }
            if a.content_type == wanted {
                r.push(WorkItem { name: a.name.clone(), url: a.browser_download_url.clone() });
            }
            i = i + 1;
        }
        assert(self.assets@.subrange(0, self.assets@.len() as int) == self.assets@);
        r
    }
}

} // verus!
