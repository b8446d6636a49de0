//! Releases and their assets, and the exact-name asset lookup.

use vstd::prelude::*;

verus! {

/// One downloadable asset of a release.
pub struct ReleaseAsset {
    pub name: String,
    pub download_url: String,
}

/// Mathematical image of a [`ReleaseAsset`].
pub struct ReleaseAssetView {
    pub name: Seq<char>,
    pub download_url: Seq<char>,
}

impl View for ReleaseAsset {
    type V = ReleaseAssetView;

    open spec fn view(&self) -> ReleaseAssetView {
        ReleaseAssetView { name: self.name@, download_url: self.download_url@ }
    }
}

impl DeepView for ReleaseAsset {
    type V = ReleaseAssetView;

    open spec fn deep_view(&self) -> ReleaseAssetView {
        self.view()
    }
}

/// A release: its version tag and its ordered asset list.
pub struct Release {
    pub version: String,
    pub assets: Vec<ReleaseAsset>,
}

/// Mathematical image of a [`Release`].
pub struct ReleaseView {
    pub version: Seq<char>,
    pub assets: Seq<ReleaseAssetView>,
}

impl View for Release {
    type V = ReleaseView;

    open spec fn view(&self) -> ReleaseView {
        ReleaseView { version: self.version@, assets: self.assets.deep_view() }
    }
}

impl DeepView for Release {
    type V = ReleaseView;

    open spec fn deep_view(&self) -> ReleaseView {
        self.view()
    }
}

/// The position of the first asset named exactly `name`, if any.
pub open spec fn spec_find_asset(assets: Seq<ReleaseAssetView>, name: Seq<char>) -> Option<int>
    decreases assets.len(),
{
    if assets.len() == 0 {
        None
    } else if assets[0].name == name {
        Some(0)
    } else {
        match spec_find_asset(assets.drop_first(), name) {
            Some(i) => Some(i + 1),
            None => None,
        }
    }
}

/// What `spec_find_asset` returns: the first position whose asset carries
/// the name, or nothing when no asset does.
pub proof fn lemma_find_asset(assets: Seq<ReleaseAssetView>, name: Seq<char>)
    ensures
        match spec_find_asset(assets, name) {
            Some(i) => 0 <= i < assets.len() && assets[i].name == name && (forall|j: int|
                0 <= j < i ==> assets[j].name != name),
            None => forall|j: int| 0 <= j < assets.len() ==> assets[j].name != name,
        },
    decreases assets.len(),
{
    if assets.len() > 0 && assets[0].name != name {
        let rest = assets.drop_first();
        lemma_find_asset(rest, name);
        assert(forall|j: int| 0 <= j < rest.len() ==> rest[j] == assets[j + 1]);
        assert(forall|j: int| 1 <= j < assets.len() ==> #[trigger] assets[j] == rest[j - 1]);
    }
}

/// Finds the first asset whose name equals `name` exactly; no partial or
/// fuzzy match.
pub fn find_asset_index(assets: &Vec<ReleaseAsset>, name: &String) -> (r: Option<usize>)
    ensures
        match r {
            Some(i) => spec_find_asset(assets.deep_view(), name@) == Some(i as int)
                && i < assets@.len() && assets@[i as int]@.name == name@,
            None => spec_find_asset(assets.deep_view(), name@) is None && (forall|j: int|
                0 <= j < assets@.len() ==> assets@[j]@.name != name@),
        },
{
    let ghost va = assets.deep_view();
    let mut i: usize = 0;
    while i < assets.len()
        invariant
            i <= assets@.len(),
            va == assets.deep_view(),
            forall|j: int| 0 <= j < i ==> va[j].name != name@,
        decreases assets@.len() - i,
    {
        proof {
            assert(va[i as int] == assets@[i as int]@);
        }
        if assets[i].name.eq(name) {
            proof {
                lemma_find_asset(va, name@);
            }
            return Some(i);
        }
        i = i + 1;
    }
    proof {
        lemma_find_asset(va, name@);
        assert(forall|j: int| 0 <= j < va.len() ==> #[trigger] assets@[j]@ == va[j]);
        match spec_find_asset(va, name@) {
            Some(k) => {
                assert(va[k].name == name@);
                assert(false);
            },
            None => {},
        }
    }
    None
}

} // verus!
