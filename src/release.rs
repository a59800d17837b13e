use vstd::prelude::*;
use vstd::string::StringExecFns;

use crate::error::ToolchainError;
use crate::text::{join_path, join_spec};

verus! {

/// A downloadable file of a release.
#[derive(Clone, Debug)]
pub struct GithubAsset {
    pub browser_download_url: String,
    pub name: String,
}

/// A release: its tag and its assets, in the order the release API lists them.
#[derive(Clone, Debug)]
pub struct GithubReleaseData {
    pub assets: Vec<GithubAsset>,
    pub tag_name: String,
}

/// The two assets that make up a prebuilt toolchain.
#[derive(Clone, Debug)]
pub struct SelectedAssets {
    pub toolchain: GithubAsset,
    pub sysroot: GithubAsset,
}

impl GithubAsset {
    /// The asset as its name and download address.
    pub open spec fn view(&self) -> (Seq<char>, Seq<char>) {
        (self.name@, self.browser_download_url@)
    }
}

pub open spec fn assets_view(assets: Seq<GithubAsset>) -> Seq<(Seq<char>, Seq<char>)> {
    assets.map_values(|a: GithubAsset| a@)
}

/// The name of the asset that holds the sysroot.
pub open spec fn sysroot_asset_spec() -> Seq<char> {
    "wasix-libc.tar.gz"@
}

/// The name of the asset that holds the toolchain for `target`.
pub open spec fn rust_asset_spec(target: Seq<char>) -> Seq<char> {
    "rust-toolchain-"@ + target + ".tar.gz"@
}

/// The index of the first asset named `name`.
pub open spec fn first_named(assets: Seq<(Seq<char>, Seq<char>)>, name: Seq<char>) -> Option<int>
    decreases assets.len(),
{
    if assets.len() == 0 {
        None
    } else if assets[0].0 == name {
        Some(0)
    } else {
        match first_named(assets.drop_first(), name) {
            Some(k) => Some(k + 1),
            None => None,
        }
    }
}

/// Where no asset before `i` is named `name`, the first one named so is at
/// `i` if the asset at `i` is, and there is none if `i` is the end.
proof fn lemma_first_named(assets: Seq<(Seq<char>, Seq<char>)>, name: Seq<char>, i: int)
    requires
        0 <= i <= assets.len(),
        forall|j: int| 0 <= j < i ==> #[trigger] assets[j].0 != name,
    ensures
        i < assets.len() && assets[i].0 == name ==> first_named(assets, name) == Some(i),
        i == assets.len() ==> first_named(assets, name) is None,
    decreases i,
{
    if i > 0 {
        let t = assets.drop_first();
        assert forall|j: int| 0 <= j < i - 1 implies #[trigger] t[j].0 != name by {
            assert(t[j] == assets[j + 1]);
        }
        lemma_first_named(t, name, i - 1);
        assert(assets[0].0 != name);
    }
}

/// What asset selection gives: the toolchain and sysroot assets, or the name
/// of the first of them that is missing (the sysroot is looked for first).
pub open spec fn select_spec(assets: Seq<(Seq<char>, Seq<char>)>, target: Seq<char>) -> Result<
    ((Seq<char>, Seq<char>), (Seq<char>, Seq<char>)),
    Seq<char>,
> {
    match first_named(assets, sysroot_asset_spec()) {
        None => Err(sysroot_asset_spec()),
        Some(j) => match first_named(assets, rust_asset_spec(target)) {
            None => Err(rust_asset_spec(target)),
            Some(i) => Ok((assets[i], assets[j])),
        },
    }
}

/// The name of the staging directory of a release for a target.
pub open spec fn staging_name_spec(target: Seq<char>, tag: Seq<char>) -> Seq<char> {
    target + "_"@ + tag
}

/// The name of the asset that holds the toolchain for `target`.
pub fn rust_asset_name(target: &str) -> (r: String)
    ensures
        r@ == rust_asset_spec(target@),
{
    proof {
        reveal_strlit("rust-toolchain-");
        reveal_strlit(".tar.gz");
    }
    String::from_str("rust-toolchain-").concat(target).concat(".tar.gz")
}

/// The index of the first asset named `name`.
pub fn find_asset(assets: &Vec<GithubAsset>, name: &String) -> (r: Option<usize>)
    ensures
        match r {
            Some(i) => i < assets@.len() && first_named(assets_view(assets@), name@) == Some(
                i as int,
            ),
            None => first_named(assets_view(assets@), name@) is None,
        },
{
    let ghost v = assets_view(assets@);
    let mut i: usize = 0;
    while i < assets.len()
        invariant
            v == assets_view(assets@),
            i <= assets@.len(),
            forall|j: int| 0 <= j < i ==> #[trigger] v[j].0 != name@,
        decreases assets@.len() - i,
    {
        if assets[i].name == *name {
            proof {
                lemma_first_named(v, name@, i as int);
            }
            return Some(i);
        }
        i = i + 1;
    }
    proof {
        lemma_first_named(v, name@, i as int);
    }
    None
}

fn copy_asset(a: &GithubAsset) -> (r: GithubAsset)
    ensures
        r@ == a@,
{
    GithubAsset { browser_download_url: a.browser_download_url.clone(), name: a.name.clone() }
}

/// Pick the toolchain asset for `target` and the sysroot asset of `release`.
/// Other assets are never considered; a missing one is reported by name,
/// together with the release's tag.
pub fn select_assets(release: &GithubReleaseData, target: &str) -> (r: Result<
    SelectedAssets,
    ToolchainError,
>)
    ensures
        match select_spec(assets_view(release.assets@), target@) {
            Ok((t, s)) => r matches Ok(sel) && sel.toolchain@ == t && sel.sysroot@ == s,
            Err(missing) => r matches Err(ToolchainError::AssetNotFound { asset, tag })
                && asset@ == missing && tag@ == release.tag_name@,
        },
{
    proof {
        reveal_strlit("wasix-libc.tar.gz");
    }
    let sysroot_name = String::from_str("wasix-libc.tar.gz");
    let j = match find_asset(&release.assets, &sysroot_name) {
        Some(j) => j,
        None => {
            return Err(
                ToolchainError::AssetNotFound { asset: sysroot_name, tag: release.tag_name.clone() },
            );
        },
    };
    let rust_name = rust_asset_name(target);
    let i = match find_asset(&release.assets, &rust_name) {
        Some(i) => i,
        None => {
            return Err(
                ToolchainError::AssetNotFound { asset: rust_name, tag: release.tag_name.clone() },
            );
        },
    };
    Ok(
        SelectedAssets {
            toolchain: copy_asset(&release.assets[i]),
            sysroot: copy_asset(&release.assets[j]),
        },
    )
}

/// The staging directory under `root` for a release of `target`.
pub fn staging_dir(root: &str, target: &str, tag: &str) -> (r: String)
    ensures
        r@ == join_spec(root@, staging_name_spec(target@, tag@)),
{
    proof {
        reveal_strlit("_");
    }
    let name = String::from_str(target).concat("_").concat(tag);
    join_path(root, name.as_str())
}

} // verus!
