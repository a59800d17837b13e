use vstd::prelude::*;
use vstd::string::StringExecFns;

use crate::error::ToolchainError;
use crate::release::{
    assets_view, first_named, select_assets, select_spec, staging_dir, staging_name_spec,
    sysroot_asset_spec, GithubReleaseData,
};
use crate::text::{join_path, join_spec};

verus! {

/// One step of installing a prebuilt toolchain.
#[derive(Clone, Debug)]
pub enum DownloadStep {
    /// Remove the directory and everything in it.
    RemoveDir { path: String },
    /// Download the gzip-compressed tar archive at `url` and unpack it into `dest`.
    FetchAndExtract { url: String, dest: String },
    /// Move `sysroot32` and `sysroot64` out of the archive's wrapping
    /// `wasix-libc` directory under `root`, then delete the wrapper.
    FlattenSysroot { root: String },
    /// Mark every regular file in `dir` as executable.
    MakeExecutable { dir: String },
}

/// A step of installing a prebuilt toolchain, as plain values.
pub enum StepView {
    RemoveDir { path: Seq<char> },
    FetchAndExtract { url: Seq<char>, dest: Seq<char> },
    FlattenSysroot { root: Seq<char> },
    MakeExecutable { dir: Seq<char> },
}

impl DownloadStep {
    pub open spec fn view(&self) -> StepView {
        match self {
            DownloadStep::RemoveDir { path } => StepView::RemoveDir { path: path@ },
            DownloadStep::FetchAndExtract { url, dest } => StepView::FetchAndExtract {
                url: url@,
                dest: dest@,
            },
            DownloadStep::FlattenSysroot { root } => StepView::FlattenSysroot { root: root@ },
            DownloadStep::MakeExecutable { dir } => StepView::MakeExecutable { dir: dir@ },
        }
    }
}

pub open spec fn steps_view(steps: Seq<DownloadStep>) -> Seq<StepView> {
    steps.map_values(|s: DownloadStep| s@)
}

/// How a prebuilt toolchain is to be installed.
#[derive(Clone, Debug)]
pub struct DownloadPlan {
    /// The staging directory; the toolchain itself goes to its `rust` subdirectory.
    pub toolchain_dir: String,
    pub steps: Vec<DownloadStep>,
}

/// The steps that install a prebuilt toolchain for `target` into the staging
/// directory `dir`: a directory left there by an earlier attempt is removed
/// first, then the sysroot and the toolchain are unpacked, and the
/// toolchain's programs are made executable.
pub open spec fn download_steps(
    dir: Seq<char>,
    target: Seq<char>,
    rust_url: Seq<char>,
    sysroot_url: Seq<char>,
    exists: bool,
) -> Seq<StepView> {
    let sysroot = join_spec(dir, "sysroot"@);
    let rust = join_spec(dir, "rust"@);
    let fresh = seq![
        StepView::FetchAndExtract { url: sysroot_url, dest: sysroot },
        StepView::FlattenSysroot { root: sysroot },
        StepView::FetchAndExtract { url: rust_url, dest: rust },
        StepView::MakeExecutable { dir: join_spec(rust, "bin"@) },
        StepView::MakeExecutable {
            dir: join_spec(rust, "lib/rustlib/"@ + target + "/bin"@),
        },
    ];
    if exists {
        seq![StepView::RemoveDir { path: dir }] + fresh
    } else {
        fresh
    }
}

/// Plan the installation of the prebuilt toolchain for `target` from
/// `release` into a staging directory under `root`; `staging_exists` tells
/// whether that directory is there already.
pub fn plan_download(
    root: &str,
    target: &str,
    release: &GithubReleaseData,
    staging_exists: bool,
) -> (r: Result<DownloadPlan, ToolchainError>)
    ensures
        match select_spec(assets_view(release.assets@), target@) {
            Err(missing) => r matches Err(ToolchainError::AssetNotFound { asset, tag })
                && asset@ == missing && tag@ == release.tag_name@,
            Ok((t, s)) => r matches Ok(p) && p.toolchain_dir@ == join_spec(
                root@,
                staging_name_spec(target@, release.tag_name@),
            ) && steps_view(p.steps@) == download_steps(
                p.toolchain_dir@,
                target@,
                t.1,
                s.1,
                staging_exists,
            ),
        },
{
    let sel = match select_assets(release, target) {
        Ok(sel) => sel,
        Err(e) => {
            return Err(e);
        },
    };
    let dir = staging_dir(root, target, release.tag_name.as_str());
    proof {
        reveal_strlit("sysroot");
        reveal_strlit("rust");
        reveal_strlit("bin");
        reveal_strlit("lib/rustlib/");
        reveal_strlit("/bin");
    }
    let sysroot = join_path(dir.as_str(), "sysroot");
    let rust = join_path(dir.as_str(), "rust");
    let bin = join_path(rust.as_str(), "bin");
    let lib_bin_rel = String::from_str("lib/rustlib/").concat(target).concat("/bin");
    let lib_bin = join_path(rust.as_str(), lib_bin_rel.as_str());
    let mut steps: Vec<DownloadStep> = Vec::new();
    if staging_exists {
        steps.push(DownloadStep::RemoveDir { path: dir.clone() });
    }
    steps.push(
        DownloadStep::FetchAndExtract {
            url: sel.sysroot.browser_download_url,
            dest: sysroot.clone(),
        },
    );
    steps.push(DownloadStep::FlattenSysroot { root: sysroot });
    steps.push(
        DownloadStep::FetchAndExtract { url: sel.toolchain.browser_download_url, dest: rust },
    );
    steps.push(DownloadStep::MakeExecutable { dir: bin });
    steps.push(DownloadStep::MakeExecutable { dir: lib_bin });
    let ghost want = download_steps(
        dir@,
        target@,
        sel.toolchain@.1,
        sel.sysroot@.1,
        staging_exists,
    );
    assert(steps_view(steps@) =~= want);
    Ok(DownloadPlan { toolchain_dir: dir, steps })
}

/// A release without the sysroot asset is rejected, naming that asset,
/// before anything is downloaded.
pub proof fn lemma_missing_sysroot_rejected(
    assets: Seq<(Seq<char>, Seq<char>)>,
    target: Seq<char>,
)
    requires
        first_named(assets, sysroot_asset_spec()) is None,
    ensures
        select_spec(assets, target) == Err::<
            ((Seq<char>, Seq<char>), (Seq<char>, Seq<char>)),
            Seq<char>,
        >(sysroot_asset_spec()),
{
}

/// Where the staging directory of a release exists already, it is removed
/// before anything is unpacked, and everything is then unpacked inside it.
pub proof fn lemma_stale_staging_removed_first(
    root: Seq<char>,
    target: Seq<char>,
    tag: Seq<char>,
    rust_url: Seq<char>,
    sysroot_url: Seq<char>,
)
    ensures
        ({
            let dir = join_spec(root, staging_name_spec(target, tag));
            let steps = download_steps(dir, target, rust_url, sysroot_url, true);
            &&& steps[0] == StepView::RemoveDir { path: dir }
            &&& forall|i: int|
                0 <= i < steps.len() ==> (#[trigger] steps[i] matches StepView::FetchAndExtract {
                    dest,
                    ..
                } ==> i > 0 && dest.len() > dir.len() && dest.subrange(0, dir.len() as int) == dir)
        }),
{
    reveal_strlit("_");
    reveal_strlit("sysroot");
    reveal_strlit("rust");
    let name = staging_name_spec(target, tag);
    assert(name.len() > 0);
    if root.len() > 0 {
        lemma_join_under(root, name);
    }
    let dir = join_spec(root, name);
    let steps = download_steps(dir, target, rust_url, sysroot_url, true);
    lemma_join_under(dir, "sysroot"@);
    lemma_join_under(dir, "rust"@);
    assert(steps.len() == 6);
}

proof fn lemma_join_under(a: Seq<char>, b: Seq<char>)
    requires
        a.len() > 0,
        b.len() > 0,
    ensures
        join_spec(a, b).len() > a.len(),
        join_spec(a, b).subrange(0, a.len() as int) == a,
{
    if a.last() == '/' {
        assert((a + b).subrange(0, a.len() as int) =~= a);
    } else {
        assert((a + "/"@ + b).subrange(0, a.len() as int) =~= a);
    }
}

} // verus!
