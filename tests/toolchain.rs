use wasix_toolchain::builder::{build_stages, parse_components, BuildStage, BuildToochainOptions};
use wasix_toolchain::error::ToolchainError;
use wasix_toolchain::fetch::{plan_download, DownloadStep};
use wasix_toolchain::orchestrator::{check_installed, decide_acquisition, lib_dir, Acquisition};
use wasix_toolchain::registry::{link_commands, rustc_path, RegistryCommand, RustupToolchain};
use wasix_toolchain::release::{
    find_asset, rust_asset_name, select_assets, staging_dir, GithubAsset, GithubReleaseData,
};
use wasix_toolchain::target::{guess_host_target, HostArch, HostOs};
use wasix_toolchain::text::{join_path, parent_path};

fn asset(name: &str, url: &str) -> GithubAsset {
    GithubAsset { browser_download_url: url.to_string(), name: name.to_string() }
}

fn release(tag: &str, assets: Vec<GithubAsset>) -> GithubReleaseData {
    GithubReleaseData { assets, tag_name: tag.to_string() }
}

fn handle(name: &str, path: &str) -> RustupToolchain {
    RustupToolchain { name: name.to_string(), path: path.to_string() }
}

#[test]
fn select_assets_picks_exactly_the_two_named_assets() {
    let rel = release(
        "v1.2.3",
        vec![
            asset("notes.txt", "url_X"),
            asset("rust-toolchain-x86_64-unknown-linux-gnu.tar.gz", "url_A"),
            asset("rust-toolchain-aarch64-apple-darwin.tar.gz", "url_C"),
            asset("wasix-libc.tar.gz", "url_B"),
        ],
    );
    let sel = select_assets(&rel, "x86_64-unknown-linux-gnu").unwrap();
    assert_eq!(sel.toolchain.name, "rust-toolchain-x86_64-unknown-linux-gnu.tar.gz");
    assert_eq!(sel.toolchain.browser_download_url, "url_A");
    assert_eq!(sel.sysroot.name, "wasix-libc.tar.gz");
    assert_eq!(sel.sysroot.browser_download_url, "url_B");
}

#[test]
fn select_assets_takes_the_first_of_equal_names() {
    let rel = release(
        "v2",
        vec![
            asset("wasix-libc.tar.gz", "first"),
            asset("rust-toolchain-t.tar.gz", "r1"),
            asset("wasix-libc.tar.gz", "second"),
            asset("rust-toolchain-t.tar.gz", "r2"),
        ],
    );
    let sel = select_assets(&rel, "t").unwrap();
    assert_eq!(sel.sysroot.browser_download_url, "first");
    assert_eq!(sel.toolchain.browser_download_url, "r1");
}

#[test]
fn select_assets_missing_sysroot_names_it() {
    let rel = release(
        "v1.2.3",
        vec![asset("rust-toolchain-x86_64-unknown-linux-gnu.tar.gz", "url_A")],
    );
    match select_assets(&rel, "x86_64-unknown-linux-gnu") {
        Err(ToolchainError::AssetNotFound { asset, tag }) => {
            assert_eq!(asset, "wasix-libc.tar.gz");
            assert_eq!(tag, "v1.2.3");
        }
        other => panic!("unexpected {:?}", other),
    }
    // Both missing: the sysroot is still the one named.
    match select_assets(&release("v9", vec![]), "x86_64-unknown-linux-gnu") {
        Err(ToolchainError::AssetNotFound { asset, .. }) => assert_eq!(asset, "wasix-libc.tar.gz"),
        other => panic!("unexpected {:?}", other),
    }
}

#[test]
fn select_assets_missing_toolchain_names_it() {
    let rel = release("v1", vec![asset("wasix-libc.tar.gz", "url_B")]);
    match select_assets(&rel, "aarch64-apple-darwin") {
        Err(ToolchainError::AssetNotFound { asset, tag }) => {
            assert_eq!(asset, "rust-toolchain-aarch64-apple-darwin.tar.gz");
            assert_eq!(tag, "v1");
        }
        other => panic!("unexpected {:?}", other),
    }
}

#[test]
fn asset_names_and_lookup() {
    assert_eq!(rust_asset_name("x86_64-apple-darwin"), "rust-toolchain-x86_64-apple-darwin.tar.gz");
    let assets = vec![asset("a", "1"), asset("b", "2"), asset("b", "3")];
    assert_eq!(find_asset(&assets, &"b".to_string()), Some(1));
    assert_eq!(find_asset(&assets, &"c".to_string()), None);
    assert_eq!(staging_dir("/tmp/t", "x86_64-unknown-linux-gnu", "v1.2.3"), "/tmp/t/x86_64-unknown-linux-gnu_v1.2.3");
}

#[test]
fn find_by_name_reads_the_path() {
    let listing = "stable-x86_64-unknown-linux-gnu (default) /home/user/.rustup/toolchains/stable\nwasix   /home/user/.wasix/toolchain/rust\n";
    let t = RustupToolchain::find_by_name(listing, "wasix").unwrap();
    assert_eq!(t.name, "wasix");
    assert_eq!(t.path, "/home/user/.wasix/toolchain/rust");
}

#[test]
fn find_by_name_absent() {
    let listing = "stable-x86_64-unknown-linux-gnu (default) /home/user/.rustup/toolchains/stable\n";
    assert!(RustupToolchain::find_by_name(listing, "wasix").is_none());
    assert!(RustupToolchain::find_by_name("", "wasix").is_none());
    assert!(RustupToolchain::find_by_name("\n   \n", "wasix").is_none());
}

#[test]
fn find_by_name_matches_whole_names_only() {
    let listing = "wasix-old /opt/old\r\n  wasix\t/opt/new  \r\nwasix /opt/later\n";
    let t = RustupToolchain::find_by_name(listing, "wasix").unwrap();
    assert_eq!(t.path, "/opt/new");
    assert_eq!(RustupToolchain::find_by_name(listing, "wasix-old").unwrap().path, "/opt/old");
}

#[test]
fn link_commands_remove_an_existing_entry_first() {
    let cmds = link_commands("wasix", "/opt/tc/rust", true, true).unwrap();
    assert_eq!(cmds.len(), 2);
    assert!(matches!(&cmds[0], RegistryCommand::Remove { name } if name == "wasix"));
    assert!(matches!(&cmds[1], RegistryCommand::Link { name, dir } if name == "wasix" && dir == "/opt/tc/rust"));
    let cmds = link_commands("wasix", "/opt/tc/rust", true, false).unwrap();
    assert_eq!(cmds.len(), 1);
    assert!(matches!(&cmds[0], RegistryCommand::Link { name, dir } if name == "wasix" && dir == "/opt/tc/rust"));
}

#[test]
fn link_commands_reject_a_directory_without_compiler() {
    match link_commands("wasix", "/opt/tc/rust", false, true) {
        Err(ToolchainError::Validation { path }) => assert_eq!(path, "/opt/tc/rust/bin/rustc"),
        other => panic!("unexpected {:?}", other),
    }
    assert_eq!(rustc_path("/opt/tc/rust/"), "/opt/tc/rust/bin/rustc");
}

#[test]
fn sysroot_dir_beside_the_toolchain() {
    let t = handle("wasix", "/home/u/.wasix/toolchains/x_v1/rust");
    assert_eq!(t.sysroot_path(true).unwrap(), "/home/u/.wasix/toolchains/x_v1/sysroot64");
    assert_eq!(t.sysroot_dir(true, true).unwrap(), "/home/u/.wasix/toolchains/x_v1/sysroot64");
    assert_eq!(t.sysroot_dir(false, true).unwrap(), "/home/u/.wasix/toolchains/x_v1/sysroot32");
    assert_eq!(handle("wasix", "/rust").sysroot_dir(false, true).unwrap(), "/sysroot32");
    assert_eq!(handle("wasix", "rust").sysroot_dir(false, true).unwrap(), "sysroot32");
    assert!(handle("wasix", "/").sysroot_dir(false, true).is_none());
    assert!(handle("wasix", "").sysroot_dir(true, true).is_none());
    assert!(handle("wasix", "").sysroot_path(true).is_none());
}

#[test]
fn sysroot_dir_missing_directory() {
    // Only /t/sysroot32 exists beside /t/rust.
    let t = handle("wasix", "/t/rust");
    assert_eq!(t.sysroot_dir(false, true).unwrap(), "/t/sysroot32");
    assert!(t.sysroot_dir(true, false).is_none());
    assert_eq!(t.sysroot_path(true).unwrap(), "/t/sysroot64");
}

#[test]
fn parent_paths() {
    assert_eq!(parent_path("/a/b/c").unwrap(), "/a/b");
    assert_eq!(parent_path("/a/b/c/").unwrap(), "/a/b");
    assert_eq!(parent_path("a//b").unwrap(), "a");
    assert_eq!(parent_path("/a").unwrap(), "/");
    assert_eq!(parent_path("a").unwrap(), "");
    assert!(parent_path("///").is_none());
    assert_eq!(join_path("", "b"), "b");
    assert_eq!(join_path("a/", "b"), "a/b");
    assert_eq!(join_path("a", "b"), "a/b");
}

#[test]
fn offline_without_toolchain_fails() {
    let r = decide_acquisition(None, true, false, Some("x86_64-unknown-linux-gnu"));
    assert!(matches!(r, Acquisition::Fail(ToolchainError::OfflineUnavailable)));
}

#[test]
fn registered_toolchain_is_reused() {
    let h = handle("wasix", "/home/user/.wasix/toolchain/rust");
    for offline in [false, true] {
        match decide_acquisition(Some(h.clone()), offline, false, Some("x86_64-unknown-linux-gnu")) {
            Acquisition::UseExisting(t) => {
                assert_eq!(t.name, h.name);
                assert_eq!(t.path, h.path);
            }
            other => panic!("unexpected {:?}", other),
        }
    }
    // A second run over the registry's listing after linking finds the same path.
    let listing = "wasix /home/user/.wasix/toolchain/rust\n";
    let found = RustupToolchain::find_by_name(listing, "wasix");
    match decide_acquisition(found, false, false, None) {
        Acquisition::UseExisting(t) => assert_eq!(t.path, h.path),
        other => panic!("unexpected {:?}", other),
    }
}

#[test]
fn download_or_unsupported() {
    match decide_acquisition(None, false, false, Some("aarch64-apple-darwin")) {
        Acquisition::Download { target } => assert_eq!(target, "aarch64-apple-darwin"),
        other => panic!("unexpected {:?}", other),
    }
    let h = handle("wasix", "/x/rust");
    assert!(matches!(
        decide_acquisition(Some(h), false, true, None),
        Acquisition::Fail(ToolchainError::UnsupportedPlatform)
    ));
}

#[test]
fn host_targets() {
    assert_eq!(guess_host_target(HostArch::X86_64, HostOs::Linux), Some("x86_64-unknown-linux-gnu"));
    assert_eq!(guess_host_target(HostArch::X86_64, HostOs::Macos), Some("x86_64-apple-darwin"));
    assert_eq!(guess_host_target(HostArch::Aarch64, HostOs::Macos), Some("aarch64-apple-darwin"));
    assert_eq!(guess_host_target(HostArch::Aarch64, HostOs::Linux), None);
    assert_eq!(guess_host_target(HostArch::X86_64, HostOs::Windows), None);
    assert_eq!(guess_host_target(HostArch::Aarch64, HostOs::Windows), None);
    assert_eq!(guess_host_target(HostArch::Other, HostOs::Other), None);
}

fn full_release() -> GithubReleaseData {
    release(
        "v1.2.3",
        vec![
            asset("rust-toolchain-x86_64-unknown-linux-gnu.tar.gz", "url_A"),
            asset("wasix-libc.tar.gz", "url_B"),
        ],
    )
}

#[test]
fn download_plan_clears_stale_staging_first() {
    let plan = plan_download("/root/tc", "x86_64-unknown-linux-gnu", &full_release(), true).unwrap();
    let dir = "/root/tc/x86_64-unknown-linux-gnu_v1.2.3";
    assert_eq!(plan.toolchain_dir, dir);
    assert_eq!(plan.steps.len(), 6);
    assert!(matches!(&plan.steps[0], DownloadStep::RemoveDir { path } if path == dir));
    assert!(matches!(&plan.steps[1], DownloadStep::FetchAndExtract { url, dest }
        if url == "url_B" && dest == "/root/tc/x86_64-unknown-linux-gnu_v1.2.3/sysroot"));
    assert!(matches!(&plan.steps[2], DownloadStep::FlattenSysroot { root }
        if root == "/root/tc/x86_64-unknown-linux-gnu_v1.2.3/sysroot"));
    assert!(matches!(&plan.steps[3], DownloadStep::FetchAndExtract { url, dest }
        if url == "url_A" && dest == "/root/tc/x86_64-unknown-linux-gnu_v1.2.3/rust"));
    assert!(matches!(&plan.steps[4], DownloadStep::MakeExecutable { dir }
        if dir == "/root/tc/x86_64-unknown-linux-gnu_v1.2.3/rust/bin"));
    assert!(matches!(&plan.steps[5], DownloadStep::MakeExecutable { dir }
        if dir == "/root/tc/x86_64-unknown-linux-gnu_v1.2.3/rust/lib/rustlib/x86_64-unknown-linux-gnu/bin"));
}

#[test]
fn download_plan_without_stale_staging() {
    let plan = plan_download("/root/tc", "x86_64-unknown-linux-gnu", &full_release(), false).unwrap();
    assert_eq!(plan.steps.len(), 5);
    assert!(matches!(&plan.steps[0], DownloadStep::FetchAndExtract { .. }));
    let bad = release("v1.2.3", vec![asset("rust-toolchain-x86_64-unknown-linux-gnu.tar.gz", "url_A")]);
    assert!(matches!(
        plan_download("/root/tc", "x86_64-unknown-linux-gnu", &bad, true),
        Err(ToolchainError::AssetNotFound { .. })
    ));
}

#[test]
fn installed_toolchain_checks() {
    let h = handle("wasix", "/x/rust");
    assert_eq!(check_installed(h.clone(), "/x/rust", true, true).unwrap().path, "/x/rust");
    match check_installed(h.clone(), "/x/rust", true, false) {
        Err(ToolchainError::IncompleteToolchain { name, path, lib_dir }) => {
            assert_eq!(name, "wasix");
            assert_eq!(path, "/x/rust");
            assert_eq!(lib_dir, "/x/rust/lib/rustlib/wasm64-wasmer-wasi");
        }
        other => panic!("unexpected {:?}", other),
    }
    match check_installed(h, "/y/rust", false, true) {
        Err(ToolchainError::SysrootMismatch { registered, reported }) => {
            assert_eq!(registered, "/x/rust");
            assert_eq!(reported, "/y/rust");
        }
        other => panic!("unexpected {:?}", other),
    }
    assert_eq!(lib_dir("/s", false), "/s/lib/rustlib/wasm32-wasmer-wasi");
}

#[test]
fn components_and_options() {
    assert_eq!(parse_components(""), Some((true, true)));
    assert_eq!(parse_components("all"), Some((true, true)));
    assert_eq!(parse_components("libc"), Some((true, false)));
    assert_eq!(parse_components("rust"), Some((false, true)));
    assert_eq!(parse_components("everything"), None);
    let o = BuildToochainOptions::from_values(None, None, Some("/home/u"), None, false).unwrap();
    assert_eq!(o.root, "/home/u/.wasix");
    assert!(o.build_libc && o.build_rust && o.update_repos);
    assert!(o.rust_host_triple.is_none());
    let o = BuildToochainOptions::from_values(Some("libc"), Some("/b"), Some("/home/u"), Some("h"), true)
        .unwrap();
    assert_eq!(o.root, "/b");
    assert!(o.build_libc && !o.build_rust && !o.update_repos);
    assert_eq!(o.rust_host_triple.as_deref(), Some("h"));
    match BuildToochainOptions::from_values(Some("gcc"), Some("/b"), None, None, false) {
        Err(ToolchainError::InvalidComponents { value }) => assert_eq!(value, "gcc"),
        other => panic!("unexpected {:?}", other.map(|o| o.root)),
    }
    assert!(matches!(
        BuildToochainOptions::from_values(Some("all"), None, None, None, false),
        Err(ToolchainError::MissingBuildRoot)
    ));
}

#[test]
fn full_build_stages() {
    let o = BuildToochainOptions::from_values(None, Some("/b"), None, None, false).unwrap();
    let stages = build_stages(&o, Some("x86_64-unknown-linux-gnu"), true, true).unwrap();
    assert_eq!(stages.len(), 12);
    assert!(matches!(&stages[0], BuildStage::InstallPackages));
    assert!(matches!(&stages[1], BuildStage::SyncRepo { tag, dir, .. } if tag == "main" && dir == "/b/wasix-libc"));
    assert!(matches!(&stages[2], BuildStage::EnsureLlvm { dir } if dir == "/b/llvm-15"));
    assert!(matches!(&stages[3], BuildStage::BuildSysroot { is64bit: false, out_dir, .. } if out_dir == "/b/wasix-libc/sysroot32"));
    assert!(matches!(&stages[4], BuildStage::BuildSysroot { is64bit: true, out_dir, .. } if out_dir == "/b/wasix-libc/sysroot64"));
    assert!(matches!(&stages[5], BuildStage::SyncRepo { tag, dir, .. } if tag == "wasix" && dir == "/b/wasix-rust"));
    assert!(matches!(&stages[6], BuildStage::WriteConfig { path } if path == "/b/wasix-rust/config.toml"));
    assert!(matches!(&stages[7], BuildStage::CompileRust { second_stage: false, host: None, .. }));
    assert!(matches!(&stages[8], BuildStage::CompileRust { second_stage: true, host: None, .. }));
    assert!(matches!(&stages[9], BuildStage::ValidateCompiler { path }
        if path == "/b/wasix-rust/build/x86_64-unknown-linux-gnu/stage2/bin/rustc"));
    assert!(matches!(&stages[10], BuildStage::GraftHostBinaries { toolchain, rel_dir, dest }
        if toolchain == "nightly-x86_64-unknown-linux-gnu"
            && rel_dir == "lib/rust/x86_64-unknown-linux-gnu/bin"
            && dest == "/b/wasix-rust/build/x86_64-unknown-linux-gnu/stage2/lib/rust/x86_64-unknown-linux-gnu/bin"));
    assert!(matches!(&stages[11], BuildStage::Link { name, dir }
        if name == "wasix" && dir == "/b/wasix-rust/build/x86_64-unknown-linux-gnu/stage2"));
}

#[test]
fn partial_build_stages() {
    let o = BuildToochainOptions::from_values(Some("rust"), Some("/b"), None, Some("h"), true).unwrap();
    let stages = build_stages(&o, Some("x86_64-unknown-linux-gnu"), true, false).unwrap();
    assert_eq!(stages.len(), 7);
    assert!(matches!(&stages[0], BuildStage::RequireSysroots { dir32, dir64 }
        if dir32 == "/b/wasix-libc/sysroot32" && dir64 == "/b/wasix-libc/sysroot64"));
    assert!(matches!(&stages[2], BuildStage::CompileRust { host: Some(h), .. } if h == "h"));
    let unforced = BuildToochainOptions::from_values(Some("rust"), Some("/b"), None, None, true).unwrap();
    assert!(matches!(build_stages(&unforced, None, true, false), Err(ToolchainError::UnsupportedPlatform)));
    let o = BuildToochainOptions::from_values(Some("libc"), Some("/b"), None, None, true).unwrap();
    let stages = build_stages(&o, None, true, false).unwrap();
    assert_eq!(stages.len(), 3);
}

/// Applies manager commands to a listing of "name path" lines.
fn apply(listing: &[(String, String)], cmds: &[RegistryCommand]) -> Vec<(String, String)> {
    let mut out: Vec<(String, String)> = listing.to_vec();
    for c in cmds {
        match c {
            RegistryCommand::Remove { name } => out.retain(|(n, _)| n != name),
            RegistryCommand::Link { name, dir } => out.push((name.clone(), dir.clone())),
        }
    }
    out
}

fn render(entries: &[(String, String)]) -> String {
    entries.iter().map(|(n, p)| format!("{n}   {p}\n")).collect()
}

#[test]
fn link_then_find_round_trip() {
    let before = vec![
        ("stable".to_string(), "/r/stable".to_string()),
        ("wasix".to_string(), "/old/rust".to_string()),
    ];
    let present = RustupToolchain::find_by_name(&render(&before), "wasix").is_some();
    assert!(present);
    let cmds = link_commands("wasix", "/new/rust", true, present).unwrap();
    let after = apply(&before, &cmds);
    assert_eq!(after.iter().filter(|(n, _)| n == "wasix").count(), 1);
    let found = RustupToolchain::find_by_name(&render(&after), "wasix").unwrap();
    assert_eq!(found.path, "/new/rust");
    assert_eq!(RustupToolchain::find_by_name(&render(&after), "stable").unwrap().path, "/r/stable");

    let empty: Vec<(String, String)> = vec![];
    let cmds = link_commands("wasix", "/new/rust", true, false).unwrap();
    let after = apply(&empty, &cmds);
    assert_eq!(RustupToolchain::find_by_name(&render(&after), "wasix").unwrap().path, "/new/rust");
}

#[test]
fn forced_host_only_reaches_the_build_driver() {
    let o = BuildToochainOptions::from_values(Some("rust"), Some("/r"), None, Some("aarch64-unknown-linux-gnu"), true)
        .unwrap();
    // The compiler is built for the detected host: without one the build fails.
    assert!(matches!(build_stages(&o, None, true, false), Err(ToolchainError::UnsupportedPlatform)));
    let stages = build_stages(&o, Some("x86_64-unknown-linux-gnu"), true, false).unwrap();
    assert_eq!(stages.len(), 7);
    assert!(matches!(&stages[2], BuildStage::CompileRust { host: Some(h), .. } if h == "aarch64-unknown-linux-gnu"));
    assert!(matches!(&stages[4], BuildStage::ValidateCompiler { path }
        if path == "/r/wasix-rust/build/x86_64-unknown-linux-gnu/stage2/bin/rustc"));
    assert!(matches!(&stages[5], BuildStage::GraftHostBinaries { toolchain, .. }
        if toolchain == "nightly-x86_64-unknown-linux-gnu"));
    assert!(matches!(&stages[6], BuildStage::Link { dir, .. }
        if dir == "/r/wasix-rust/build/x86_64-unknown-linux-gnu/stage2"));
}

#[test]
fn libc_build_needs_linux() {
    let o = BuildToochainOptions::from_values(Some("all"), Some("/b"), None, None, true).unwrap();
    assert!(matches!(
        build_stages(&o, Some("x86_64-apple-darwin"), false, false),
        Err(ToolchainError::LibcUnsupported)
    ));
    let o = BuildToochainOptions::from_values(Some("rust"), Some("/b"), None, None, true).unwrap();
    assert_eq!(build_stages(&o, Some("x86_64-apple-darwin"), false, false).unwrap().len(), 7);
}
