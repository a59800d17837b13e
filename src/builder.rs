use vstd::prelude::*;
use vstd::string::StringExecFns;

use crate::error::ToolchainError;
use crate::text::{join_path, join_spec, opt_view};

verus! {

/// Repository of the WASIX libc.
pub const LIBC_REPO: &'static str = "https://github.com/wasmerio/wasix-libc.git";

/// Repository of the compiler with WASIX support.
pub const RUST_REPO: &'static str = "https://github.com/wasmerio/rust.git";

/// Download address of the LLVM and clang release that builds the libc.
pub const LLVM_LINUX_SOURCE: &'static str = "https://github.com/llvm/llvm-project/releases/download/llvmorg-15.0.2/clang+llvm-15.0.2-x86_64-unknown-linux-gnu-rhel86.tar.xz";

/// Configuration of the compiler build: both WASIX targets, each with the
/// sysroot that the libc build produced.
pub const BUILD_CONFIG: &'static str = "
changelog-seen = 2

[llvm]
download-ci-llvm = true

[build]
target = [\"wasm32-wasmer-wasi\", \"wasm64-wasmer-wasi\"]
extended = true
tools = [ \"clippy\", \"rustfmt\" ]
configure-args = []

[rust]
lld = false
llvm-tools = false

[target.wasm32-wasmer-wasi]
wasi-root = \"../wasix-libc/sysroot32\"

[target.wasm64-wasmer-wasi]
wasi-root = \"../wasix-libc/sysroot64\"
";

/// Options for a toolchain build.
#[derive(Clone, Debug)]
pub struct BuildToochainOptions {
    /// Directory that holds the checkouts and build outputs.
    pub root: String,
    pub build_libc: bool,
    pub build_rust: bool,
    /// Host triple handed to the compiler build, if one is forced.
    pub rust_host_triple: Option<String>,
    /// Whether the repositories are brought to their branch before building.
    pub update_repos: bool,
}

/// Output info of a successful rust toolchain build.
#[derive(Clone, Debug)]
pub struct RustBuildOutput {
    pub target: String,
    pub toolchain_dir: String,
}

/// The components that a selection names: (libc, compiler).
pub open spec fn components_spec(v: Seq<char>) -> Option<(bool, bool)> {
    if v == ""@ || v == "all"@ {
        Some((true, true))
    } else if v == "libc"@ {
        Some((true, false))
    } else if v == "rust"@ {
        Some((false, true))
    } else {
        None
    }
}

pub open spec fn opt_string_view(s: Option<String>) -> Option<Seq<char>> {
    match s {
        Some(s) => Some(s@),
        None => None,
    }
}

fn opt_to_string(s: Option<&str>) -> (r: Option<String>)
    ensures
        opt_string_view(r) == opt_view(s),
{
    match s {
        Some(s) => Some(String::from_str(s)),
        None => None,
    }
}

/// The components that `value` selects: (libc, compiler).
pub fn parse_components(value: &str) -> (r: Option<(bool, bool)>)
    ensures
        r == components_spec(value@),
{
    proof {
        reveal_strlit("");
        reveal_strlit("all");
        reveal_strlit("libc");
        reveal_strlit("rust");
    }
    let v = String::from_str(value);
    if v == String::from_str("") || v == String::from_str("all") {
        Some((true, true))
    } else if v == String::from_str("libc") {
        Some((true, false))
    } else if v == String::from_str("rust") {
        Some((false, true))
    } else {
        None
    }
}

impl BuildToochainOptions {
    /// Options from the configured values: the component selection (none
    /// means all), the build directory, the home directory (the build
    /// directory defaults to `.wasix` in it), a forced host triple, and
    /// whether repository updates were switched off.
    pub fn from_values(
        components: Option<&str>,
        build_dir: Option<&str>,
        home_dir: Option<&str>,
        rust_host: Option<&str>,
        no_update_repos: bool,
    ) -> (r: Result<Self, ToolchainError>)
        ensures
            ({
                let sel = components_spec(
                    match components {
                        Some(c) => c@,
                        None => ""@,
                    },
                );
                match sel {
                    None => r matches Err(ToolchainError::InvalidComponents { value })
                        && Some(value@) == opt_view(components),
                    Some((libc, rust)) => match (build_dir, home_dir) {
                        (None, None) => r matches Err(ToolchainError::MissingBuildRoot),
                        _ => r matches Ok(o) && o.build_libc == libc && o.build_rust == rust
                            && o.root@ == (match build_dir {
                            Some(d) => d@,
                            None => join_spec(home_dir->0@, ".wasix"@),
                        }) && opt_string_view(o.rust_host_triple) == opt_view(rust_host)
                            && o.update_repos == !no_update_repos,
                    },
                }
            }),
    {
        proof {
            reveal_strlit("");
            reveal_strlit(".wasix");
        }
        let value = match components {
            Some(c) => c,
            None => "",
        };
        let (build_libc, build_rust) = match parse_components(value) {
            Some(sel) => sel,
            None => {
                return Err(ToolchainError::InvalidComponents { value: String::from_str(value) });
            },
        };
        let root = match build_dir {
            Some(d) => String::from_str(d),
            None => match home_dir {
                Some(h) => join_path(h, ".wasix"),
                None => {
                    return Err(ToolchainError::MissingBuildRoot);
                },
            },
        };
        Ok(
            BuildToochainOptions {
                root,
                build_libc,
                build_rust,
                rust_host_triple: opt_to_string(rust_host),
                update_repos: !no_update_repos,
            },
        )
    }
}

/// One stage of building the toolchain from source.
#[derive(Clone, Debug)]
pub enum BuildStage {
    /// Install the system packages the build needs.
    InstallPackages,
    /// Clone `url` into `dir` if needed, bring it to `tag`, with all submodules.
    SyncRepo { url: String, tag: String, dir: String },
    /// Make sure LLVM and clang are in `dir`, downloading them if not.
    EnsureLlvm { dir: String },
    /// Build the libc in `src_dir` with the LLVM in `llvm_dir`, then replace
    /// `out_dir` with the sysroot produced.
    BuildSysroot { is64bit: bool, src_dir: String, llvm_dir: String, out_dir: String },
    /// Fail unless both sysroots are there already.
    RequireSysroots { dir32: String, dir64: String },
    /// Write the compiler build configuration to `path`.
    WriteConfig { path: String },
    /// Run the compiler build driver in `rust_dir`: the first stage or the second.
    CompileRust { second_stage: bool, rust_dir: String, host: Option<String> },
    /// Fail unless the compiler exists at `path`.
    ValidateCompiler { path: String },
    /// Install the stock toolchain `toolchain` and copy its `rel_dir` to `dest`.
    GraftHostBinaries { toolchain: String, rel_dir: String, dest: String },
    /// Register `dir` under `name` with the toolchain manager.
    Link { name: String, dir: String },
}

/// A stage of the build, as plain values.
pub enum StageView {
    InstallPackages,
    SyncRepo { url: Seq<char>, tag: Seq<char>, dir: Seq<char> },
    EnsureLlvm { dir: Seq<char> },
    BuildSysroot { is64bit: bool, src_dir: Seq<char>, llvm_dir: Seq<char>, out_dir: Seq<char> },
    RequireSysroots { dir32: Seq<char>, dir64: Seq<char> },
    WriteConfig { path: Seq<char> },
    CompileRust { second_stage: bool, rust_dir: Seq<char>, host: Option<Seq<char>> },
    ValidateCompiler { path: Seq<char> },
    GraftHostBinaries { toolchain: Seq<char>, rel_dir: Seq<char>, dest: Seq<char> },
    Link { name: Seq<char>, dir: Seq<char> },
}

impl BuildStage {
    pub open spec fn view(&self) -> StageView {
        match self {
            BuildStage::InstallPackages => StageView::InstallPackages,
            BuildStage::SyncRepo { url, tag, dir } => StageView::SyncRepo {
                url: url@,
                tag: tag@,
                dir: dir@,
            },
            BuildStage::EnsureLlvm { dir } => StageView::EnsureLlvm { dir: dir@ },
            BuildStage::BuildSysroot { is64bit, src_dir, llvm_dir, out_dir } => {
                StageView::BuildSysroot {
                    is64bit: *is64bit,
                    src_dir: src_dir@,
                    llvm_dir: llvm_dir@,
                    out_dir: out_dir@,
                }
            },
            BuildStage::RequireSysroots { dir32, dir64 } => StageView::RequireSysroots {
                dir32: dir32@,
                dir64: dir64@,
            },
            BuildStage::WriteConfig { path } => StageView::WriteConfig { path: path@ },
            BuildStage::CompileRust { second_stage, rust_dir, host } => StageView::CompileRust {
                second_stage: *second_stage,
                rust_dir: rust_dir@,
                host: opt_string_view(*host),
            },
            BuildStage::ValidateCompiler { path } => StageView::ValidateCompiler { path: path@ },
            BuildStage::GraftHostBinaries { toolchain, rel_dir, dest } => {
                StageView::GraftHostBinaries {
                    toolchain: toolchain@,
                    rel_dir: rel_dir@,
                    dest: dest@,
                }
            },
            BuildStage::Link { name, dir } => StageView::Link { name: name@, dir: dir@ },
        }
    }
}

pub open spec fn stages_view(stages: Seq<BuildStage>) -> Seq<StageView> {
    stages.map_values(|s: BuildStage| s@)
}

/// The libc stages: update the checkout, provide LLVM, then build the 32-bit
/// and the 64-bit sysroot; or, where the libc is not built, require both
/// sysroots to be there.
pub open spec fn libc_stages(root: Seq<char>, build_libc: bool, update: bool) -> Seq<StageView> {
    let src = join_spec(root, "wasix-libc"@);
    let llvm = join_spec(root, "llvm-15"@);
    let dir32 = join_spec(src, "sysroot32"@);
    let dir64 = join_spec(src, "sysroot64"@);
    if build_libc {
        (if update {
            seq![
                StageView::SyncRepo {
                    url: "https://github.com/wasmerio/wasix-libc.git"@,
                    tag: "main"@,
                    dir: src,
                },
            ]
        } else {
            Seq::empty()
        }) + seq![
            StageView::EnsureLlvm { dir: llvm },
            StageView::BuildSysroot { is64bit: false, src_dir: src, llvm_dir: llvm, out_dir: dir32 },
            StageView::BuildSysroot { is64bit: true, src_dir: src, llvm_dir: llvm, out_dir: dir64 },
        ]
    } else {
        seq![StageView::RequireSysroots { dir32, dir64 }]
    }
}

/// Where the second compiler stage puts the toolchain for `host`.
pub open spec fn stage2_spec(root: Seq<char>, host: Seq<char>) -> Seq<char> {
    join_spec(join_spec(join_spec(join_spec(root, "wasix-rust"@), "build"@), host), "stage2"@)
}

/// Where the host's helper programs stand inside a toolchain for `host`.
pub open spec fn host_bin_spec(host: Seq<char>) -> Seq<char> {
    join_spec(join_spec("lib/rust"@, host), "bin"@)
}

/// The compiler stages: update the checkout, write the configuration, run
/// both driver stages, check that the compiler exists, add the host's helper
/// programs from the stock nightly toolchain, and register the result.
pub open spec fn rust_stages(
    root: Seq<char>,
    update: bool,
    forced_host: Option<Seq<char>>,
    host: Seq<char>,
) -> Seq<StageView> {
    let dir = join_spec(root, "wasix-rust"@);
    let stage2 = stage2_spec(root, host);
    (if update {
        seq![StageView::SyncRepo { url: "https://github.com/wasmerio/rust.git"@, tag: "wasix"@, dir }]
    } else {
        Seq::empty()
    }) + seq![
        StageView::WriteConfig { path: join_spec(dir, "config.toml"@) },
        StageView::CompileRust { second_stage: false, rust_dir: dir, host: forced_host },
        StageView::CompileRust { second_stage: true, rust_dir: dir, host: forced_host },
        StageView::ValidateCompiler { path: join_spec(join_spec(stage2, "bin"@), "rustc"@) },
        StageView::GraftHostBinaries {
            toolchain: "nightly-"@ + host,
            rel_dir: host_bin_spec(host),
            dest: join_spec(stage2, host_bin_spec(host)),
        },
        StageView::Link { name: "wasix"@, dir: stage2 },
    ]
}

/// All stages of a build with the given options, on a host with target
/// triple `host`, where `apt` tells whether the system's package manager is
/// available.
pub open spec fn build_stages_spec(
    o: BuildToochainOptions,
    host: Seq<char>,
    apt: bool,
) -> Seq<StageView> {
    (if apt {
        seq![StageView::InstallPackages]
    } else {
        Seq::empty()
    }) + libc_stages(o.root@, o.build_libc, o.update_repos) + (if o.build_rust {
        rust_stages(o.root@, o.update_repos, opt_string_view(o.rust_host_triple), host)
    } else {
        Seq::empty()
    })
}

fn copy_opt(s: &Option<String>) -> (r: Option<String>)
    ensures
        opt_string_view(r) == opt_string_view(*s),
{
    match s {
        Some(s) => Some(s.clone()),
        None => None,
    }
}

/// The stages that build the toolchain with `options`, on a host whose
/// detected target triple is `host` (`None` where it is not recognised) and
/// where `libc_supported` tells whether the libc can be built (only on Linux).
/// The libc build fails where it is not supported; the compiler is built for
/// the detected host, so without one it fails. A host triple forced in the
/// options is only handed to the build driver.
#[verifier::rlimit(40)]
pub fn build_stages(
    options: &BuildToochainOptions,
    host: Option<&str>,
    libc_supported: bool,
    apt: bool,
) -> (r: Result<Vec<BuildStage>, ToolchainError>)
    ensures
        options.build_libc && !libc_supported ==> r matches Err(ToolchainError::LibcUnsupported),
        !(options.build_libc && !libc_supported) && options.build_rust && host is None
            ==> r matches Err(ToolchainError::UnsupportedPlatform),
        !(options.build_libc && !libc_supported) && !(options.build_rust && host is None) ==> (r matches Ok(
            stages,
        ) && stages_view(stages@) == build_stages_spec(
            *options,
            match host {
                Some(h) => h@,
                None => ""@,
            },
            apt,
        )),
{
    proof {
        reveal_strlit("");
        reveal_strlit("wasix-libc");
        reveal_strlit("llvm-15");
        reveal_strlit("sysroot32");
        reveal_strlit("sysroot64");
        reveal_strlit("https://github.com/wasmerio/wasix-libc.git");
        reveal_strlit("main");
        reveal_strlit("wasix-rust");
        reveal_strlit("build");
        reveal_strlit("stage2");
        reveal_strlit("lib/rust");
        reveal_strlit("bin");
        reveal_strlit("https://github.com/wasmerio/rust.git");
        reveal_strlit("wasix");
        reveal_strlit("config.toml");
        reveal_strlit("rustc");
        reveal_strlit("nightly-");
    }
    if options.build_libc && !libc_supported {
        return Err(ToolchainError::LibcUnsupported);
    }
    let host_triple: &str = match host {
        Some(h) => h,
        None => {
            if options.build_rust {
                return Err(ToolchainError::UnsupportedPlatform);
            }
            ""
        },
    };
    let root = options.root.as_str();
    let mut stages: Vec<BuildStage> = Vec::new();
    if apt {
        stages.push(BuildStage::InstallPackages);
    }
    let ghost pre = stages@;
    let src = join_path(root, "wasix-libc");
    let dir32 = join_path(src.as_str(), "sysroot32");
    let dir64 = join_path(src.as_str(), "sysroot64");
    if options.build_libc {
        if options.update_repos {
            stages.push(
                BuildStage::SyncRepo {
                    url: String::from_str("https://github.com/wasmerio/wasix-libc.git"),
                    tag: String::from_str("main"),
                    dir: src.clone(),
                },
            );
        }
        let llvm = join_path(root, "llvm-15");
        stages.push(BuildStage::EnsureLlvm { dir: llvm.clone() });
        stages.push(
            BuildStage::BuildSysroot {
                is64bit: false,
                src_dir: src.clone(),
                llvm_dir: llvm.clone(),
                out_dir: dir32,
            },
        );
        stages.push(
            BuildStage::BuildSysroot { is64bit: true, src_dir: src, llvm_dir: llvm, out_dir: dir64 },
        );
    } else {
        stages.push(BuildStage::RequireSysroots { dir32, dir64 });
    }
    assert(stages_view(stages@) =~= stages_view(pre) + libc_stages(
        options.root@,
        options.build_libc,
        options.update_repos,
    ));
    let ghost mid = stages@;
    if options.build_rust {
        let dir = join_path(root, "wasix-rust");
        let build = join_path(dir.as_str(), "build");
        let host_dir = join_path(build.as_str(), host_triple);
        let stage2 = join_path(host_dir.as_str(), "stage2");
        if options.update_repos {
            stages.push(
                BuildStage::SyncRepo {
                    url: String::from_str("https://github.com/wasmerio/rust.git"),
                    tag: String::from_str("wasix"),
                    dir: dir.clone(),
                },
            );
        }
        stages.push(BuildStage::WriteConfig { path: join_path(dir.as_str(), "config.toml") });
        stages.push(
            BuildStage::CompileRust {
                second_stage: false,
                rust_dir: dir.clone(),
                host: copy_opt(&options.rust_host_triple),
            },
        );
        stages.push(
            BuildStage::CompileRust {
                second_stage: true,
                rust_dir: dir,
                host: copy_opt(&options.rust_host_triple),
            },
        );
        let bin = join_path(stage2.as_str(), "bin");
        stages.push(BuildStage::ValidateCompiler { path: join_path(bin.as_str(), "rustc") });
        let lib_host = join_path("lib/rust", host_triple);
        let rel = join_path(lib_host.as_str(), "bin");
        stages.push(
            BuildStage::GraftHostBinaries {
                toolchain: String::from_str("nightly-").concat(host_triple),
                rel_dir: rel.clone(),
                dest: join_path(stage2.as_str(), rel.as_str()),
            },
        );
        stages.push(BuildStage::Link { name: String::from_str("wasix"), dir: stage2 });
        assert(stages_view(stages@) =~= stages_view(mid) + rust_stages(
            options.root@,
            options.update_repos,
            opt_string_view(options.rust_host_triple),
            host_triple@,
        ));
    }
    assert(stages_view(stages@) =~= build_stages_spec(*options, host_triple@, apt));
    Ok(stages)
}

} // verus!
