use vstd::prelude::*;
use vstd::string::StringExecFns;

use crate::error::ToolchainError;
use crate::registry::{apply_commands, find_entry, link_plan, lemma_link_registers, Entry, RustupToolchain};
use crate::text::{join_path, join_spec, opt_view};

verus! {

/// The name under which the toolchain is registered with the toolchain manager.
pub const RUSTUP_TOOLCHAIN_NAME: &'static str = "wasix";

pub open spec fn toolchain_name_spec() -> Seq<char> {
    "wasix"@
}

/// What to do to make the toolchain available.
#[derive(Clone, Debug)]
pub enum Acquisition {
    /// The registered toolchain is used as it is.
    UseExisting(RustupToolchain),
    /// The prebuilt toolchain for `target` is to be downloaded and registered.
    Download { target: String },
    /// Nothing can be done; the error says why.
    Fail(ToolchainError),
}

/// The decision, as plain values.
pub enum Decision {
    Reuse { path: Seq<char> },
    Download { target: Seq<char> },
    Offline,
    Unsupported,
}

impl Acquisition {
    pub open spec fn view(&self) -> Decision {
        match self {
            Acquisition::UseExisting(t) => Decision::Reuse { path: t.path@ },
            Acquisition::Download { target } => Decision::Download { target: target@ },
            Acquisition::Fail(ToolchainError::OfflineUnavailable) => Decision::Offline,
            _ => Decision::Unsupported,
        }
    }
}

/// A registered toolchain is reused unless a rebuild is asked for; otherwise,
/// offline, nothing can be done; online, the prebuilt toolchain of the host is
/// downloaded where the host has one.
pub open spec fn decide_spec(
    existing: Option<Seq<char>>,
    offline: bool,
    force_rebuild: bool,
    host_target: Option<Seq<char>>,
) -> Decision {
    if existing is Some && !force_rebuild {
        Decision::Reuse { path: existing->0 }
    } else if offline {
        Decision::Offline
    } else {
        match host_target {
            Some(t) => Decision::Download { target: t },
            None => Decision::Unsupported,
        }
    }
}

pub open spec fn path_of(t: Option<RustupToolchain>) -> Option<Seq<char>> {
    match t {
        Some(t) => Some(t.path@),
        None => None,
    }
}

/// Decide how to make the toolchain available, given the toolchain that is
/// registered under its name (if any), whether the network may be used,
/// whether a fresh toolchain is asked for, and the host's target triple where
/// a prebuilt toolchain is published for it.
pub fn decide_acquisition(
    existing: Option<RustupToolchain>,
    offline: bool,
    force_rebuild: bool,
    host_target: Option<&str>,
) -> (r: Acquisition)
    ensures
        r@ == decide_spec(path_of(existing), offline, force_rebuild, opt_view(host_target)),
        existing is Some && !force_rebuild ==> r == Acquisition::UseExisting(existing->0),
        r matches Acquisition::Fail(e) ==> (e matches ToolchainError::OfflineUnavailable
            || e matches ToolchainError::UnsupportedPlatform),
{
    match existing {
        Some(t) => {
            if !force_rebuild {
                return Acquisition::UseExisting(t);
            }
        },
        None => {},
    }
    if offline {
        Acquisition::Fail(ToolchainError::OfflineUnavailable)
    } else {
        match host_target {
            Some(t) => Acquisition::Download { target: String::from_str(t) },
            None => Acquisition::Fail(ToolchainError::UnsupportedPlatform),
        }
    }
}

/// The target library directory that a toolchain with sysroot `sysroot` must hold.
pub open spec fn lib_dir_spec(sysroot: Seq<char>, is64bit: bool) -> Seq<char> {
    join_spec(
        sysroot,
        if is64bit {
            "lib/rustlib/wasm64-wasmer-wasi"@
        } else {
            "lib/rustlib/wasm32-wasmer-wasi"@
        },
    )
}

/// The target library directory that a toolchain with sysroot `sysroot` must hold.
pub fn lib_dir(sysroot: &str, is64bit: bool) -> (r: String)
    ensures
        r@ == lib_dir_spec(sysroot@, is64bit),
{
    proof {
        reveal_strlit("lib/rustlib/wasm64-wasmer-wasi");
        reveal_strlit("lib/rustlib/wasm32-wasmer-wasi");
    }
    if is64bit {
        join_path(sysroot, "lib/rustlib/wasm64-wasmer-wasi")
    } else {
        join_path(sysroot, "lib/rustlib/wasm32-wasmer-wasi")
    }
}

/// Check an available toolchain: the compiler must report the registered path
/// as its sysroot (`reported_sysroot`, without surrounding blanks), and the
/// target library directory must exist there (`lib_dir_exists`).
pub fn check_installed(
    toolchain: RustupToolchain,
    reported_sysroot: &str,
    is64bit: bool,
    lib_dir_exists: bool,
) -> (r: Result<RustupToolchain, ToolchainError>)
    ensures
        toolchain.path@ != reported_sysroot@ ==> (r matches Err(
            ToolchainError::SysrootMismatch { registered, reported },
        ) && registered@ == toolchain.path@ && reported@ == reported_sysroot@),
        toolchain.path@ == reported_sysroot@ && lib_dir_exists ==> r == Ok::<
            RustupToolchain,
            ToolchainError,
        >(toolchain),
        toolchain.path@ == reported_sysroot@ && !lib_dir_exists ==> (r matches Err(
            ToolchainError::IncompleteToolchain { name, path, lib_dir },
        ) && name@ == toolchain.name@ && path@ == toolchain.path@ && lib_dir@ == lib_dir_spec(
            reported_sysroot@,
            is64bit,
        )),
{
    let reported = String::from_str(reported_sysroot);
    if toolchain.path != reported {
        return Err(
            ToolchainError::SysrootMismatch { registered: toolchain.path, reported },
        );
    }
    if !lib_dir_exists {
        return Err(
            ToolchainError::IncompleteToolchain {
                name: toolchain.name,
                path: toolchain.path,
                lib_dir: lib_dir(reported_sysroot, is64bit),
            },
        );
    }
    Ok(toolchain)
}

/// Once a toolchain has been linked under its name, the next run finds it and
/// reuses it: no download or build is decided on, whatever the other settings.
pub proof fn lemma_second_run_reuses(
    entries: Seq<Entry>,
    dir: Seq<char>,
    offline: bool,
    host_target: Option<Seq<char>>,
)
    ensures
        ({
            let name = toolchain_name_spec();
            let after = apply_commands(
                entries,
                link_plan(name, dir, find_entry(entries, name) is Some),
            );
            decide_spec(find_entry(after, name), offline, false, host_target) == Decision::Reuse {
                path: dir,
            }
        }),
{
    lemma_link_registers(entries, toolchain_name_spec(), dir);
}

/// Offline, with no toolchain registered under its name, nothing is
/// downloaded: the decision is the offline failure.
pub proof fn lemma_offline_without_toolchain(
    entries: Seq<Entry>,
    force_rebuild: bool,
    host_target: Option<Seq<char>>,
)
    requires
        find_entry(entries, toolchain_name_spec()) is None,
    ensures
        decide_spec(find_entry(entries, toolchain_name_spec()), true, force_rebuild, host_target)
            == Decision::Offline,
{
}

} // verus!
