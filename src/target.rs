use vstd::prelude::*;

verus! {

/// Processor architecture of the machine the tool runs on.
#[derive(Clone, Copy, Debug, PartialEq, Eq, Structural)]
pub enum HostArch {
    X86_64,
    Aarch64,
    Other,
}

/// Operating system of the machine the tool runs on.
#[derive(Clone, Copy, Debug, PartialEq, Eq, Structural)]
pub enum HostOs {
    Linux,
    Macos,
    Windows,
    Other,
}

/// The target triple of the prebuilt toolchain published for a host, if any.
pub open spec fn host_target_spec(arch: HostArch, os: HostOs) -> Option<Seq<char>> {
    match (arch, os) {
        (HostArch::X86_64, HostOs::Linux) => Some("x86_64-unknown-linux-gnu"@),
        (HostArch::X86_64, HostOs::Macos) => Some("x86_64-apple-darwin"@),
        (HostArch::Aarch64, HostOs::Macos) => Some("aarch64-apple-darwin"@),
        _ => None,
    }
}

/// Guess the target triple of the host.
///
/// Only hosts for which prebuilt toolchains are published are recognised.
pub fn guess_host_target(arch: HostArch, os: HostOs) -> (r: Option<&'static str>)
    ensures
        r matches Some(t) ==> host_target_spec(arch, os) == Some(t@),
        r is None ==> host_target_spec(arch, os) is None,
{
    proof {
        reveal_strlit("x86_64-unknown-linux-gnu");
        reveal_strlit("x86_64-apple-darwin");
        reveal_strlit("aarch64-apple-darwin");
    }
    match (arch, os) {
        (HostArch::X86_64, HostOs::Linux) => Some("x86_64-unknown-linux-gnu"),
        (HostArch::X86_64, HostOs::Macos) => Some("x86_64-apple-darwin"),
        (HostArch::Aarch64, HostOs::Macos) => Some("aarch64-apple-darwin"),
        _ => None,
    }
}

} // verus!
