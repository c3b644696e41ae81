use vstd::prelude::*;

verus! {

/// The operating system the host reports for the running process.
#[derive(Clone, Copy, Debug, PartialEq, Eq, Structural)]
pub enum Os {
    Mac,
    Linux,
    Windows,
}

/// The processor architecture the host reports for the running process.
#[derive(Clone, Copy, Debug, PartialEq, Eq, Structural)]
pub enum Arch {
    Aarch64,
    X86,
    X8664,
}

/// The label a release asset name carries for each operating system.
pub open spec fn spec_os_label(os: Os) -> Seq<char> {
    match os {
        Os::Mac => "macOS"@,
        Os::Linux => "Linux"@,
        Os::Windows => "Windows"@,
    }
}

/// The label a release asset name carries for each architecture.
pub open spec fn spec_arch_label(arch: Arch) -> Seq<char> {
    match arch {
        Arch::Aarch64 => "ARM64"@,
        Arch::X86 => "32bit"@,
        Arch::X8664 => "64bit"@,
    }
}

pub fn os_label(os: Os) -> (r: &'static str)
    ensures
        r@ == spec_os_label(os),
{
    match os {
        Os::Mac => "macOS",
        Os::Linux => "Linux",
        Os::Windows => "Windows",
    }
}

pub fn arch_label(arch: Arch) -> (r: &'static str)
    ensures
        r@ == spec_arch_label(arch),
{
    match arch {
        Arch::Aarch64 => "ARM64",
        Arch::X86 => "32bit",
        Arch::X8664 => "64bit",
    }
}

} // verus!
