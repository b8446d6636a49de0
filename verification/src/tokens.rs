//! Platform and architecture tokens, and the release asset name derived
//! from them.
//!
//! The release publisher names each asset `grain-<os>-<arch><extension>`,
//! where `<os>` is one of `mac`, `linux` or `win`, `<arch>` is `x64` or
//! `x86` (the 64-bit ARM architecture deliberately maps to the `x64`
//! asset: no native ARM asset is assumed to exist), and `<extension>` is
//! `.exe` exactly on Windows. The derivation must match that convention
//! exactly: a mismatch later surfaces as a missing-asset error, never as a
//! fuzzy match.

use vstd::prelude::*;
use vstd::string::StringExecFns;

verus! {

/// Host operating system, as reported by the environment.
#[derive(Clone, Copy, PartialEq, Eq, Structural, Debug)]
pub enum Os {
    Mac,
    Linux,
    Windows,
}

/// Host CPU architecture, as reported by the environment.
#[derive(Clone, Copy, PartialEq, Eq, Structural, Debug)]
pub enum Arch {
    Aarch64,
    X86,
    X8664,
}

/// The operating-system token in an asset name.
pub open spec fn spec_os_token(os: Os) -> Seq<char> {
    match os {
        Os::Mac => "mac"@,
        Os::Linux => "linux"@,
        Os::Windows => "win"@,
    }
}

/// The architecture token in an asset name: both 64-bit architectures map
/// to `x64`.
pub open spec fn spec_arch_token(arch: Arch) -> Seq<char> {
    match arch {
        Arch::Aarch64 => "x64"@,
        Arch::X86 => "x86"@,
        Arch::X8664 => "x64"@,
    }
}

/// The file extension in an asset name: `.exe` on Windows, empty elsewhere.
pub open spec fn spec_extension_token(os: Os) -> Seq<char> {
    match os {
        Os::Windows => ".exe"@,
        _ => ""@,
    }
}

/// The full asset name: `grain-<os>-<arch><extension>`.
pub open spec fn spec_asset_name(os: Os, arch: Arch) -> Seq<char> {
    "grain-"@ + spec_os_token(os) + "-"@ + spec_arch_token(arch) + spec_extension_token(os)
}

pub fn os_token(os: Os) -> (r: &'static str)
    ensures
        r@ == spec_os_token(os),
{
    match os {
        Os::Mac => "mac",
        Os::Linux => "linux",
        Os::Windows => "win",
    }
}

/// Both `Aarch64` and `X8664` yield the token `x64`; `X86` alone yields
/// `x86`.
pub fn arch_token(arch: Arch) -> (r: &'static str)
    ensures
        r@ == spec_arch_token(arch),
        (arch == Arch::Aarch64 || arch == Arch::X8664) ==> r@ == "x64"@,
        arch == Arch::X86 ==> r@ == "x86"@,
{
    match arch {
        Arch::Aarch64 => "x64",
        Arch::X86 => "x86",
        Arch::X8664 => "x64",
    }
}

/// The extension is `.exe` if and only if the operating system is Windows.
pub fn extension_token(os: Os) -> (r: &'static str)
    ensures
        r@ == spec_extension_token(os),
        (r@ == ".exe"@) <==> os == Os::Windows,
{
    proof {
        reveal_strlit(".exe");
        reveal_strlit("");
        assert(""@.len() == 0);
        assert(".exe"@.len() == 4);
    }
    match os {
        Os::Mac => "",
        Os::Linux => "",
        Os::Windows => ".exe",
    }
}

/// Builds the exact asset name the release publisher uses for the given
/// platform.
pub fn derive_asset_name(os: Os, arch: Arch) -> (r: String)
    ensures
        r@ == spec_asset_name(os, arch),
{
    let mut name = String::from_str("grain-");
    name.append(os_token(os));
    name.append("-");
    name.append(arch_token(arch));
    name.append(extension_token(os));
    name
}

} // verus!
