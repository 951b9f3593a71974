//! Bundle-directory resolution: mapping a platform-neutral bundle directory
//! onto the one binary file inside it that matches the operating system and
//! CPU architecture.
//!
//! The logic is pure: it works on a snapshot of what the caller saw on disk
//! and on an explicit platform descriptor, so it can be exercised on any
//! host.  The embedding application takes the directory listing and hands it
//! in as plain values.

use vstd::prelude::*;

use crate::HostError;

verus! {

/// Operating-system tag of a platform descriptor.
#[derive(Copy, Clone, PartialEq, Eq, Structural, Debug)]
pub enum HostOs {
    MacOs,
    Linux,
    Windows,
}

/// CPU-architecture tag of a platform descriptor.
#[derive(Copy, Clone, PartialEq, Eq, Structural, Debug)]
pub enum HostArch {
    X86_64,
    Aarch64,
    X86,
    Other,
}

/// Explicit platform descriptor: which subdirectory of a bundle holds the
/// loadable binary is a function of these two tags alone.
#[derive(Copy, Clone, PartialEq, Eq, Structural, Debug)]
pub struct Platform {
    pub os: HostOs,
    pub arch: HostArch,
}

/// Name of the platform-specific directory under the bundle's `Contents`
/// directory.  One fixed name per operating system; on the two multi-arch
/// platforms it is qualified by the architecture.
pub open spec fn spec_platform_subdir(p: Platform) -> Seq<char> {
    match p.os {
        HostOs::MacOs => "MacOS"@,
        HostOs::Linux => match p.arch {
            HostArch::X86_64 => "x86_64-linux"@,
            HostArch::Aarch64 => "aarch64-linux"@,
            _ => "unknown-linux"@,
        },
        HostOs::Windows => match p.arch {
            HostArch::X86_64 => "x86_64-win"@,
            _ => "x86-win"@,
        },
    }
}

/// Returns the name of the platform-specific subdirectory of `Contents`
/// that holds the loadable binary for `p`.
pub fn platform_subdir(p: &Platform) -> (r: String)
    ensures
        r@ == spec_platform_subdir(*p),
{
    match p.os {
        HostOs::MacOs => String::from_str("MacOS"),
        HostOs::Linux => match p.arch {
            HostArch::X86_64 => String::from_str("x86_64-linux"),
            HostArch::Aarch64 => String::from_str("aarch64-linux"),
            _ => String::from_str("unknown-linux"),
        },
        HostOs::Windows => match p.arch {
            HostArch::X86_64 => String::from_str("x86_64-win"),
            _ => String::from_str("x86-win"),
        },
    }
}

/// One entry of a directory listing, as the caller saw it.
pub struct FileEntry {
    /// Full path (or name) of the entry, handed back verbatim on selection.
    pub name: String,
    /// Whether the entry is a regular file.
    pub is_file: bool,
}

/// What the caller saw when it looked at a candidate bundle directory.
///
/// `platform_entries` is the listing of `Contents/<platform subdirectory>`
/// (see [`platform_subdir`]), or `None` when that subdirectory is absent or
/// unreadable.
pub struct BundleSnapshot {
    /// Text form of the bundle path, used in error reports.
    pub display: String,
    /// Whether the bundle path is a directory.
    pub is_dir: bool,
    /// Extension of the bundle path's file name, when it has one.
    pub extension: Option<String>,
    /// Listing of the platform-specific subdirectory, if it exists.
    pub platform_entries: Option<Vec<FileEntry>>,
}

/// A well-formed bundle is a directory whose name carries the fixed
/// expected extension.
pub open spec fn spec_is_bundle_dir(snap: BundleSnapshot) -> bool {
    snap.is_dir && (snap.extension matches Some(e) && e@ == "vst3"@)
}

/// Name of the first regular file of a listing, in listing order.
pub open spec fn spec_first_file(entries: Seq<FileEntry>) -> Option<Seq<char>>
    decreases entries.len(),
{
    if entries.len() == 0 {
        None
    } else if entries[0].is_file {
        Some(entries[0].name@)
    } else {
        spec_first_file(entries.drop_first())
    }
}

/// Returns the name of the first regular file of `entries`, if any.
pub fn first_file(entries: &Vec<FileEntry>) -> (r: Option<String>)
    ensures
        match spec_first_file(entries@) {
            Some(name) => r matches Some(n) && n@ == name,
            None => r is None,
        },
{
    let n = entries.len();
    let mut i: usize = 0;
    proof {
        assert(entries@.skip(0) =~= entries@);
    }
    while i < n
        invariant
            n == entries@.len(),
            i <= n,
            spec_first_file(entries@) == spec_first_file(entries@.skip(i as int)),
            forall|j: int| 0 <= j < i ==> !entries@[j].is_file,
        decreases n - i,
    {
        proof {
            assert(entries@.skip(i as int)[0] == entries@[i as int]);
            assert(entries@.skip(i as int).drop_first() =~= entries@.skip(i as int + 1));
        }
        if entries[i].is_file {
            return Some(entries[i].name.clone());
        }
        i += 1;
    }
    None
}

/// Resolves a bundle directory to the loadable binary inside it.
pub struct BundlePath;

impl BundlePath {
    /// Maps a bundle-directory snapshot onto the single binary file under
    /// its platform-specific subdirectory.
    ///
    /// Fails with `InvalidBundle` when the path is not a directory with the
    /// expected extension, and with `BinaryNotFound` when the platform
    /// subdirectory is absent or holds no regular file.  Otherwise returns
    /// the first regular file of that subdirectory, in listing order.
    pub fn resolve(snap: &BundleSnapshot) -> (r: Result<String, HostError>)
        ensures
            !spec_is_bundle_dir(*snap) ==> (r matches Err(e) && e matches HostError::InvalidBundle(
                m,
            ) && m@ == snap.display@),
            spec_is_bundle_dir(*snap) && snap.platform_entries is None ==> (r matches Err(e)
                && e matches HostError::BinaryNotFound),
            spec_is_bundle_dir(*snap) ==> (snap.platform_entries matches Some(es) ==> match spec_first_file(
                es@,
            ) {
                Some(name) => r matches Ok(b) && b@ == name,
                None => r matches Err(e) && e matches HostError::BinaryNotFound,
            }),
            r is Ok <==> spec_is_bundle_dir(*snap) && (snap.platform_entries matches Some(es)
                && spec_first_file(es@) is Some),
    {
        let ok_ext = match &snap.extension {
            Some(e) => {
                let expected = String::from_str("vst3");
                *e == expected
            },
            None => false,
        };
        if !snap.is_dir || !ok_ext {
            return Err(HostError::InvalidBundle(snap.display.clone()));
        }
        match &snap.platform_entries {
            None => Err(HostError::BinaryNotFound),
            Some(entries) => match first_file(entries) {
                Some(bin) => Ok(bin),
                None => Err(HostError::BinaryNotFound),
            },
        }
    }
}

} // verus!
