//! The linker configuration of a build that links native code.
use vstd::prelude::*;
use crate::paths::{join, join2, join3, path_join, path_join2, path_join3};
use crate::text::{concat2, decimal, texts, u32_to_decimal};
use crate::types::android_target::AndroidTarget;
use crate::types::profile::Profile;

verus! {

/// The paths that the linker configuration names.
pub struct LinkerPaths {
    /// The linker.
    pub linker: String,
    /// The system root of the toolchain.
    pub sysroot: String,
    /// The directory of the libraries of one platform level.
    pub version_specific_libraries: String,
    /// The directory of the libraries that all platform levels share.
    pub version_independent_libraries: String,
    /// The directory of the compiler's runtime support library.
    pub gcc_lib: String,
}

/// A `LinkerPaths` as plain data.
pub struct LinkerPathsView {
    pub linker: Seq<char>,
    pub sysroot: Seq<char>,
    pub version_specific_libraries: Seq<char>,
    pub version_independent_libraries: Seq<char>,
    pub gcc_lib: Seq<char>,
}

impl View for LinkerPaths {
    type V = LinkerPathsView;

    open spec fn view(&self) -> LinkerPathsView {
        LinkerPathsView {
            linker: self.linker@,
            sysroot: self.sysroot@,
            version_specific_libraries: self.version_specific_libraries@,
            version_independent_libraries: self.version_independent_libraries@,
            gcc_lib: self.gcc_lib@,
        }
    }
}

impl LinkerPathsView {
    /// The paths below the toolchain directory `tool_root` for the
    /// architecture with the NDK triple `ndk_triple` and the platform level
    /// `platform`.
    pub open spec fn locate(tool_root: Seq<char>, ndk_triple: Seq<char>, platform: nat) -> Self {
        let sysroot = path_join(tool_root, "sysroot"@);
        let shared = path_join3(sysroot, "usr"@, "lib"@, ndk_triple);
        LinkerPathsView {
            linker: path_join2(tool_root, "bin"@, ndk_triple + "-ld.gold"@),
            sysroot: sysroot,
            version_specific_libraries: path_join(shared, decimal(platform)),
            version_independent_libraries: shared,
            gcc_lib: path_join3(tool_root, "lib/gcc"@, ndk_triple, "4.9.x"@),
        }
    }

    /// The arguments that configure the linker: the linker and its flavor,
    /// the system root, the three library search paths, the flag that strips
    /// symbols where `strip` asks for it, and the position-independent
    /// relocation model.
    pub open spec fn args(self, strip: bool) -> Seq<Seq<char>> {
        seq![
            "-Clinker="@ + self.linker,
            "-Clinker-flavor=ld"@,
            "-Clink-arg=--sysroot="@ + self.sysroot,
            "-Clink-arg=-L"@ + self.version_specific_libraries,
            "-Clink-arg=-L"@ + self.version_independent_libraries,
            "-Clink-arg=-L"@ + self.gcc_lib,
        ] + (if strip {
            seq!["-Clink-arg=-strip-all"@]
        } else {
            Seq::empty()
        }) + seq!["-Crelocation-model=pic"@]
    }
}

/// Whether symbols are stripped: in release builds, unless stripping is
/// switched off.
pub open spec fn strips_symbols(nostrip: bool, profile: Profile) -> bool {
    !nostrip && profile == Profile::Release
}

/// The linker arguments of a build for `ndk_triple` at platform level
/// `platform` with the toolchain at `tool_root`.
pub open spec fn linker_args(
    tool_root: Seq<char>,
    ndk_triple: Seq<char>,
    platform: nat,
    nostrip: bool,
    profile: Profile,
) -> Seq<Seq<char>> {
    LinkerPathsView::locate(tool_root, ndk_triple, platform).args(strips_symbols(nostrip, profile))
}

impl LinkerPaths {
    /// Locates the linker, the system root and the library directories below
    /// the toolchain directory `tool_root`, for `build_target` and the
    /// platform level `platform`.
    pub fn locate(tool_root: &str, build_target: &AndroidTarget, platform: u32) -> (paths: Self)
        ensures
            paths@ == LinkerPathsView::locate(
                tool_root@,
                build_target.ndk_triple_text(),
                platform as nat,
            ),
    {
        let triple = build_target.ndk_triple();
        let linker_name = concat2(triple, "-ld.gold");
        let linker = join2(tool_root, "bin", linker_name.as_str());
        let sysroot = join(tool_root, "sysroot");
        let shared = join3(sysroot.as_str(), "usr", "lib", triple);
        let level = u32_to_decimal(platform);
        let specific = join(shared.as_str(), level.as_str());
        let gcc_lib = join3(tool_root, "lib/gcc", triple, "4.9.x");
        LinkerPaths {
            linker,
            sysroot,
            version_specific_libraries: specific,
            version_independent_libraries: shared,
            gcc_lib,
        }
    }

    /// The arguments that configure the linker with these paths.
    pub fn args(&self, strip: bool) -> (args: Vec<String>)
        ensures
            texts(args@) == self@.args(strip),
    {
        let mut args: Vec<String> = Vec::new();
        args.push(concat2("-Clinker=", self.linker.as_str()));
        args.push("-Clinker-flavor=ld".to_owned());
        args.push(concat2("-Clink-arg=--sysroot=", self.sysroot.as_str()));
        args.push(concat2("-Clink-arg=-L", self.version_specific_libraries.as_str()));
        args.push(concat2("-Clink-arg=-L", self.version_independent_libraries.as_str()));
        args.push(concat2("-Clink-arg=-L", self.gcc_lib.as_str()));
        if strip {
            args.push("-Clink-arg=-strip-all".to_owned());
        }
        args.push("-Crelocation-model=pic".to_owned());
        assert(texts(args@) =~= self@.args(strip));
        args
    }
}

/// The arguments that configure the linker for a build of `build_target` at
/// platform level `platform` with the toolchain at `tool_root`. Symbols are
/// stripped in release builds unless `nostrip` is set.
pub fn linker_arguments(
    tool_root: &str,
    build_target: &AndroidTarget,
    platform: u32,
    nostrip: bool,
    profile: Profile,
) -> (args: Vec<String>)
    ensures
        texts(args@) == linker_args(
            tool_root@,
            build_target.ndk_triple_text(),
            platform as nat,
            nostrip,
            profile,
        ),
{
    let strip = !nostrip && match profile {
        Profile::Release => true,
        Profile::Debug => false,
    };
    LinkerPaths::locate(tool_root, build_target, platform).args(strip)
}

} // verus!
