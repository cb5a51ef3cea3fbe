//! Setting up the compilation of a project for Android.
//!
//! A compilation needs a directory to compile into, environment variables
//! that point native builds at the NDK, for builds that link native code a
//! CMake toolchain file, and the executor that rewrites the compiler
//! invocations. The two functions of this module put these together for the
//! two engines. Running the build orchestrator with them is the caller's
//! part.
use vstd::prelude::*;
use crate::command_line::env_texts;
use crate::executor::decide::{DefaultExecutor, SharedLibraryExecutor};
use crate::text::concat2;
use crate::toolchain::{
    build_target_dir, build_target_dir_of, cargo_env_target_cfg, cc_env, cmake_env,
    cmake_toolchain_path, cmake_toolchain_text, env_target_cfg_name, set_cmake_vars, FileToWrite,
};
use crate::types::android_target::AndroidTarget;
use crate::types::profile::Profile;

verus! {

/// The tools of the NDK that a compilation uses, as whoever knows the NDK
/// has found them.
#[derive(Debug, PartialEq, Eq)]
pub struct NdkTools {
    /// The directory of the NDK.
    pub ndk_path: String,
    /// The directory of the NDK's toolchain.
    pub tool_root: String,
    /// The name under which the NDK keeps the tools for the host.
    pub host_tag: String,
    /// The C compiler for the architecture and platform level.
    pub clang: String,
    /// The C++ compiler for the architecture and platform level.
    pub clang_pp: String,
    /// The archiver for the architecture.
    pub ar: String,
    /// The platform level whose libraries were found in the toolchain.
    pub platform: u32,
}

/// What the compilation of a project that links native code needs.
pub struct MacroquadBuild {
    /// The directory to create and compile into.
    pub build_target_dir: String,
    /// The toolchain file to write.
    pub toolchain_file: FileToWrite,
    /// The environment variables to set, in order.
    pub envs: Vec<(String, String)>,
    /// The executor to hand to the build orchestrator.
    pub executor: SharedLibraryExecutor,
}

/// What the compilation of a project that links no native code needs.
pub struct BevyBuild {
    /// The directory to create and compile into.
    pub build_target_dir: String,
    /// The environment variables to set, in order.
    pub envs: Vec<(String, String)>,
    /// The executor to hand to the build orchestrator.
    pub executor: DefaultExecutor,
}

/// The variables of a compilation that links native code: the compilers and
/// the archiver, the variables for CMake, and the C++ runtime.
pub open spec fn macroquad_env(
    triple: Seq<char>,
    clang: Seq<char>,
    clang_pp: Seq<char>,
    ar: Seq<char>,
    ndk_path: Seq<char>,
    build_target_dir: Seq<char>,
    host_tag: Seq<char>,
) -> Seq<(Seq<char>, Seq<char>)> {
    cc_env(triple, clang, clang_pp, ar) + cmake_env(ndk_path, build_target_dir, host_tag) + seq![
        ("CXXSTDLIB"@, "c++"@),
    ]
}

/// The variables of a compilation that links no native code: the compilers,
/// the linker for the orchestrator, and the archiver.
pub open spec fn bevy_env(
    triple: Seq<char>,
    clang: Seq<char>,
    clang_pp: Seq<char>,
    ar: Seq<char>,
) -> Seq<(Seq<char>, Seq<char>)> {
    seq![
        ("CC_"@ + triple, clang),
        ("CXX_"@ + triple, clang_pp),
        (env_target_cfg_name("LINKER"@, triple), clang),
        ("AR_"@ + triple, ar),
    ]
}

/// Sets up the compilation of the project in the workspace at
/// `workspace_root` for Android with the macroquad engine: the build
/// directory below the workspace, the
/// variables for the C toolchain and CMake with the toolchain file, and the
/// executor that builds binaries as shared libraries. Symbols are stripped
/// in release builds.
pub fn compile_rust_for_android_with_mq(
    ndk: &NdkTools,
    build_target: AndroidTarget,
    workspace_root: &str,
    profile: Profile,
    target_sdk_version: u32,
) -> (build: MacroquadBuild)
    ensures
        build.build_target_dir@ == build_target_dir_of(
            workspace_root@,
            build_target.rust_triple_text(),
            profile,
        ),
        build.toolchain_file.path@ == cmake_toolchain_path(build.build_target_dir@),
        build.toolchain_file.contents@ == cmake_toolchain_text(
            target_sdk_version as nat,
            ndk.ndk_path@,
            build_target,
        ),
        env_texts(build.envs@) == macroquad_env(
            build_target.rust_triple_text(),
            ndk.clang@,
            ndk.clang_pp@,
            ndk.ar@,
            ndk.ndk_path@,
            build.build_target_dir@,
            ndk.host_tag@,
        ),
        build.executor.tool_root@ == ndk.tool_root@,
        build.executor.platform == ndk.platform,
        build.executor.build_target_dir@ == build.build_target_dir@,
        build.executor.build_target == build_target,
        build.executor.profile == profile,
        !build.executor.nostrip,
{
    let rust_triple = build_target.rust_triple();
    let dir = build_target_dir(workspace_root, rust_triple, profile);
    let mut envs: Vec<(String, String)> = Vec::new();
    envs.push((concat2("CC_", rust_triple), ndk.clang.clone()));
    envs.push((concat2("CXX_", rust_triple), ndk.clang_pp.clone()));
    envs.push((concat2("AR_", rust_triple), ndk.ar.clone()));
    let cmake = set_cmake_vars(
        build_target,
        ndk.ndk_path.as_str(),
        target_sdk_version,
        dir.as_str(),
        ndk.host_tag.as_str(),
    );
    let ghost head = env_texts(envs@);
    let ghost middle = env_texts(cmake.envs@);
    let mut cmake_envs = cmake.envs;
    envs.append(&mut cmake_envs);
    assert(env_texts(envs@) =~= head + middle);
    envs.push(("CXXSTDLIB".to_owned(), "c++".to_owned()));
    assert(env_texts(envs@) =~= head + middle + seq![("CXXSTDLIB"@, "c++"@)]);
    assert(head =~= cc_env(build_target.rust_triple_text(), ndk.clang@, ndk.clang_pp@, ndk.ar@));
    let executor = SharedLibraryExecutor {
        tool_root: ndk.tool_root.clone(),
        platform: ndk.platform,
        build_target_dir: dir.clone(),
        build_target,
        profile,
        nostrip: false,
    };
    MacroquadBuild {
        build_target_dir: dir,
        toolchain_file: cmake.toolchain_file,
        envs,
        executor,
    }
}

/// Sets up the compilation of the project in the workspace at
/// `workspace_root` for Android with the bevy engine: the build directory
/// below the workspace, the variables for the C toolchain and the linker, and
/// the executor that builds binaries as shared libraries.
pub fn compile_rust_for_android_with_bevy(
    ndk: &NdkTools,
    build_target: AndroidTarget,
    workspace_root: &str,
    profile: Profile,
) -> (build: BevyBuild)
    ensures
        build.build_target_dir@ == build_target_dir_of(
            workspace_root@,
            build_target.rust_triple_text(),
            profile,
        ),
        env_texts(build.envs@) == bevy_env(
            build_target.rust_triple_text(),
            ndk.clang@,
            ndk.clang_pp@,
            ndk.ar@,
        ),
        build.executor.build_dir() == build.build_target_dir@,
{
    let triple = build_target.rust_triple();
    let mut envs: Vec<(String, String)> = Vec::new();
    envs.push((concat2("CC_", triple), ndk.clang.clone()));
    envs.push((concat2("CXX_", triple), ndk.clang_pp.clone()));
    envs.push((cargo_env_target_cfg("LINKER", triple), ndk.clang.clone()));
    envs.push((concat2("AR_", triple), ndk.ar.clone()));
    assert(env_texts(envs@) =~= bevy_env(
        build_target.rust_triple_text(),
        ndk.clang@,
        ndk.clang_pp@,
        ndk.ar@,
    ));
    let dir = build_target_dir(workspace_root, triple, profile);
    let executor = DefaultExecutor::new(dir.as_str());
    BevyBuild { build_target_dir: dir, envs, executor }
}

} // verus!
