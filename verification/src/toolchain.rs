//! The toolchain settings of an Android build: the environment variables
//! that point compilers of native code at the NDK, and the toolchain file
//! for builds that run CMake.
//!
//! Nothing in this module touches the environment or the file system. The functions
//! say which variables are to be set and which file is to be written; the
//! caller decides whether to set them for its own process or only for the
//! commands it runs.
use vstd::prelude::*;
use crate::command_line::env_texts;
use crate::paths::{join, join3, path_join, path_join3};
use crate::text::{
    concat3, decimal, replace, replace_char, to_uppercase, u32_to_decimal, uppercase,
};
use crate::types::android_target::AndroidTarget;
use crate::types::profile::Profile;

verus! {

/// A file that is to be written.
#[derive(Debug, PartialEq, Eq)]
pub struct FileToWrite {
    /// Where the file goes.
    pub path: String,
    /// What it holds.
    pub contents: String,
}

/// The name of the variable by which the orchestrator is told the `tool`
/// for the architecture `target`: dashes of the triple become underscores,
/// and the whole name is upper case.
pub open spec fn env_target_cfg_name(tool: Seq<char>, target: Seq<char>) -> Seq<char> {
    uppercase("CARGO_TARGET_"@ + replace_char(target, '-', "_"@) + "_"@ + tool)
}

/// The name of the variable by which the orchestrator is told the `tool`
/// for the architecture `target`.
pub fn cargo_env_target_cfg(tool: &str, target: &str) -> (name: String)
    ensures
        name@ == env_target_cfg_name(tool@, target@),
{
    let utarget = replace(target, '-', "_");
    let mut env = concat3("CARGO_TARGET_", utarget.as_str(), "_");
    env.append(tool);
    to_uppercase(env.as_str())
}

/// The directory that the units of a build are compiled into: below the
/// project's `target` directory, keyed by triple and profile.
pub open spec fn build_target_dir_of(root: Seq<char>, triple: Seq<char>, profile: Profile) -> Seq<
    char,
> {
    path_join3(root, "target"@, triple, profile.name())
}

/// The directory that the units of a build are compiled into.
pub fn build_target_dir(root: &str, triple: &str, profile: Profile) -> (dir: String)
    ensures
        dir@ == build_target_dir_of(root@, triple@, profile),
{
    join3(root, "target", triple, profile.as_str())
}

/// The name of the toolchain file inside the build directory.
pub open spec fn cmake_toolchain_path(build_target_dir: Seq<char>) -> Seq<char> {
    path_join(build_target_dir, "cargo-apk.toolchain.cmake"@)
}

/// The text of the toolchain file. It sets platform and ABI, takes the
/// compiler's target flag out of the flags that CMake was handed for C and
/// C++, forgets the cached compilers, and includes the toolchain file of the
/// NDK at `ndk_path`, which is written with forward slashes whatever the
/// platform.
pub open spec fn cmake_toolchain_text(
    min_sdk_version: nat,
    ndk_path: Seq<char>,
    build_target: AndroidTarget,
) -> Seq<char> {
    "set(ANDROID_PLATFORM android-"@ + decimal(min_sdk_version) + ")\n        set(ANDROID_ABI "@
        + build_target.android_abi_text() + ")\n        string(REPLACE \"--target="@
        + build_target.rust_triple_text()
        + "\" \"\" CMAKE_C_FLAGS \"${CMAKE_C_FLAGS}\")\n        string(REPLACE \"--target="@
        + build_target.rust_triple_text()
        + "\" \"\" CMAKE_CXX_FLAGS \"${CMAKE_CXX_FLAGS}\")\n        unset(CMAKE_C_COMPILER CACHE)\n        unset(CMAKE_CXX_COMPILER CACHE)\n        include(\""@
        + replace_char(ndk_path, '\\', "/"@) + "/build/cmake/android.toolchain.cmake\")\n"@
}

/// Makes the toolchain file that removes references to the compiler's
/// target before it includes the toolchain that the NDK provides, which sets
/// the target itself. The file goes into the build directory.
pub fn write_cmake_toolchain(
    min_sdk_version: u32,
    ndk_path: &str,
    build_target_dir: &str,
    build_target: AndroidTarget,
) -> (file: FileToWrite)
    ensures
        file.path@ == cmake_toolchain_path(build_target_dir@),
        file.contents@ == cmake_toolchain_text(min_sdk_version as nat, ndk_path@, build_target),
{
    let toolchain_path = join(build_target_dir, "cargo-apk.toolchain.cmake");
    let level = u32_to_decimal(min_sdk_version);
    let ndk = replace(ndk_path, '\\', "/");
    let triple = build_target.rust_triple();
    let mut text = concat3(
        "set(ANDROID_PLATFORM android-",
        level.as_str(),
        ")\n        set(ANDROID_ABI ",
    );
    text.append(build_target.android_abi());
    text.append(")\n        string(REPLACE \"--target=");
    text.append(triple);
    text.append("\" \"\" CMAKE_C_FLAGS \"${CMAKE_C_FLAGS}\")\n        string(REPLACE \"--target=");
    text.append(triple);
    text.append(
        "\" \"\" CMAKE_CXX_FLAGS \"${CMAKE_CXX_FLAGS}\")\n        unset(CMAKE_C_COMPILER CACHE)\n        unset(CMAKE_CXX_COMPILER CACHE)\n        include(\"",
    );
    text.append(ndk.as_str());
    text.append("/build/cmake/android.toolchain.cmake\")\n");
    FileToWrite { path: toolchain_path, contents: text }
}

/// The path to the `make` that the NDK at `ndk_path` provides for the host
/// `host_tag`.
pub fn make_path(ndk_path: &str, host_tag: &str) -> (path: String)
    ensures
        path@ == path_join3(ndk_path@, "prebuild"@, host_tag@, "make"@),
{
    join3(ndk_path, "prebuild", host_tag, "make")
}

/// The variables that configure CMake: the toolchain file, the generator,
/// and the `make` program.
pub open spec fn cmake_env(
    ndk_path: Seq<char>,
    build_target_dir: Seq<char>,
    host_tag: Seq<char>,
) -> Seq<(Seq<char>, Seq<char>)> {
    seq![
        ("CMAKE_TOOLCHAIN_FILE"@, cmake_toolchain_path(build_target_dir)),
        ("CMAKE_GENERATOR"@, "Unix Makefiles"@),
        ("CMAKE_MAKE_PROGRAM"@, path_join3(ndk_path, "prebuild"@, host_tag, "make"@)),
    ]
}

/// What a build that runs CMake needs: the toolchain file and the
/// variables that point CMake at it.
#[derive(Debug, PartialEq, Eq)]
pub struct CmakeSetup {
    /// The toolchain file to write.
    pub toolchain_file: FileToWrite,
    /// The variables to set, in order.
    pub envs: Vec<(String, String)>,
}

/// Says what a build that runs CMake needs: the toolchain file for
/// `build_target` at `target_sdk_version`, and the variables for CMake.
pub fn set_cmake_vars(
    build_target: AndroidTarget,
    ndk_path: &str,
    target_sdk_version: u32,
    build_target_dir: &str,
    host_tag: &str,
) -> (setup: CmakeSetup)
    ensures
        setup.toolchain_file.path@ == cmake_toolchain_path(build_target_dir@),
        setup.toolchain_file.contents@ == cmake_toolchain_text(
            target_sdk_version as nat,
            ndk_path@,
            build_target,
        ),
        env_texts(setup.envs@) == cmake_env(ndk_path@, build_target_dir@, host_tag@),
{
    let toolchain_file = write_cmake_toolchain(
        target_sdk_version,
        ndk_path,
        build_target_dir,
        build_target,
    );
    let mut envs: Vec<(String, String)> = Vec::new();
    envs.push(("CMAKE_TOOLCHAIN_FILE".to_owned(), toolchain_file.path.clone()));
    envs.push(("CMAKE_GENERATOR".to_owned(), "Unix Makefiles".to_owned()));
    envs.push(("CMAKE_MAKE_PROGRAM".to_owned(), make_path(ndk_path, host_tag)));
    assert(env_texts(envs@) =~= cmake_env(ndk_path@, build_target_dir@, host_tag@));
    CmakeSetup { toolchain_file, envs }
}

/// The variables that point the build of native code at the NDK's C
/// compiler, C++ compiler and archiver for the architecture `triple`.
pub open spec fn cc_env(
    triple: Seq<char>,
    clang: Seq<char>,
    clang_pp: Seq<char>,
    ar: Seq<char>,
) -> Seq<(Seq<char>, Seq<char>)> {
    seq![("CC_"@ + triple, clang), ("CXX_"@ + triple, clang_pp), ("AR_"@ + triple, ar)]
}

} // verus!
