//! Rewriting the arguments of a compiler invocation.
//!
//! The compiler is handed its source file as a bare argument and its crate
//! type and output directory as the values of flags. The rewrite therefore
//! works by position: the source argument is the first one whose file name is
//! that of the source file, and a value is the argument directly behind its
//! flag.
use vstd::prelude::*;
use crate::command_line::{
    flag_value, is_first_occurrence, lemma_flag_value_at, lemma_flag_value_occurs, CommandLine,
    CommandLineView,
};
use crate::executor::linker::{linker_args, linker_arguments};
use crate::executor::unit::{ExecutorError, ExecutorErrorView};
use crate::paths::{file_name, path_file_name, path_with_file_name, with_file_name};
use crate::text::{opt_text, texts};
use crate::types::android_target::AndroidTarget;
use crate::types::profile::Profile;

verus! {

/// Whether the argument directly before position `i` is `flag`.
pub open spec fn follows(args: Seq<Seq<char>>, i: int, flag: Seq<char>) -> bool {
    1 <= i < args.len() && args[i - 1] == flag
}

/// The argument at position `i` after retargeting: the crate type `bin`
/// behind its flag becomes `cdylib`, the value of the output directory flag
/// becomes `build_dir`, and everything else stays.
pub open spec fn retargeted_at(args: Seq<Seq<char>>, i: int, build_dir: Seq<char>) -> Seq<char> {
    if follows(args, i, "--crate-type"@) && args[i] == "bin"@ {
        "cdylib"@
    } else if follows(args, i, "--out-dir"@) {
        build_dir
    } else {
        args[i]
    }
}

/// The arguments after retargeting. Every position is decided by the
/// arguments as they were before.
pub open spec fn retargeted(args: Seq<Seq<char>>, build_dir: Seq<char>) -> Seq<Seq<char>> {
    Seq::new(args.len(), |i: int| retargeted_at(args, i, build_dir))
}

/// The argument at position `i` after demotion: the crate type `cdylib`
/// behind its flag becomes `rlib`, and everything else stays.
pub open spec fn demoted_at(args: Seq<Seq<char>>, i: int) -> Seq<char> {
    if follows(args, i, "--crate-type"@) && args[i] == "cdylib"@ {
        "rlib"@
    } else {
        args[i]
    }
}

/// The arguments after demotion.
pub open spec fn demoted(args: Seq<Seq<char>>) -> Seq<Seq<char>> {
    Seq::new(args.len(), |i: int| demoted_at(args, i))
}

/// Whether an argument with the file name `arg_name` names the source file
/// with the file name `source_name`: both have a file name, and it is the
/// same.
pub open spec fn names_source(arg_name: Option<Seq<char>>, source_name: Option<Seq<char>>) -> bool {
    arg_name is Some && arg_name == source_name
}

/// Whether `i` is the position of the source argument: the first position
/// whose file name is that of the source.
pub open spec fn is_source_position(
    arg_names: Seq<Option<Seq<char>>>,
    source_name: Option<Seq<char>>,
    i: int,
) -> bool {
    &&& 0 <= i < arg_names.len()
    &&& names_source(arg_names[i], source_name)
    &&& forall|j: int| 0 <= j < i ==> !names_source(#[trigger] arg_names[j], source_name)
}

/// Whether no argument names the source.
pub open spec fn no_source_position(
    arg_names: Seq<Option<Seq<char>>>,
    source_name: Option<Seq<char>>,
) -> bool {
    forall|j: int| 0 <= j < arg_names.len() ==> !names_source(#[trigger] arg_names[j], source_name)
}

/// The file names of a list of arguments.
pub open spec fn file_names_of(args: Seq<Seq<char>>) -> Seq<Option<Seq<char>>> {
    args.map_values(|a: Seq<char>| path_file_name(a))
}

/// The texts of a list of optional strings.
pub open spec fn opt_texts(items: Seq<Option<String>>) -> Seq<Option<Seq<char>>> {
    items.map_values(|s: Option<String>| opt_text(s))
}

/// The arguments of a command rewritten for packaging: the source argument
/// at position `at` is replaced by `source_arg`, then the arguments are
/// retargeted.
pub open spec fn packaged(
    args: Seq<Seq<char>>,
    at: int,
    source_arg: Seq<char>,
    build_dir: Seq<char>,
) -> Seq<Seq<char>> {
    retargeted(args.update(at, source_arg), build_dir)
}

/// Whether `arg` holds the text `text`.
fn holds(arg: &String, text: &str) -> (yes: bool)
    ensures
        yes == (arg@ == text@),
{
    *arg == text.to_owned()
}

/// Finds the source argument among arguments with the file names
/// `arg_names`: the position of the first whose file name is `source_name`.
/// There is none if no argument has that file name, and none if the source
/// has no file name.
pub fn find_source_arg(arg_names: &[Option<String>], source_name: &Option<String>) -> (found:
    Option<usize>)
    ensures
        match found {
            Some(i) => is_source_position(opt_texts(arg_names@), opt_text(*source_name), i as int),
            None => no_source_position(opt_texts(arg_names@), opt_text(*source_name)),
        },
{
    let wanted = match source_name {
        Some(name) => name,
        None => {
            return None;
        },
    };
    let mut i: usize = 0;
    while i < arg_names.len()
        invariant
            i <= arg_names.len(),
            *source_name == Some(*wanted),
            forall|j: int|
                0 <= j < i ==> !names_source(
                    #[trigger] opt_texts(arg_names@)[j],
                    opt_text(*source_name),
                ),
        decreases arg_names.len() - i,
    {
        let hit = match &arg_names[i] {
            Some(name) => *name == *wanted,
            None => false,
        };
        assert(hit == names_source(opt_texts(arg_names@)[i as int], opt_text(*source_name)));
        if hit {
            return Some(i);
        }
        i += 1;
    }
    None
}

/// The flag and the new value of a rule that replaces whatever stands
/// behind a flag.
spec fn behind(rule: Option<(&str, &str)>) -> Option<(Seq<char>, Seq<char>)> {
    match rule {
        Some(pair) => Some((pair.0@, pair.1@)),
        None => None,
    }
}

/// The argument at position `i` after the value `from` behind `flag` is
/// replaced by `to` and, where `any` gives a flag and a value, whatever
/// stands behind that flag is replaced by that value.
spec fn replaced_at(
    args: Seq<Seq<char>>,
    i: int,
    flag: Seq<char>,
    from: Seq<char>,
    to: Seq<char>,
    any: Option<(Seq<char>, Seq<char>)>,
) -> Seq<char> {
    if follows(args, i, flag) && args[i] == from {
        to
    } else {
        match any {
            Some((any_flag, value)) => if follows(args, i, any_flag) {
                value
            } else {
                args[i]
            },
            None => args[i],
        }
    }
}

/// Replaces values behind flags in place. The arguments are visited from the
/// last to the first, so that every position is decided by the arguments as
/// they were.
fn replace_behind_flags(
    args: &mut Vec<String>,
    flag: &str,
    from: &str,
    to: &str,
    any: Option<(&str, &str)>,
)
    ensures
        final(args)@.len() == old(args)@.len(),
        forall|j: int|
            0 <= j < old(args)@.len() ==> #[trigger] texts(final(args)@)[j] == replaced_at(
                texts(old(args)@),
                j,
                flag@,
                from@,
                to@,
                behind(any),
            ),
{
    let ghost before = texts(args@);
    let mut i: usize = args.len();
    while i > 1
        invariant
            i <= args.len(),
            args.len() == before.len(),
            forall|j: int| 0 <= j < i ==> #[trigger] texts(args@)[j] == before[j],
            forall|j: int|
                i <= j < args.len() ==> #[trigger] texts(args@)[j] == replaced_at(
                    before,
                    j,
                    flag@,
                    from@,
                    to@,
                    behind(any),
                ),
        decreases i,
    {
        i -= 1;
        let ghost earlier = texts(args@);
        assert(earlier[i as int] == before[i as int]);
        assert(earlier[i - 1] == before[i - 1]);
        if holds(&args[i - 1], flag) && holds(&args[i], from) {
            args[i] = to.to_owned();
        } else {
            match any {
                Some(pair) => {
                    if holds(&args[i - 1], pair.0) {
                        args[i] = pair.1.to_owned();
                    }
                },
                None => {},
            }
        }
        proof {
            assert(texts(args@)[i as int] == replaced_at(
                before,
                i as int,
                flag@,
                from@,
                to@,
                behind(any),
            ));
            assert forall|j: int| 0 <= j < i implies #[trigger] texts(args@)[j] == before[j] by {
                assert(texts(args@)[j] == earlier[j]);
            }
            assert forall|j: int| i <= j < args.len() implies #[trigger] texts(args@)[j]
                == replaced_at(before, j, flag@, from@, to@, behind(any)) by {
                if j > i {
                    assert(texts(args@)[j] == earlier[j]);
                }
            }
        }
    }
    proof {
        assert forall|j: int| 0 <= j < args.len() implies #[trigger] texts(args@)[j]
            == replaced_at(before, j, flag@, from@, to@, behind(any)) by {
            if j < i {
                assert(texts(args@)[j] == before[j]);
            }
        }
    }
}

/// Retargets the arguments in place: the crate type `bin` becomes `cdylib`,
/// and the output goes to `build_dir`.
pub fn retarget(args: &mut Vec<String>, build_dir: &str)
    ensures
        texts(final(args)@) == retargeted(texts(old(args)@), build_dir@),
{
    replace_behind_flags(args, "--crate-type", "bin", "cdylib", Some(("--out-dir", build_dir)));
    assert(texts(args@) =~= retargeted(texts(old(args)@), build_dir@));
}

/// Demotes the arguments in place: the crate type `cdylib` becomes `rlib`.
pub fn demote(args: &mut Vec<String>)
    ensures
        texts(final(args)@) == demoted(texts(old(args)@)),
{
    replace_behind_flags(args, "--crate-type", "cdylib", "rlib", None);
    assert(texts(args@) =~= demoted(texts(old(args)@)));
}

/// Rewrites arguments for packaging, given the position of the source
/// argument and the argument that takes its place: the source argument is
/// replaced, then the arguments are retargeted to `build_dir`.
pub fn rewrite_for_packaging(
    args: Vec<String>,
    source_at: usize,
    source_arg: String,
    build_dir: &str,
) -> (rewritten: Vec<String>)
    requires
        source_at < args.len(),
    ensures
        texts(rewritten@) == packaged(texts(args@), source_at as int, source_arg@, build_dir@),
{
    let mut rewritten = args;
    rewritten[source_at] = source_arg;
    assert(texts(rewritten@) =~= texts(args@).update(source_at as int, source_arg@));
    retarget(&mut rewritten, build_dir);
    rewritten
}

/// The file name of every argument.
fn file_names(args: &Vec<String>) -> (names: Vec<Option<String>>)
    ensures
        opt_texts(names@) == file_names_of(texts(args@)),
{
    let mut names: Vec<Option<String>> = Vec::new();
    let mut i: usize = 0;
    while i < args.len()
        invariant
            i <= args.len(),
            names.len() == i,
            forall|j: int|
                0 <= j < i ==> #[trigger] opt_texts(names@)[j] == path_file_name(
                    texts(args@)[j],
                ),
        decreases args.len() - i,
    {
        let ghost earlier = opt_texts(names@);
        let name = file_name(args[i].as_str());
        names.push(name);
        proof {
            assert forall|j: int| 0 <= j < i + 1 implies #[trigger] opt_texts(names@)[j]
                == path_file_name(texts(args@)[j]) by {
                if j < i {
                    assert(opt_texts(names@)[j] == earlier[j]);
                }
            }
        }
        i += 1;
    }
    assert(opt_texts(names@) =~= file_names_of(texts(args@)));
    names
}

/// The position of the source argument, where there is one.
pub open spec fn source_position(
    arg_names: Seq<Option<Seq<char>>>,
    source_name: Option<Seq<char>>,
) -> Option<int> {
    if exists|i: int| is_source_position(arg_names, source_name, i) {
        Some(choose|i: int| is_source_position(arg_names, source_name, i))
    } else {
        None
    }
}

/// There is at most one source position, and `source_position` is it.
pub proof fn lemma_source_position_is_unique(
    arg_names: Seq<Option<Seq<char>>>,
    source_name: Option<Seq<char>>,
    i: int,
)
    ensures
        is_source_position(arg_names, source_name, i) <==> source_position(
            arg_names,
            source_name,
        ) == Some(i),
        no_source_position(arg_names, source_name) <==> source_position(arg_names, source_name)
            is None,
{
    if is_source_position(arg_names, source_name, i) {
        let j = choose|j: int| is_source_position(arg_names, source_name, j);
        if j < i {
            assert(!names_source(arg_names[j], source_name));
        }
        if i < j {
            assert(!names_source(arg_names[i], source_name));
        }
    }
    if no_source_position(arg_names, source_name) {
        if exists|j: int| is_source_position(arg_names, source_name, j) {
            let j = choose|j: int| is_source_position(arg_names, source_name, j);
            assert(!names_source(arg_names[j], source_name));
        }
    } else {
        let bad = choose|j: int|
            0 <= j < arg_names.len() && names_source(#[trigger] arg_names[j], source_name);
        lemma_first_source_position(arg_names, source_name, bad);
    }
}

/// Where some argument up to position `upto` names the source, there is a
/// first one that does.
proof fn lemma_first_source_position(
    arg_names: Seq<Option<Seq<char>>>,
    source_name: Option<Seq<char>>,
    upto: int,
)
    requires
        0 <= upto < arg_names.len(),
        names_source(arg_names[upto], source_name),
    ensures
        exists|i: int| is_source_position(arg_names, source_name, i),
    decreases upto,
{
    if forall|j: int| 0 <= j < upto ==> !names_source(#[trigger] arg_names[j], source_name) {
        assert(is_source_position(arg_names, source_name, upto));
    } else {
        let j = choose|j: int| 0 <= j < upto && names_source(#[trigger] arg_names[j], source_name);
        lemma_first_source_position(arg_names, source_name, j);
    }
}

/// The arguments of a command packaged with the generated file
/// `tmp_file_name`, where the source argument is at position `at`: the file
/// name of the source argument, and only its file name, is replaced; then the
/// arguments are retargeted to `build_target_dir`.
pub open spec fn packaged_args(
    args: Seq<Seq<char>>,
    at: int,
    tmp_file_name: Seq<char>,
    build_target_dir: Seq<char>,
) -> Seq<Seq<char>> {
    packaged(args, at, path_with_file_name(args[at], tmp_file_name), build_target_dir)
}

/// What becomes of a command that compiles the target `target_name` from the
/// source file `path`, where `extra` is appended behind the packaged
/// arguments: the command with its arguments rewritten where it has a source
/// argument, and else the refusal that names the target.
pub open spec fn packaged_command(
    cmd: CommandLineView,
    path: Seq<char>,
    tmp_file_name: Seq<char>,
    build_target_dir: Seq<char>,
    target_name: Seq<char>,
    extra: Seq<Seq<char>>,
) -> Result<CommandLineView, ExecutorErrorView> {
    match source_position(file_names_of(cmd.args), path_file_name(path)) {
        Some(at) => Ok(
            CommandLineView {
                args: packaged_args(cmd.args, at, tmp_file_name, build_target_dir) + extra,
                ..cmd
            },
        ),
        None => Err(ExecutorErrorView::SourceArgumentNotFound { target: target_name }),
    }
}

/// The view of the outcome of a rewrite.
pub open spec fn outcome_view(outcome: Result<CommandLine, ExecutorError>) -> Result<
    CommandLineView,
    ExecutorErrorView,
> {
    match outcome {
        Ok(cmd) => Ok(cmd@),
        Err(e) => Err(e@),
    }
}

/// Packages `cmd` and appends `extra` behind its arguments.
fn package_with(
    path: &str,
    tmp_file_name: &str,
    build_target_dir: &str,
    target_name: &str,
    cmd: &CommandLine,
    extra: Vec<String>,
) -> (rewritten: Result<CommandLine, ExecutorError>)
    ensures
        outcome_view(rewritten) == packaged_command(
            cmd@,
            path@,
            tmp_file_name@,
            build_target_dir@,
            target_name@,
            texts(extra@),
        ),
{
    let names = file_names(&cmd.args);
    let source_name = file_name(path);
    let found = find_source_arg(names.as_slice(), &source_name);
    proof {
        match found {
            Some(i) => lemma_source_position_is_unique(
                file_names_of(cmd@.args),
                path_file_name(path@),
                i as int,
            ),
            None => lemma_source_position_is_unique(
                file_names_of(cmd@.args),
                path_file_name(path@),
                0,
            ),
        }
    }
    let at = match found {
        Some(at) => at,
        None => {
            return Err(ExecutorError::SourceArgumentNotFound { target: target_name.to_owned() });
        },
    };
    assert(0 <= at < cmd.args.len());
    let source_arg = with_file_name(cmd.args[at].as_str(), tmp_file_name);
    let args = cmd.clone().args;
    assert(texts(args@) == cmd@.args);
    let mut new_args = rewrite_for_packaging(args, at, source_arg, build_target_dir);
    let ghost head = texts(new_args@);
    let mut extra = extra;
    let ghost tail = texts(extra@);
    new_args.append(&mut extra);
    assert(texts(new_args@) =~= head + tail);
    Ok(cmd.with_args(new_args))
}

/// Rewrites the command `cmd`, which compiles the executable `target_name`
/// from the source file `path`, so that it compiles the generated file
/// `tmp_file_name` as a shared library into `build_target_dir`.
///
/// The source argument is the first argument whose file name is that of
/// `path`. Its file name, and only its file name, is replaced by
/// `tmp_file_name`, so that a relative argument stays relative. Then the
/// arguments are retargeted. A command without a source argument is refused,
/// and nothing of it is rewritten.
pub fn package_command(
    path: &str,
    tmp_file_name: &str,
    build_target_dir: &str,
    target_name: &str,
    cmd: &CommandLine,
) -> (rewritten: Result<CommandLine, ExecutorError>)
    ensures
        outcome_view(rewritten) == packaged_command(
            cmd@,
            path@,
            tmp_file_name@,
            build_target_dir@,
            target_name@,
            Seq::empty(),
        ),
{
    let extra: Vec<String> = Vec::new();
    assert(texts(extra@) =~= Seq::<Seq<char>>::empty());
    package_with(path, tmp_file_name, build_target_dir, target_name, cmd, extra)
}

/// Rewrites the command `cmd` as `package_command` does, for a build that
/// links native code: the linker configuration for `build_target` at the
/// platform level `platform`, with the toolchain at `tool_root`, is appended
/// behind the arguments. Nothing that the command already says to the linker
/// is taken away.
pub fn get_cmd_args(
    path: &str,
    tmp_file_name: &str,
    build_target_dir: &str,
    target_name: &str,
    cmd: &CommandLine,
    tool_root: &str,
    build_target: &AndroidTarget,
    platform: u32,
    nostrip: bool,
    profile: Profile,
) -> (rewritten: Result<CommandLine, ExecutorError>)
    ensures
        outcome_view(rewritten) == packaged_command(
            cmd@,
            path@,
            tmp_file_name@,
            build_target_dir@,
            target_name@,
            linker_args(
                tool_root@,
                build_target.ndk_triple_text(),
                platform as nat,
                nostrip,
                profile,
            ),
        ),
{
    let extra = linker_arguments(tool_root, build_target, platform, nostrip, profile);
    package_with(path, tmp_file_name, build_target_dir, target_name, cmd, extra)
}

/// Packaging keeps the shape of a command. Take arguments that hold the
/// crate type flag with the value `bin` at `crate_type_at`, behind it the
/// output directory flag with some value at `out_dir_at`, and behind that
/// the source argument at `source_at`, where neither the two flags nor the
/// source argument stand directly behind an output directory flag, and the
/// argument that takes the place of the source argument is not the text
/// `bin` directly behind a crate type flag. Then in the packaged arguments
/// the crate type is `cdylib`, the output directory is `build_dir`, the
/// source argument is the one that was put in its place, and there are as
/// many arguments as before.
pub proof fn lemma_packaging_keeps_shape(
    args: Seq<Seq<char>>,
    crate_type_at: int,
    out_dir_at: int,
    source_at: int,
    source_arg: Seq<char>,
    build_dir: Seq<char>,
)
    requires
        0 <= crate_type_at,
        crate_type_at + 1 < out_dir_at,
        out_dir_at + 1 < source_at < args.len(),
        args[crate_type_at] == "--crate-type"@,
        args[crate_type_at + 1] == "bin"@,
        args[out_dir_at] == "--out-dir"@,
        !follows(args, crate_type_at, "--out-dir"@),
        !follows(args, out_dir_at, "--out-dir"@),
        !follows(args, source_at, "--out-dir"@),
        !(follows(args, source_at, "--crate-type"@) && source_arg == "bin"@),
    ensures
        ({
            let out = packaged(args, source_at, source_arg, build_dir);
            &&& out.len() == args.len()
            &&& out[crate_type_at] == "--crate-type"@
            &&& out[crate_type_at + 1] == "cdylib"@
            &&& out[out_dir_at] == "--out-dir"@
            &&& out[out_dir_at + 1] == build_dir
            &&& out[source_at] == source_arg
        }),
{
    reveal_strlit("--crate-type");
    reveal_strlit("--out-dir");
    reveal_strlit("bin");
    assert("--crate-type"@.len() != "--out-dir"@.len());
    assert("--crate-type"@.len() != "bin"@.len());
    assert("--out-dir"@.len() != "bin"@.len());
}

/// What `lemma_packaging_keeps_shape` says of every argument that takes the
/// place of the source argument, it says of the one that the rewrite puts
/// there: the source argument with its file name replaced.
pub proof fn lemma_packaged_args_keep_shape(
    args: Seq<Seq<char>>,
    crate_type_at: int,
    out_dir_at: int,
    source_at: int,
    tmp_file_name: Seq<char>,
    build_target_dir: Seq<char>,
)
    requires
        0 <= crate_type_at,
        crate_type_at + 1 < out_dir_at,
        out_dir_at + 1 < source_at < args.len(),
        args[crate_type_at] == "--crate-type"@,
        args[crate_type_at + 1] == "bin"@,
        args[out_dir_at] == "--out-dir"@,
        !follows(args, crate_type_at, "--out-dir"@),
        !follows(args, out_dir_at, "--out-dir"@),
        !follows(args, source_at, "--out-dir"@),
    ensures
        ({
            let out = packaged_args(args, source_at, tmp_file_name, build_target_dir);
            let source_arg = path_with_file_name(args[source_at], tmp_file_name);
            &&& out.len() == args.len()
            &&& out[crate_type_at] == "--crate-type"@
            &&& out[crate_type_at + 1] == "cdylib"@
            &&& out[out_dir_at] == "--out-dir"@
            &&& out[out_dir_at + 1] == build_target_dir
            &&& !(follows(args, source_at, "--crate-type"@) && source_arg == "bin"@)
                ==> out[source_at] == source_arg
        }),
{
    let source_arg = path_with_file_name(args[source_at], tmp_file_name);
    if !(follows(args, source_at, "--crate-type"@) && source_arg == "bin"@) {
        lemma_packaging_keeps_shape(
            args,
            crate_type_at,
            out_dir_at,
            source_at,
            source_arg,
            build_target_dir,
        );
    } else {
        reveal_strlit("--crate-type");
        reveal_strlit("--out-dir");
        reveal_strlit("bin");
        assert("--crate-type"@.len() != "--out-dir"@.len());
        assert("--crate-type"@.len() != "bin"@.len());
        assert("--out-dir"@.len() != "bin"@.len());
    }
}

/// Packaging leaves every argument alone that is not the source argument
/// and, once the source argument is replaced, stands neither directly
/// behind an output directory flag nor as `bin` directly behind a crate type
/// flag.
pub proof fn lemma_packaging_keeps_other_arguments(
    args: Seq<Seq<char>>,
    source_at: int,
    source_arg: Seq<char>,
    build_dir: Seq<char>,
    i: int,
)
    requires
        0 <= source_at < args.len(),
        0 <= i < args.len(),
        i != source_at,
        !follows(args.update(source_at, source_arg), i, "--out-dir"@),
        !(follows(args.update(source_at, source_arg), i, "--crate-type"@) && args[i] == "bin"@),
    ensures
        packaged(args, source_at, source_arg, build_dir)[i] == args[i],
{
}

/// Retargeting sends the output to the build directory: where the flag for
/// the output directory has a value, its value afterwards is `build_dir`.
pub proof fn lemma_retargeting_sets_out_dir(args: Seq<Seq<char>>, build_dir: Seq<char>)
    requires
        flag_value(args, "--out-dir"@) is Some,
    ensures
        flag_value(retargeted(args, build_dir), "--out-dir"@) == Some(build_dir),
{
    let flag = "--out-dir"@;
    let out = retargeted(args, build_dir);
    lemma_flag_value_occurs(args, flag);
    let i = choose|i: int| is_first_occurrence(args, flag, i) && i + 1 < args.len();
    reveal_strlit("--out-dir");
    reveal_strlit("--crate-type");
    reveal_strlit("bin");
    reveal_strlit("cdylib");
    assert(flag.len() != "--crate-type"@.len());
    assert(flag.len() != "bin"@.len());
    assert(flag.len() != "cdylib"@.len());
    assert(out[i] == flag) by {
        if i > 0 {
            assert(args[i - 1] != flag);
        }
    }
    assert forall|j: int| 0 <= j < i implies #[trigger] out[j] != flag by {
        assert(args[j] != flag);
        if j > 0 {
            assert(args[j - 1] != flag);
        }
    }
    assert(out[i + 1] == build_dir);
    lemma_flag_value_at(out, flag, i);
}

/// Retargeting promotes the crate type: where the value of the crate type
/// flag is `bin`, its value afterwards is `cdylib`. This is stated of
/// arguments in which the first crate type flag does not stand directly
/// behind an output directory flag, and of build directories that are not
/// named like the flag.
pub proof fn lemma_retargeting_promotes_crate_type(
    args: Seq<Seq<char>>,
    build_dir: Seq<char>,
    at: int,
)
    requires
        is_first_occurrence(args, "--crate-type"@, at),
        flag_value(args, "--crate-type"@) == Some("bin"@),
        !follows(args, at, "--out-dir"@),
        build_dir != "--crate-type"@,
    ensures
        flag_value(retargeted(args, build_dir), "--crate-type"@) == Some("cdylib"@),
{
    let flag = "--crate-type"@;
    let out = retargeted(args, build_dir);
    lemma_flag_value_at(args, flag, at);
    reveal_strlit("--out-dir");
    reveal_strlit("--crate-type");
    reveal_strlit("bin");
    reveal_strlit("cdylib");
    assert(flag.len() != "--out-dir"@.len());
    assert(flag.len() != "bin"@.len());
    assert(flag.len() != "cdylib"@.len());
    assert(out[at] == flag);
    assert forall|j: int| 0 <= j < at implies #[trigger] out[j] != flag by {
        assert(args[j] != flag);
    }
    assert(out[at + 1] == "cdylib"@);
    lemma_flag_value_at(out, flag, at);
}

/// Demotion changes nothing but crate types: every argument that is not the
/// value `cdylib` of a crate type flag stays, and every such value becomes
/// `rlib`.
pub proof fn lemma_demotion_changes_crate_types_only(args: Seq<Seq<char>>, i: int)
    requires
        0 <= i < args.len(),
    ensures
        demoted(args).len() == args.len(),
        follows(args, i, "--crate-type"@) && args[i] == "cdylib"@ ==> demoted(args)[i] == "rlib"@,
        !(follows(args, i, "--crate-type"@) && args[i] == "cdylib"@) ==> demoted(args)[i]
            == args[i],
{
}

} // verus!
