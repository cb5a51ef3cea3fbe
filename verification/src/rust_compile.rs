//! The compiler invocation: the command line that builds one product of a
//! project for a foreign architecture.
use vstd::prelude::*;
use crate::command_line::{
    lemma_occurrences_absent, lemma_occurrences_concat, occurrences, CommandLine,
    CommandLineView,
};
use crate::text::{join_with, texts};
use crate::types::build_target::BuildTarget;
use crate::types::crate_type::CrateType;
use crate::types::profile::Profile;
use crate::types::target::{Target, TargetView};

verus! {

/// The arguments that select the product.
pub open spec fn selection_args(target: TargetView) -> Seq<Seq<char>> {
    match target {
        TargetView::Bin(name) => seq!["--bin"@, name],
        TargetView::Example(name) => seq!["--example"@, name],
        TargetView::Lib => seq!["--lib"@],
    }
}

/// The argument that asks for an optimised build, where the profile wants one.
pub open spec fn profile_args(profile: Profile) -> Seq<Seq<char>> {
    match profile {
        Profile::Release => seq!["--release"@],
        Profile::Debug => Seq::empty(),
    }
}

/// The arguments that name the architecture.
pub open spec fn triple_args(build_target: BuildTarget) -> Seq<Seq<char>> {
    seq!["--target"@, build_target.rust_triple_text()]
}

/// The crate types in one token, separated by commas and in the order given.
pub open spec fn crate_types_token(crate_types: Seq<CrateType>) -> Seq<char> {
    join_with(CrateType::names(crate_types), ","@)
}

/// The arguments that override the crate type: none for an empty list, else
/// the separator, the flag and one token.
pub open spec fn crate_type_args(crate_types: Seq<CrateType>) -> Seq<Seq<char>> {
    if crate_types.len() == 0 {
        Seq::empty()
    } else {
        seq!["--"@, "--crate-type"@, crate_types_token(crate_types)]
    }
}

/// The arguments of the invocation: the subcommand, the product, the
/// profile, the caller's extra arguments, the architecture, and the crate-type
/// override.
pub open spec fn rustc_args(
    target: TargetView,
    profile: Profile,
    cargo_args: Seq<Seq<char>>,
    build_target: BuildTarget,
    crate_types: Seq<CrateType>,
) -> Seq<Seq<char>> {
    seq!["rustc"@] + selection_args(target) + profile_args(profile) + cargo_args + triple_args(
        build_target,
    ) + crate_type_args(crate_types)
}

/// The arguments that switch features on and off: the flag and the name
/// for every feature in the order given, then the switch for all features,
/// then the switch against the default features.
pub open spec fn feature_args(
    features: Seq<Seq<char>>,
    all_features: bool,
    no_default_features: bool,
) -> Seq<Seq<char>> {
    Seq::new(
        2 * features.len(),
        |i: int|
            if i % 2 == 0 {
                "--features"@
            } else {
                features[i / 2]
            },
    ) + (if all_features {
        seq!["--all-features"@]
    } else {
        Seq::empty()
    }) + (if no_default_features {
        seq!["--no-default-features"@]
    } else {
        Seq::empty()
    })
}

/// Whether `token` is one of the three flags that select a product.
pub open spec fn is_selection_flag(token: Seq<char>) -> bool {
    token == "--bin"@ || token == "--example"@ || token == "--lib"@
}

/// How many arguments of `args` are flags that select a product.
pub open spec fn selection_count(args: Seq<Seq<char>>) -> nat {
    occurrences(args, "--bin"@) + occurrences(args, "--example"@) + occurrences(
        args,
        "--lib"@,
    )
}

/// The texts of a list of string slices.
pub open spec fn slice_texts(parts: Seq<&'static str>) -> Seq<Seq<char>> {
    parts.map_values(|p: &'static str| p@)
}

/// Calls `itertools::Itertools::intersperse` on the parts and collects what
/// it yields into one string. Trusted: the adaptor yields the parts in their
/// order with a copy of `sep` between each two neighbours, so the collected
/// string is the parts joined by `sep`.
#[verifier::external_body]
fn intersperse_concat(parts: &Vec<&'static str>, sep: &'static str) -> (joined: String)
    ensures
        joined@ == join_with(slice_texts(parts@), sep@),
{
    itertools::Itertools::intersperse(parts.iter().copied(), sep).collect()
}

/// Joins the names of the crate types with commas.
pub fn join_crate_types(crate_types: &[CrateType]) -> (token: String)
    ensures
        token@ == crate_types_token(crate_types@),
{
    let mut names: Vec<&'static str> = Vec::new();
    let mut i: usize = 0;
    while i < crate_types.len()
        invariant
            i <= crate_types.len(),
            names@.len() == i,
            slice_texts(names@) == CrateType::names(crate_types@.take(i as int)),
        decreases crate_types.len() - i,
    {
        let name: &'static str = crate_types[i].as_str();
        let ghost earlier = names@;
        names.push(name);
        proof {
            let before = crate_types@.take(i as int);
            let after = crate_types@.take(i + 1);
            assert(after == before.push(crate_types@[i as int]));
            assert forall|j: int| 0 <= j < names@.len() implies slice_texts(names@)[j]
                == CrateType::names(after)[j] by {
                if j < i {
                    assert(slice_texts(earlier)[j] == CrateType::names(before)[j]);
                }
            }
            assert(slice_texts(names@) =~= CrateType::names(after));
        }
        i += 1;
    }
    assert(crate_types@.take(crate_types.len() as int) == crate_types@);
    intersperse_concat(&names, ",")
}

/// Makes the extra arguments of an invocation that switch features on and
/// off.
pub fn cargo_feature_args(features: &[String], all_features: bool, no_default_features: bool) -> (args:
    Vec<String>)
    ensures
        texts(args@) == feature_args(texts(features@), all_features, no_default_features),
{
    let mut args: Vec<String> = Vec::new();
    let mut i: usize = 0;
    while i < features.len()
        invariant
            i <= features.len(),
            args@.len() == 2 * i,
            forall|j: int|
                0 <= j < 2 * i ==> #[trigger] texts(args@)[j] == (if j % 2 == 0 {
                    "--features"@
                } else {
                    texts(features@)[j / 2]
                }),
        decreases features.len() - i,
    {
        let ghost earlier = texts(args@);
        args.push("--features".to_owned());
        args.push(features[i].clone());
        proof {
            assert forall|j: int| 0 <= j < 2 * (i + 1) implies #[trigger] texts(args@)[j] == (if j
                % 2 == 0 {
                "--features"@
            } else {
                texts(features@)[j / 2]
            }) by {
                if j < 2 * i {
                    assert(texts(args@)[j] == earlier[j]);
                }
            }
        }
        i += 1;
    }
    let ghost pairs = texts(args@);
    assert(pairs =~= feature_args(texts(features@), false, false));
    if all_features {
        args.push("--all-features".to_owned());
    }
    let ghost with_all = texts(args@);
    assert(with_all =~= feature_args(texts(features@), all_features, false)) by {
        assert forall|j: int| 0 <= j < pairs.len() implies with_all[j] == pairs[j] by {}
    }
    if no_default_features {
        args.push("--no-default-features".to_owned());
    }
    assert(texts(args@) =~= feature_args(texts(features@), all_features, no_default_features))
        by {
        assert forall|j: int| 0 <= j < with_all.len() implies texts(args@)[j] == with_all[j] by {}
    }
    args
}

/// Builds the command that compiles `target` of the project at
/// `project_path` for `build_target`: `cargo rustc`, run in the project's
/// directory, with the arguments of `rustc_args`.
pub fn cargo_rustc_command(
    target: &Target,
    project_path: &str,
    profile: &Profile,
    cargo_args: &[String],
    build_target: &BuildTarget,
    crate_types: &[CrateType],
) -> (cmd: CommandLine)
    ensures
        cmd@ == (CommandLineView {
            program: "cargo"@,
            args: rustc_args(target@, *profile, texts(cargo_args@), *build_target, crate_types@),
            current_dir: Some(project_path@),
            envs: Seq::empty(),
        }),
{
    let mut cargo = CommandLine::new("cargo");
    cargo.arg("rustc");
    match target {
        Target::Bin(name) => {
            cargo.arg("--bin");
            cargo.arg(name.as_str());
        },
        Target::Example(name) => {
            cargo.arg("--example");
            cargo.arg(name.as_str());
        },
        Target::Lib => {
            cargo.arg("--lib");
        },
    }
    cargo.current_dir(project_path);
    match profile {
        Profile::Release => {
            cargo.arg("--release");
        },
        Profile::Debug => {},
    }
    let ghost head = seq!["rustc"@] + selection_args(target@) + profile_args(*profile);
    assert(cargo@.args =~= head);
    let mut i: usize = 0;
    while i < cargo_args.len()
        invariant
            i <= cargo_args.len(),
            cargo@.program == "cargo"@,
            cargo@.current_dir == Some(project_path@),
            cargo@.envs == Seq::<(Seq<char>, Seq<char>)>::empty(),
            cargo@.args == head + texts(cargo_args@).take(i as int),
        decreases cargo_args.len() - i,
    {
        cargo.arg(cargo_args[i].as_str());
        assert(cargo@.args =~= head + texts(cargo_args@).take(i + 1));
        i += 1;
    }
    assert(texts(cargo_args@).take(cargo_args.len() as int) == texts(cargo_args@));
    cargo.arg("--target");
    cargo.arg(build_target.rust_triple());
    if crate_types.len() > 0 {
        let token = join_crate_types(crate_types);
        cargo.arg("--");
        cargo.arg("--crate-type");
        cargo.arg(token.as_str());
    }
    assert(cargo@.args =~= rustc_args(
        target@,
        *profile,
        texts(cargo_args@),
        *build_target,
        crate_types@,
    ));
    cargo
}

/// The flags of the invocation are pairwise different texts, and each starts
/// with a dash; the subcommand does not.
proof fn lemma_flag_texts()
    ensures
        "--bin"@ != "--example"@,
        "--bin"@ != "--lib"@,
        "--bin"@ != "--target"@,
        "--example"@ != "--lib"@,
        "--example"@ != "--target"@,
        "--lib"@ != "--target"@,
        !is_selection_flag("rustc"@) && "rustc"@ != "--target"@,
        !is_selection_flag("--release"@) && "--release"@ != "--target"@,
        !is_selection_flag("--"@) && "--"@ != "--target"@,
        !is_selection_flag("--crate-type"@) && "--crate-type"@ != "--target"@,
        "--bin"@[0] == '-' && "--example"@[0] == '-' && "--lib"@[0] == '-' && "--target"@[0]
            == '-',
{
    reveal_strlit("--bin");
    reveal_strlit("--example");
    reveal_strlit("--lib");
    reveal_strlit("--target");
    reveal_strlit("rustc");
    reveal_strlit("--release");
    reveal_strlit("--");
    reveal_strlit("--crate-type");
    assert("--bin"@.len() == 5 && "--lib"@.len() == 5 && "rustc"@.len() == 5);
    assert("--example"@.len() == 9 && "--release"@.len() == 9);
    assert("--target"@.len() == 8 && "--"@.len() == 2 && "--crate-type"@.len() == 12);
    assert("--bin"@[2] == 'b' && "--lib"@[2] == 'l' && "rustc"@[0] == 'r');
    assert("--example"@[2] == 'e' && "--release"@[2] == 'r');
}

/// A joined text starts as its first part does.
proof fn lemma_join_starts_with_first(parts: Seq<Seq<char>>, sep: Seq<char>)
    requires
        parts.len() > 0,
        parts[0].len() > 0,
    ensures
        join_with(parts, sep).len() > 0,
        join_with(parts, sep)[0] == parts[0][0],
    decreases parts.len(),
{
    if parts.len() > 1 {
        assert(parts.drop_last()[0] == parts[0]);
        lemma_join_starts_with_first(parts.drop_last(), sep);
    }
}

/// The crate types stay in the order given: the token of a list with one
/// more crate type is the token of the list, a comma, and the name of the
/// new one; the token of a single crate type is its name.
pub proof fn lemma_crate_types_token_keeps_order(crate_types: Seq<CrateType>, next: CrateType)
    ensures
        crate_types.len() == 0 ==> crate_types_token(crate_types.push(next)) == next.name(),
        crate_types.len() > 0 ==> crate_types_token(crate_types.push(next))
            == crate_types_token(crate_types) + ","@ + next.name(),
{
    let longer = crate_types.push(next);
    assert(CrateType::names(longer).drop_last() =~= CrateType::names(crate_types));
    assert(CrateType::names(longer).last() == next.name());
}

/// A non-empty list of crate types is handed over as one argument: the
/// invocation ends with the separator, the flag and the token, and is
/// otherwise the invocation without an override.
pub proof fn lemma_crate_types_are_one_token(
    target: TargetView,
    profile: Profile,
    cargo_args: Seq<Seq<char>>,
    build_target: BuildTarget,
    crate_types: Seq<CrateType>,
)
    requires
        crate_types.len() > 0,
    ensures
        rustc_args(target, profile, cargo_args, build_target, crate_types) == rustc_args(
            target,
            profile,
            cargo_args,
            build_target,
            Seq::empty(),
        ) + seq!["--"@, "--crate-type"@, crate_types_token(crate_types)],
{
    let plain = rustc_args(target, profile, cargo_args, build_target, Seq::empty());
    let base = seq!["rustc"@] + selection_args(target) + profile_args(profile) + cargo_args
        + triple_args(build_target);
    assert(plain =~= base);
}

/// Whether `token` is one of the four flags that select the product or
/// name the architecture.
spec fn is_counted_flag(token: Seq<char>) -> bool {
    is_selection_flag(token) || token == "--target"@
}

/// The name of the product, where it has one.
pub open spec fn product_name_of(target: TargetView) -> Option<Seq<char>> {
    match target {
        TargetView::Bin(name) => Some(name),
        TargetView::Example(name) => Some(name),
        TargetView::Lib => None,
    }
}

/// One of the four flags occurs in an invocation only where the invocation
/// itself puts it, as long as neither an extra argument nor the name of the
/// product is that flag.
proof fn lemma_flag_occurs_where_it_is_put(
    target: TargetView,
    profile: Profile,
    cargo_args: Seq<Seq<char>>,
    build_target: BuildTarget,
    crate_types: Seq<CrateType>,
    t: Seq<char>,
)
    requires
        is_counted_flag(t),
        forall|i: int| 0 <= i < cargo_args.len() ==> #[trigger] cargo_args[i] != t,
        product_name_of(target) != Some(t),
    ensures
        occurrences(rustc_args(target, profile, cargo_args, build_target, crate_types), t) == (
        if selection_args(target)[0] == t {
            1nat
        } else {
            0nat
        }) + (if t == "--target"@ {
            1nat
        } else {
            0nat
        }),
{
    lemma_flag_texts();
    build_target.lemma_rust_triple_is_no_flag();
    let a = seq!["rustc"@];
    let b = selection_args(target);
    let c = profile_args(profile);
    let d = cargo_args;
    let e = triple_args(build_target);
    let f = crate_type_args(crate_types);
    let args = rustc_args(target, profile, cargo_args, build_target, crate_types);
    let tgt = "--target"@;
    assert(t[0] == '-');
    if crate_types.len() > 0 {
        let names = CrateType::names(crate_types);
        assert(names[0] == crate_types[0].name());
        crate_types[0].lemma_name_starts_with_letter();
        lemma_join_starts_with_first(names, ","@);
        assert(crate_types_token(crate_types)[0] != '-');
    }
    assert(occurrences(args, t) == occurrences(b, t) + occurrences(e, t)) by {
        lemma_occurrences_concat(a + b + c + d + e, f, t);
        lemma_occurrences_concat(a + b + c + d, e, t);
        lemma_occurrences_concat(a + b + c, d, t);
        lemma_occurrences_concat(a + b, c, t);
        lemma_occurrences_concat(a, b, t);
        lemma_occurrences_absent(a, t);
        lemma_occurrences_absent(c, t);
        lemma_occurrences_absent(d, t);
        assert forall|i: int| 0 <= i < f.len() implies f[i] != t by {
            if i == 2 {
                assert(f[i][0] != '-');
            }
        }
        lemma_occurrences_absent(f, t);
    }
    assert(occurrences(e, t) == (if t == tgt {
        1nat
    } else {
        0nat
    })) by {
        assert(e.drop_last() == seq![tgt]);
        assert(e.drop_last().drop_last() == Seq::<Seq<char>>::empty());
        reveal_with_fuel(occurrences, 3);
        assert(e.last()[0] != '-');
    }
    assert(occurrences(b, t) == (if b[0] == t {
        1nat
    } else {
        0nat
    })) by {
        reveal_with_fuel(occurrences, 3);
        match target {
            TargetView::Bin(name) => {
                assert(b.drop_last() == seq!["--bin"@]);
                assert(b.drop_last().drop_last() == Seq::<Seq<char>>::empty());
            },
            TargetView::Example(name) => {
                assert(b.drop_last() == seq!["--example"@]);
                assert(b.drop_last().drop_last() == Seq::<Seq<char>>::empty());
            },
            TargetView::Lib => {
                assert(b.drop_last() == Seq::<Seq<char>>::empty());
            },
        }
    }
}

/// Every invocation carries the flag of its product directly behind the
/// subcommand, with the product's name behind the flag, and the flag of the
/// architecture with the triple behind it, whatever the architecture and
/// whatever the extra arguments.
pub proof fn lemma_product_and_architecture_are_named(
    target: TargetView,
    profile: Profile,
    cargo_args: Seq<Seq<char>>,
    build_target: BuildTarget,
    crate_types: Seq<CrateType>,
)
    ensures
        ({
            let args = rustc_args(target, profile, cargo_args, build_target, crate_types);
            let at = (1 + selection_args(target).len() + profile_args(profile).len()
                + cargo_args.len()) as int;
            &&& args.len() >= at + 2
            &&& args[at] == "--target"@
            &&& args[at + 1] == build_target.rust_triple_text()
            &&& match target {
                TargetView::Bin(name) => args[1] == "--bin"@ && args[2] == name,
                TargetView::Example(name) => args[1] == "--example"@ && args[2] == name,
                TargetView::Lib => args[1] == "--lib"@,
            }
        }),
{
}

/// An invocation selects exactly one product: among its arguments the flags
/// `--bin`, `--example` and `--lib` occur once in all. This is stated of
/// invocations in which neither an extra argument nor the name of the product
/// is one of these three flags; what they say of the architecture does not
/// matter.
pub proof fn lemma_one_product(
    target: TargetView,
    profile: Profile,
    cargo_args: Seq<Seq<char>>,
    build_target: BuildTarget,
    crate_types: Seq<CrateType>,
)
    requires
        forall|i: int| 0 <= i < cargo_args.len() ==> !is_selection_flag(#[trigger] cargo_args[i]),
        product_name_of(target) matches Some(name) ==> !is_selection_flag(name),
    ensures
        selection_count(rustc_args(target, profile, cargo_args, build_target, crate_types)) == 1,
{
    lemma_flag_texts();
    lemma_flag_occurs_where_it_is_put(
        target,
        profile,
        cargo_args,
        build_target,
        crate_types,
        "--bin"@,
    );
    lemma_flag_occurs_where_it_is_put(
        target,
        profile,
        cargo_args,
        build_target,
        crate_types,
        "--example"@,
    );
    lemma_flag_occurs_where_it_is_put(
        target,
        profile,
        cargo_args,
        build_target,
        crate_types,
        "--lib"@,
    );
}

/// An invocation names exactly one architecture, whatever the architecture:
/// among its arguments `--target` occurs once. This is stated of invocations
/// in which neither an extra argument nor the name of the product is
/// `--target`; what they say of the product does not matter.
pub proof fn lemma_one_architecture(
    target: TargetView,
    profile: Profile,
    cargo_args: Seq<Seq<char>>,
    build_target: BuildTarget,
    crate_types: Seq<CrateType>,
)
    requires
        forall|i: int| 0 <= i < cargo_args.len() ==> #[trigger] cargo_args[i] != "--target"@,
        product_name_of(target) != Some("--target"@),
    ensures
        occurrences(
            rustc_args(target, profile, cargo_args, build_target, crate_types),
            "--target"@,
        ) == 1,
{
    lemma_flag_texts();
    lemma_flag_occurs_where_it_is_put(
        target,
        profile,
        cargo_args,
        build_target,
        crate_types,
        "--target"@,
    );
}

} // verus!
