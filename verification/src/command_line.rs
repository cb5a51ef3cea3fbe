//! A command line as data: the program, its ordered arguments, the directory
//! it runs in and the environment variables laid over the caller's.
use vstd::prelude::*;
use crate::text::{copy_strings, opt_text, texts};

verus! {

/// A command that can be handed to the operating system.
#[derive(Debug, PartialEq, Eq)]
pub struct CommandLine {
    /// The program to run.
    pub program: String,
    /// The arguments, in order.
    pub args: Vec<String>,
    /// The working directory, where one is set.
    pub current_dir: Option<String>,
    /// Environment variables set for the command, in the order they were set.
    pub envs: Vec<(String, String)>,
}

/// A `CommandLine` as plain data.
pub struct CommandLineView {
    pub program: Seq<char>,
    pub args: Seq<Seq<char>>,
    pub current_dir: Option<Seq<char>>,
    pub envs: Seq<(Seq<char>, Seq<char>)>,
}

/// The names and values of a list of environment settings.
pub open spec fn env_texts(envs: Seq<(String, String)>) -> Seq<(Seq<char>, Seq<char>)> {
    envs.map_values(|e: (String, String)| (e.0@, e.1@))
}

/// How often `token` occurs among `args`.
pub open spec fn occurrences(args: Seq<Seq<char>>, token: Seq<char>) -> nat
    decreases args.len(),
{
    if args.len() == 0 {
        0
    } else {
        occurrences(args.drop_last(), token) + (if args.last() == token {
            1nat
        } else {
            0nat
        })
    }
}

/// The occurrences in a concatenation are those of its two parts.
pub proof fn lemma_occurrences_concat(a: Seq<Seq<char>>, b: Seq<Seq<char>>, token: Seq<char>)
    ensures
        occurrences(a + b, token) == occurrences(a, token) + occurrences(b, token),
    decreases b.len(),
{
    if b.len() == 0 {
        assert(a + b == a);
    } else {
        assert((a + b).drop_last() == a + b.drop_last());
        assert((a + b).last() == b.last());
        lemma_occurrences_concat(a, b.drop_last(), token);
    }
}

/// A token that none of the arguments equals does not occur.
pub proof fn lemma_occurrences_absent(args: Seq<Seq<char>>, token: Seq<char>)
    requires
        forall|i: int| 0 <= i < args.len() ==> args[i] != token,
    ensures
        occurrences(args, token) == 0,
    decreases args.len(),
{
    if args.len() > 0 {
        assert(args.last() == args[args.len() - 1]);
        assert forall|i: int| 0 <= i < args.drop_last().len() implies args.drop_last()[i]
            != token by {
            assert(args.drop_last()[i] == args[i]);
        }
        lemma_occurrences_absent(args.drop_last(), token);
    }
}

/// The value of the flag `flag` among `args`: the argument directly behind
/// the first occurrence of the flag, if the flag occurs and is not the last
/// argument.
pub open spec fn flag_value(args: Seq<Seq<char>>, flag: Seq<char>) -> Option<Seq<char>>
    decreases args.len(),
{
    if args.len() < 2 {
        None
    } else if args[0] == flag {
        Some(args[1])
    } else {
        flag_value(args.drop_first(), flag)
    }
}

/// Whether `i` is the position of the first occurrence of `flag`.
pub open spec fn is_first_occurrence(args: Seq<Seq<char>>, flag: Seq<char>, i: int) -> bool {
    &&& 0 <= i < args.len()
    &&& args[i] == flag
    &&& forall|j: int| 0 <= j < i ==> #[trigger] args[j] != flag
}

/// The value of a flag stands behind its first occurrence.
pub proof fn lemma_flag_value_at(args: Seq<Seq<char>>, flag: Seq<char>, i: int)
    requires
        is_first_occurrence(args, flag, i),
    ensures
        flag_value(args, flag) == (if i + 1 < args.len() {
            Some(args[i + 1])
        } else {
            None
        }),
    decreases i,
{
    if i > 0 {
        let rest = args.drop_first();
        assert(args[0] != flag);
        assert forall|j: int| 0 <= j < i - 1 implies #[trigger] rest[j] != flag by {
            assert(rest[j] == args[j + 1]);
        }
        assert(rest[i - 1] == args[i]);
        lemma_flag_value_at(rest, flag, i - 1);
        if i + 1 < args.len() {
            assert(rest[i] == args[i + 1]);
        }
    }
}

/// A flag that does not occur has no value, and a flag with a value occurs
/// before the last argument.
pub proof fn lemma_flag_value_occurs(args: Seq<Seq<char>>, flag: Seq<char>)
    ensures
        flag_value(args, flag) is Some ==> exists|i: int|
            is_first_occurrence(args, flag, i) && i + 1 < args.len(),
    decreases args.len(),
{
    if args.len() >= 2 {
        if args[0] == flag {
            assert(is_first_occurrence(args, flag, 0));
        } else {
            let rest = args.drop_first();
            lemma_flag_value_occurs(rest, flag);
            if flag_value(rest, flag) is Some {
                let i = choose|i: int| is_first_occurrence(rest, flag, i) && i + 1 < rest.len();
                assert forall|j: int| 0 <= j < i + 1 implies #[trigger] args[j] != flag by {
                    if j > 0 {
                        assert(rest[j - 1] == args[j]);
                    }
                }
                assert(args[i + 1] == rest[i]);
                assert(is_first_occurrence(args, flag, i + 1));
            }
        }
    }
}

impl View for CommandLine {
    type V = CommandLineView;

    open spec fn view(&self) -> CommandLineView {
        CommandLineView {
            program: self.program@,
            args: texts(self.args@),
            current_dir: opt_text(self.current_dir),
            envs: env_texts(self.envs@),
        }
    }
}

impl Clone for CommandLine {
    fn clone(&self) -> (copy: Self)
        ensures
            copy@ == self@,
    {
        let mut envs: Vec<(String, String)> = Vec::new();
        let mut i: usize = 0;
        while i < self.envs.len()
            invariant
                i <= self.envs.len(),
                envs@ == self.envs@.take(i as int),
            decreases self.envs.len() - i,
        {
            let name = self.envs[i].0.clone();
            let value = self.envs[i].1.clone();
            envs.push((name, value));
            assert(envs@ =~= self.envs@.take(i + 1));
            i += 1;
        }
        assert(self.envs@.take(self.envs.len() as int) == self.envs@);
        let current_dir = match &self.current_dir {
            Some(dir) => Some(dir.clone()),
            None => None,
        };
        CommandLine {
            program: self.program.clone(),
            args: copy_strings(self.args.as_slice()),
            current_dir,
            envs,
        }
    }
}

impl CommandLine {
    /// A command that runs `program` without arguments, in the caller's
    /// directory and environment.
    pub fn new(program: &str) -> (cmd: CommandLine)
        ensures
            cmd@ == (CommandLineView {
                program: program@,
                args: Seq::empty(),
                current_dir: None,
                envs: Seq::empty(),
            }),
    {
        let cmd = CommandLine {
            program: program.to_owned(),
            args: Vec::new(),
            current_dir: None,
            envs: Vec::new(),
        };
        assert(cmd@.args =~= Seq::empty());
        assert(cmd@.envs =~= Seq::empty());
        cmd
    }

    /// Appends one argument.
    pub fn arg(&mut self, arg: &str)
        ensures
            final(self)@ == (CommandLineView { args: old(self)@.args.push(arg@), ..old(self)@ }),
    {
        self.args.push(arg.to_owned());
        assert(self@.args =~= old(self)@.args.push(arg@));
    }

    /// The same command with its arguments replaced by `args`.
    pub fn with_args(&self, args: Vec<String>) -> (cmd: CommandLine)
        ensures
            cmd@ == (CommandLineView { args: texts(args@), ..self@ }),
    {
        let mut cmd = self.clone();
        cmd.args = args;
        cmd
    }

    /// The value of the flag `flag`: the argument directly behind the first
    /// occurrence of the flag. There is none where the flag does not occur
    /// or is the last argument.
    pub fn value_of(&self, flag: &str) -> (value: Option<String>)
        ensures
            opt_text(value) == flag_value(self@.args, flag@),
    {
        let ghost args = self@.args;
        let n: usize = self.args.len();
        let mut i: usize = 0;
        assert(args.subrange(0, args.len() as int) == args);
        while i < n && i + 1 < n
            invariant
                n == self.args.len(),
                i <= n,
                args == texts(self.args@),
                flag_value(args, flag@) == flag_value(
                    args.subrange(i as int, args.len() as int),
                    flag@,
                ),
            decreases n - i,
        {
            let ghost rest = args.subrange(i as int, args.len() as int);
            assert(rest[0] == args[i as int]);
            assert(rest[1] == args[i + 1]);
            assert(rest.drop_first() == args.subrange(i + 1, args.len() as int));
            if self.args[i] == flag.to_owned() {
                return Some(self.args[i + 1].clone());
            }
            i += 1;
        }
        None
    }

    /// Sets the working directory.
    pub fn current_dir(&mut self, dir: &str)
        ensures
            final(self)@ == (CommandLineView { current_dir: Some(dir@), ..old(self)@ }),
    {
        self.current_dir = Some(dir.to_owned());
    }

    /// Sets an environment variable for the command. A later setting of the
    /// same name is laid over an earlier one by whoever runs the command.
    pub fn env(&mut self, name: &str, value: &str)
        ensures
            final(self)@ == (CommandLineView {
                envs: old(self)@.envs.push((name@, value@)),
                ..old(self)@
            }),
    {
        self.envs.push((name.to_owned(), value.to_owned()));
        assert(self@.envs =~= old(self)@.envs.push((name@, value@)));
    }
}

} // verus!
