//! The resource compiler's `compile` subcommand.
//!
//! The resource compiler turns one resource file into one intermediate
//! binary file. It can also scan a whole directory or archive, at the price
//! of recompiling every file in it whenever one of them changes.
use vstd::prelude::*;
use crate::command_line::{CommandLine, CommandLineView};
use crate::text::{copy_opt, copy_strings, opt_text, texts};

verus! {

/// The visibility that compiled resources are given.
#[derive(Debug, Clone, Copy, PartialEq, Eq, Structural)]
pub enum Visibility {
    Public,
    Private,
    Default,
}

impl Visibility {
    /// The level as the resource compiler spells it.
    pub open spec fn name(self) -> Seq<char> {
        match self {
            Visibility::Public => "public"@,
            Visibility::Private => "private"@,
            Visibility::Default => "default"@,
        }
    }

    /// The level as the resource compiler spells it.
    pub fn as_str(&self) -> (s: &'static str)
        ensures
            s@ == self.name(),
    {
        match self {
            Visibility::Public => "public",
            Visibility::Private => "private",
            Visibility::Default => "default",
        }
    }

    /// The level as the resource compiler spells it, as an owned string.
    pub fn to_string(&self) -> (s: String)
        ensures
            s@ == self.name(),
    {
        self.as_str().to_owned()
    }
}

/// One invocation of the resource compiler's `compile` subcommand.
pub struct Aapt2Compile {
    inputs: Vec<String>,
    /// Specifies the output path for the compiled resources. The resource
    /// compiler requires it.
    o: String,
    /// Specifies the directory to scan for resources.
    dir: Option<String>,
    /// Zip file containing the res directory to scan for resources.
    zip: Option<String>,
    /// Generates a text file containing the resource symbols in the
    /// specified file.
    output_text_symbols: Option<String>,
    /// Generates pseudo-localized versions of default strings.
    pseudo_localize: bool,
    /// Disables PNG processing.
    no_crunch: bool,
    /// Treats errors that are permissible when using earlier versions of the
    /// resource compiler as warnings.
    legacy: bool,
    /// Applies the same visibility rules to styleables as to all other
    /// resources.
    preserve_visibility_of_styleables: bool,
    /// Sets the visibility of the compiled resources to the specified level.
    visibility: Option<Visibility>,
    /// Enables verbose logging.
    v: bool,
    /// Generates a systrace json trace fragment to the specified folder.
    trace_folder: Option<String>,
    /// Displays the help menu.
    h: bool,
}

/// An `Aapt2Compile` as plain data.
pub struct Aapt2CompileView {
    pub inputs: Seq<Seq<char>>,
    pub o: Seq<char>,
    pub dir: Option<Seq<char>>,
    pub zip: Option<Seq<char>>,
    pub output_text_symbols: Option<Seq<char>>,
    pub pseudo_localize: bool,
    pub no_crunch: bool,
    pub legacy: bool,
    pub preserve_visibility_of_styleables: bool,
    pub visibility: Option<Visibility>,
    pub v: bool,
    pub trace_folder: Option<Seq<char>>,
    pub h: bool,
}

/// A flag with its value, where the value is set.
pub open spec fn valued_flag(flag: Seq<char>, value: Option<Seq<char>>) -> Seq<Seq<char>> {
    match value {
        Some(v) => seq![flag, v],
        None => Seq::empty(),
    }
}

/// A flag, where it is switched on.
pub open spec fn switch_flag(flag: Seq<char>, on: bool) -> Seq<Seq<char>> {
    if on {
        seq![flag]
    } else {
        Seq::empty()
    }
}

/// The visibility level as text, where one is set.
pub open spec fn visibility_text(visibility: Option<Visibility>) -> Option<Seq<char>> {
    match visibility {
        Some(v) => Some(v.name()),
        None => None,
    }
}

impl Aapt2CompileView {
    /// The arguments of the invocation: the subcommand, the inputs, the
    /// output directory, then every option that is set, in a fixed order.
    pub open spec fn args(self) -> Seq<Seq<char>> {
        seq!["compile"@] + self.inputs + seq!["-o"@, self.o] + valued_flag("--dir"@, self.dir)
            + valued_flag("--visibility"@, visibility_text(self.visibility)) + valued_flag(
            "--zip"@,
            self.zip,
        ) + valued_flag("--output-text-symbols"@, self.output_text_symbols) + switch_flag(
            "--pseudo-localize"@,
            self.pseudo_localize,
        ) + switch_flag("--no-crunch"@, self.no_crunch) + switch_flag("--legacy"@, self.legacy)
            + switch_flag(
            "--preserve-visibility-of-styleables"@,
            self.preserve_visibility_of_styleables,
        ) + valued_flag("--trace-folder"@, self.trace_folder) + switch_flag("-v"@, self.v)
            + switch_flag("-h"@, self.h)
    }
}

impl View for Aapt2Compile {
    type V = Aapt2CompileView;

    closed spec fn view(&self) -> Aapt2CompileView {
        Aapt2CompileView {
            inputs: texts(self.inputs@),
            o: self.o@,
            dir: opt_text(self.dir),
            zip: opt_text(self.zip),
            output_text_symbols: opt_text(self.output_text_symbols),
            pseudo_localize: self.pseudo_localize,
            no_crunch: self.no_crunch,
            legacy: self.legacy,
            preserve_visibility_of_styleables: self.preserve_visibility_of_styleables,
            visibility: self.visibility,
            v: self.v,
            trace_folder: opt_text(self.trace_folder),
            h: self.h,
        }
    }
}

impl Clone for Aapt2Compile {
    fn clone(&self) -> (copy: Self)
        ensures
            copy@ == self@,
    {
        Aapt2Compile {
            inputs: copy_strings(self.inputs.as_slice()),
            o: self.o.clone(),
            dir: copy_opt(&self.dir),
            zip: copy_opt(&self.zip),
            output_text_symbols: copy_opt(&self.output_text_symbols),
            pseudo_localize: self.pseudo_localize,
            no_crunch: self.no_crunch,
            legacy: self.legacy,
            preserve_visibility_of_styleables: self.preserve_visibility_of_styleables,
            visibility: self.visibility,
            v: self.v,
            trace_folder: copy_opt(&self.trace_folder),
            h: self.h,
        }
    }
}

/// Appends a flag and its value to `cmd`, where the value is set.
fn push_valued(cmd: &mut CommandLine, flag: &str, value: &Option<String>)
    ensures
        final(cmd)@ == (CommandLineView {
            args: old(cmd)@.args + valued_flag(flag@, opt_text(*value)),
            ..old(cmd)@
        }),
{
    match value {
        Some(v) => {
            cmd.arg(flag);
            cmd.arg(v.as_str());
            assert(cmd@.args =~= old(cmd)@.args + valued_flag(flag@, opt_text(*value)));
        },
        None => {
            assert(cmd@.args =~= old(cmd)@.args + valued_flag(flag@, opt_text(*value)));
        },
    }
}

/// Appends a flag to `cmd`, where it is switched on.
fn push_switch(cmd: &mut CommandLine, flag: &str, on: bool)
    ensures
        final(cmd)@ == (CommandLineView {
            args: old(cmd)@.args + switch_flag(flag@, on),
            ..old(cmd)@
        }),
{
    if on {
        cmd.arg(flag);
    }
    assert(cmd@.args =~= old(cmd)@.args + switch_flag(flag@, on));
}

impl Aapt2Compile {
    /// An invocation that compiles `inputs` into the directory `o`, with no
    /// option set.
    pub fn new(inputs: &[String], o: &str) -> (compile: Self)
        ensures
            compile@ == (Aapt2CompileView {
                inputs: texts(inputs@),
                o: o@,
                dir: None,
                zip: None,
                output_text_symbols: None,
                pseudo_localize: false,
                no_crunch: false,
                legacy: false,
                preserve_visibility_of_styleables: false,
                visibility: None,
                v: false,
                trace_folder: None,
                h: false,
            }),
    {
        let owned = copy_strings(inputs);
        Self {
            inputs: owned,
            o: o.to_owned(),
            dir: None,
            zip: None,
            output_text_symbols: None,
            pseudo_localize: false,
            no_crunch: false,
            legacy: false,
            preserve_visibility_of_styleables: false,
            visibility: None,
            v: false,
            trace_folder: None,
            h: false,
        }
    }

    /// Specifies the directory to scan for resources.
    pub fn dir(&mut self, dir: &str) -> (ret: &mut Self)
        ensures
            ret@ == (Aapt2CompileView { dir: Some(dir@), ..old(self)@ }),
            *final(self) == *final(ret),
    {
        self.dir = Some(dir.to_owned());
        self
    }

    /// Specifies the archive whose res directory is scanned for resources.
    pub fn zip(&mut self, zip: &str) -> (ret: &mut Self)
        ensures
            ret@ == (Aapt2CompileView { zip: Some(zip@), ..old(self)@ }),
            *final(self) == *final(ret),
    {
        self.zip = Some(zip.to_owned());
        self
    }

    /// Asks for a text file that lists the resource symbols.
    pub fn output_text_symbols(&mut self, output_text_symbols: String) -> (ret: &mut Self)
        ensures
            ret@ == (Aapt2CompileView {
                output_text_symbols: Some(output_text_symbols@),
                ..old(self)@
            }),
            *final(self) == *final(ret),
    {
        self.output_text_symbols = Some(output_text_symbols);
        self
    }

    /// Asks for pseudo-localized versions of the default strings.
    pub fn pseudo_localize(&mut self) -> (ret: &mut Self)
        ensures
            ret@ == (Aapt2CompileView { pseudo_localize: true, ..old(self)@ }),
            *final(self) == *final(ret),
    {
        self.pseudo_localize = true;
        self
    }

    /// Disables PNG processing.
    pub fn no_crunch(&mut self) -> (ret: &mut Self)
        ensures
            ret@ == (Aapt2CompileView { no_crunch: true, ..old(self)@ }),
            *final(self) == *final(ret),
    {
        self.no_crunch = true;
        self
    }

    /// Downgrades the errors that earlier versions permitted to warnings.
    pub fn legacy(&mut self) -> (ret: &mut Self)
        ensures
            ret@ == (Aapt2CompileView { legacy: true, ..old(self)@ }),
            *final(self) == *final(ret),
    {
        self.legacy = true;
        self
    }

    /// Sets whether styleables follow the visibility rules of all other
    /// resources.
    pub fn preserve_visibility_of_styleables(
        &mut self,
        preserve_visibility_of_styleables: bool,
    ) -> (ret: &mut Self)
        ensures
            ret@ == (Aapt2CompileView {
                preserve_visibility_of_styleables: preserve_visibility_of_styleables,
                ..old(self)@
            }),
            *final(self) == *final(ret),
    {
        self.preserve_visibility_of_styleables = preserve_visibility_of_styleables;
        self
    }

    /// Sets whether logging is verbose.
    pub fn v(&mut self, v: bool) -> (ret: &mut Self)
        ensures
            ret@ == (Aapt2CompileView { v: v, ..old(self)@ }),
            *final(self) == *final(ret),
    {
        self.v = v;
        self
    }

    /// Asks for a systrace fragment in the given folder.
    pub fn trace_folder(&mut self, trace_folder: &str) -> (ret: &mut Self)
        ensures
            ret@ == (Aapt2CompileView { trace_folder: Some(trace_folder@), ..old(self)@ }),
            *final(self) == *final(ret),
    {
        self.trace_folder = Some(trace_folder.to_owned());
        self
    }

    /// Sets whether the help menu is displayed.
    pub fn h(&mut self, h: bool) -> (ret: &mut Self)
        ensures
            ret@ == (Aapt2CompileView { h: h, ..old(self)@ }),
            *final(self) == *final(ret),
    {
        self.h = h;
        self
    }

    /// Sets the visibility of the compiled resources.
    pub fn visibility(&mut self, visibility: Visibility) -> (ret: &mut Self)
        ensures
            ret@ == (Aapt2CompileView { visibility: Some(visibility), ..old(self)@ }),
            *final(self) == *final(ret),
    {
        self.visibility = Some(visibility);
        self
    }

    /// Makes the command that runs the resource compiler as configured: the
    /// program `aapt2` with the arguments of `Aapt2CompileView::args`, in the
    /// caller's directory and environment. Running it is the caller's part.
    pub fn run(&self) -> (cmd: CommandLine)
        ensures
            cmd@ == (CommandLineView {
                program: "aapt2"@,
                args: self@.args(),
                current_dir: None,
                envs: Seq::empty(),
            }),
    {
        let mut aapt2 = CommandLine::new("aapt2");
        aapt2.arg("compile");
        let ghost head = seq!["compile"@];
        assert(aapt2@.args =~= head);
        let mut i: usize = 0;
        while i < self.inputs.len()
            invariant
                i <= self.inputs.len(),
                aapt2@.program == "aapt2"@,
                aapt2@.current_dir == None::<Seq<char>>,
                aapt2@.envs == Seq::<(Seq<char>, Seq<char>)>::empty(),
                aapt2@.args == head + self@.inputs.take(i as int),
            decreases self.inputs.len() - i,
        {
            aapt2.arg(self.inputs[i].as_str());
            assert(aapt2@.args =~= head + self@.inputs.take(i + 1));
            i += 1;
        }
        assert(self@.inputs.take(self.inputs.len() as int) == self@.inputs);
        aapt2.arg("-o");
        aapt2.arg(self.o.as_str());
        assert(aapt2@.args =~= head + self@.inputs + seq!["-o"@, self@.o]);
        push_valued(&mut aapt2, "--dir", &self.dir);
        let visibility = match &self.visibility {
            Some(v) => Some(v.to_string()),
            None => None,
        };
        push_valued(&mut aapt2, "--visibility", &visibility);
        push_valued(&mut aapt2, "--zip", &self.zip);
        push_valued(&mut aapt2, "--output-text-symbols", &self.output_text_symbols);
        push_switch(&mut aapt2, "--pseudo-localize", self.pseudo_localize);
        push_switch(&mut aapt2, "--no-crunch", self.no_crunch);
        push_switch(&mut aapt2, "--legacy", self.legacy);
        push_switch(
            &mut aapt2,
            "--preserve-visibility-of-styleables",
            self.preserve_visibility_of_styleables,
        );
        push_valued(&mut aapt2, "--trace-folder", &self.trace_folder);
        push_switch(&mut aapt2, "-v", self.v);
        push_switch(&mut aapt2, "-h", self.h);
        aapt2
    }
}

} // verus!
