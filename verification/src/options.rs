//! Resolution of the command line into options and positional arguments.
//!
//! The accepted grammar is a flag followed by its value in the next argument:
//! `--crate-name <name>`, `--cfg <flag>`, `--check-cfg <flag>`, `-o <path>`
//! and `--out-dir <path>`. Any other argument that starts with a dash and is
//! longer than the dash alone is an unknown flag. Everything else, the lone
//! dash included, is positional.

use vstd::prelude::*;
use vstd::string::StringExecFns;
use vstd::string::StrSliceExecFns;
use crate::error::{ScanError, ScanErrorView};
use crate::text::{opt_text, text_is, texts};

verus! {

/// The flag values of one invocation.
#[derive(Debug)]
pub struct Options {
    /// The requested name of the compilation unit: the first one given.
    pub crate_name: Option<String>,
    /// The conditional-compilation flags, in the order given.
    pub cfg: Vec<String>,
    /// The declared conditional-compilation flags, in the order given. They
    /// are carried along and never used for filtering.
    pub check_cfg: Vec<String>,
    /// The output file, if one was named.
    pub output_file: Option<String>,
    /// The output directory, if one was named.
    pub output_dir: Option<String>,
}

/// What a command line resolves to: the options and the positional arguments.
#[derive(Debug)]
pub struct Matches {
    pub options: Options,
    /// The positional arguments, in the order given.
    pub free: Vec<String>,
}

/// The mathematical value of [`Options`].
pub struct OptionsView {
    pub crate_name: Option<Seq<char>>,
    pub cfg: Seq<Seq<char>>,
    pub check_cfg: Seq<Seq<char>>,
    pub output_file: Option<Seq<char>>,
    pub output_dir: Option<Seq<char>>,
}

/// The mathematical value of [`Matches`].
pub struct MatchesView {
    pub options: OptionsView,
    pub free: Seq<Seq<char>>,
}

impl View for Options {
    type V = OptionsView;

    open spec fn view(&self) -> OptionsView {
        OptionsView {
            crate_name: opt_text(self.crate_name),
            cfg: texts(self.cfg@),
            check_cfg: texts(self.check_cfg@),
            output_file: opt_text(self.output_file),
            output_dir: opt_text(self.output_dir),
        }
    }
}

impl View for Matches {
    type V = MatchesView;

    open spec fn view(&self) -> MatchesView {
        MatchesView { options: self.options@, free: texts(self.free@) }
    }
}

/// The flags that take a value.
pub enum Flag {
    CrateName,
    Cfg,
    CheckCfg,
    OutputFile,
    OutputDir,
}

/// The flag that `arg` spells, if any.
pub open spec fn flag_of(arg: Seq<char>) -> Option<Flag> {
    if arg == "--crate-name"@ {
        Some(Flag::CrateName)
    } else if arg == "--cfg"@ {
        Some(Flag::Cfg)
    } else if arg == "--check-cfg"@ {
        Some(Flag::CheckCfg)
    } else if arg == "-o"@ {
        Some(Flag::OutputFile)
    } else if arg == "--out-dir"@ {
        Some(Flag::OutputDir)
    } else {
        None
    }
}

/// Whether `arg` has the shape of a flag: a dash and at least one more
/// character.
pub open spec fn is_dashed(arg: Seq<char>) -> bool {
    arg.len() >= 2 && arg[0] == '-'
}

/// The diagnostic for an argument that has the shape of a flag and is none.
pub open spec fn unknown_flag(arg: Seq<char>) -> ScanErrorView {
    ScanErrorView::OptionParse { message: "unrecognized option: `"@ + arg + "`"@ }
}

/// The diagnostic for a flag that ends the command line without its value.
pub open spec fn missing_value(arg: Seq<char>) -> ScanErrorView {
    ScanErrorView::OptionParse { message: "argument to option `"@ + arg + "` missing"@ }
}

/// The diagnostic for an output flag that is given a second time.
pub open spec fn repeated_flag(arg: Seq<char>) -> ScanErrorView {
    ScanErrorView::OptionParse { message: "option `"@ + arg + "` given more than once"@ }
}

impl MatchesView {
    /// Nothing given yet.
    pub open spec fn empty() -> MatchesView {
        MatchesView {
            options: OptionsView {
                crate_name: None,
                cfg: Seq::empty(),
                check_cfg: Seq::empty(),
                output_file: None,
                output_dir: None,
            },
            free: Seq::empty(),
        }
    }

    /// Whether `flag` may not be given once more.
    pub open spec fn refuses(self, flag: Flag) -> bool {
        match flag {
            Flag::OutputFile => self.options.output_file is Some,
            Flag::OutputDir => self.options.output_dir is Some,
            _ => false,
        }
    }

    /// These matches after `flag` was given with `value`. Of several names
    /// for the compilation unit the first stays.
    pub open spec fn with_flag(self, flag: Flag, value: Seq<char>) -> MatchesView {
        let o = self.options;
        match flag {
            Flag::CrateName => MatchesView {
                options: OptionsView {
                    crate_name: if o.crate_name is Some {
                        o.crate_name
                    } else {
                        Some(value)
                    },
                    ..o
                },
                ..self
            },
            Flag::Cfg => MatchesView { options: OptionsView { cfg: o.cfg.push(value), ..o }, ..self },
            Flag::CheckCfg => MatchesView {
                options: OptionsView { check_cfg: o.check_cfg.push(value), ..o },
                ..self
            },
            Flag::OutputFile => MatchesView {
                options: OptionsView { output_file: Some(value), ..o },
                ..self
            },
            Flag::OutputDir => MatchesView {
                options: OptionsView { output_dir: Some(value), ..o },
                ..self
            },
        }
    }

    /// These matches after one more positional argument.
    pub open spec fn with_free(self, arg: Seq<char>) -> MatchesView {
        MatchesView { free: self.free.push(arg), ..self }
    }
}

/// What the arguments from position `at` on resolve to, given what the
/// arguments before it gave. The first offending argument decides the error.
pub open spec fn resolved_from(args: Seq<Seq<char>>, at: int, sofar: MatchesView) -> Result<
    MatchesView,
    ScanErrorView,
>
    decreases args.len() - at,
{
    if at < 0 || at >= args.len() {
        Ok(sofar)
    } else {
        match flag_of(args[at]) {
            Some(flag) => if at + 1 >= args.len() {
                Err(missing_value(args[at]))
            } else if sofar.refuses(flag) {
                Err(repeated_flag(args[at]))
            } else {
                resolved_from(args, at + 2, sofar.with_flag(flag, args[at + 1]))
            },
            None => if is_dashed(args[at]) {
                Err(unknown_flag(args[at]))
            } else {
                resolved_from(args, at + 1, sofar.with_free(args[at]))
            },
        }
    }
}

/// What a command line resolves to.
pub open spec fn resolved(args: Seq<Seq<char>>) -> Result<MatchesView, ScanErrorView> {
    resolved_from(args, 0, MatchesView::empty())
}

/// The mathematical value of the outcome of a resolution.
pub open spec fn outcome_view(r: Result<Matches, ScanError>) -> Result<MatchesView, ScanErrorView> {
    match r {
        Ok(m) => Ok(m@),
        Err(e) => Err(e@),
    }
}

/// Tells which flag `arg` spells, if any.
pub fn recognize(arg: &String) -> (flag: Option<Flag>)
    ensures
        flag == flag_of(arg@),
{
    if text_is(arg, "--crate-name") {
        Some(Flag::CrateName)
    } else if text_is(arg, "--cfg") {
        Some(Flag::Cfg)
    } else if text_is(arg, "--check-cfg") {
        Some(Flag::CheckCfg)
    } else if text_is(arg, "-o") {
        Some(Flag::OutputFile)
    } else if text_is(arg, "--out-dir") {
        Some(Flag::OutputDir)
    } else {
        None
    }
}

/// Tells whether `arg` has the shape of a flag.
pub fn has_dash(arg: &String) -> (dashed: bool)
    ensures
        dashed == is_dashed(arg@),
{
    let s = arg.as_str();
    s.unicode_len() >= 2 && s.get_char(0) == '-'
}

/// `before`, then `arg`, then `after`.
fn framed(before: &str, arg: &String, after: &str) -> (text: String)
    ensures
        text@ == before@ + arg@ + after@,
{
    let mut text = String::from_str(before);
    text.append(arg.as_str());
    text.append(after);
    text
}

/// Resolves a command line into options and positional arguments. It fails,
/// with no partial result, at the first argument that is an unknown flag, a
/// flag without its value, or a second `-o` or `--out-dir`.
pub fn resolve_options(args: &Vec<String>) -> (r: Result<Matches, ScanError>)
    ensures
        outcome_view(r) == resolved(texts(args@)),
{
    let mut m = Matches {
        options: Options {
            crate_name: None,
            cfg: Vec::new(),
            check_cfg: Vec::new(),
            output_file: None,
            output_dir: None,
        },
        free: Vec::new(),
    };
    assert(m@.options.cfg =~= Seq::empty());
    assert(m@.options.check_cfg =~= Seq::empty());
    assert(m@.free =~= Seq::empty());
    let ghost all = texts(args@);
    let mut i: usize = 0;
    while i < args.len()
        invariant
            i <= args.len(),
            all == texts(args@),
            resolved_from(all, i as int, m@) == resolved(all),
        decreases args.len() - i,
    {
        let ghost before = m@;
        let arg = &args[i];
        assert(all[i as int] == arg@);
        match recognize(arg) {
            Some(flag) => {
                if args.len() - i < 2 {
                    return Err(
                        ScanError::OptionParse {
                            message: framed("argument to option `", arg, "` missing"),
                        },
                    );
                }
                let value = args[i + 1].clone();
                assert(all[i as int + 1] == value@);
                match flag {
                    Flag::CrateName => {
                        if m.options.crate_name.is_none() {
                            m.options.crate_name = Some(value);
                        }
                    },
                    Flag::Cfg => {
                        m.options.cfg.push(value);
                        assert(m@.options.cfg =~= before.options.cfg.push(value@));
                    },
                    Flag::CheckCfg => {
                        m.options.check_cfg.push(value);
                        assert(m@.options.check_cfg =~= before.options.check_cfg.push(value@));
                    },
                    Flag::OutputFile => {
                        if m.options.output_file.is_some() {
                            return Err(
                                ScanError::OptionParse {
                                    message: framed("option `", arg, "` given more than once"),
                                },
                            );
                        }
                        m.options.output_file = Some(value);
                    },
                    Flag::OutputDir => {
                        if m.options.output_dir.is_some() {
                            return Err(
                                ScanError::OptionParse {
                                    message: framed("option `", arg, "` given more than once"),
                                },
                            );
                        }
                        m.options.output_dir = Some(value);
                    },
                }
                assert(m@ == before.with_flag(flag, value@));
                i += 2;
            },
            None => {
                if has_dash(arg) {
                    return Err(
                        ScanError::OptionParse {
                            message: framed("unrecognized option: `", arg, "`"),
                        },
                    );
                }
                m.free.push(arg.clone());
                assert(m@.free =~= before.free.push(arg@));
                assert(m@ == before.with_free(arg@));
                i += 1;
            },
        }
    }
    Ok(m)
}

} // verus!
