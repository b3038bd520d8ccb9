//! The staged driver: which stage a scan is in, what the host front end is
//! asked for next, and what each of its answers leads to.
//!
//! A scan goes from `Configured` over `ArgsValidated`, `InputBound` and
//! `SyntaxParsed` to `Done`. It may end early in `StoppedByHook`, which is
//! no failure, or in `Failed`. The driver itself never lexes or parses: the
//! caller does what [`Driver::action`] names and hands the outcome back to
//! [`Driver::step`].

use vstd::prelude::*;
use crate::attrs::{configured, declared_features, features, pre_configure_attrs, Attribute};
use crate::error::{ScanError, ScanErrorView};
use crate::input::{
    input_for, make_input, make_output, opt_out_view, out_file_for, reads_stdin, wants_stdin, Input,
    InputView, OutFileName, OutFileNameView, StdinRead,
};
use crate::text::opt_text;
use crate::options::{
    resolve_options, resolved, Matches, MatchesView, Options, OptionsView,
};
use crate::ruf_info::{CheckInfo, CheckInfoView, UsedRufs};
use crate::text::texts;
use vstd::string::StringExecFns;

verus! {

/// What one scan runs under: the options, the input, and where output would
/// go. It is made for one scan and handed on, never shared.
#[derive(Debug)]
pub struct Session {
    pub options: Options,
    pub input: Input,
    pub output_dir: Option<String>,
    pub output_file: Option<OutFileName>,
}

/// The mathematical value of a [`Session`].
pub struct SessionView {
    pub options: OptionsView,
    pub input: InputView,
    pub output_dir: Option<Seq<char>>,
    pub output_file: Option<OutFileNameView>,
}

impl View for Session {
    type V = SessionView;

    open spec fn view(&self) -> SessionView {
        SessionView {
            options: self.options@,
            input: self.input@,
            output_dir: opt_text(self.output_dir),
            output_file: opt_out_view(self.output_file),
        }
    }
}

/// The session for `input` under `options`: its output directory is the one
/// the options name, its output target the one their output file names.
pub open spec fn session_of(options: OptionsView, input: InputView) -> SessionView {
    SessionView {
        options,
        input,
        output_dir: options.output_dir,
        output_file: out_file_for(options.output_file),
    }
}

/// The stage of a scan, with what the stage holds.
#[derive(Debug)]
pub enum Driver {
    /// The command line is resolved; the input is not looked at yet.
    Configured { matches: Matches },
    /// Options and positional arguments are valid; there may be no input.
    ArgsValidated { options: Options, candidate: Option<Input> },
    /// There is an input, and the host front end is to parse it.
    InputBound { session: Session },
    /// The host front end gave the root attributes.
    SyntaxParsed { options: Options, attrs: Vec<Attribute> },
    /// The scan ended with a report.
    Done { report: CheckInfo },
    /// The scan was ended on purpose, without a report.
    StoppedByHook,
    /// The scan failed.
    Failed { error: ScanError },
}

/// What happened outside the driver.
#[derive(Debug)]
pub enum Event {
    /// The host accepted the options. `stdin` holds what was read from
    /// standard input, where the driver asked for it.
    Validated { stdin: StdinRead },
    /// The host found the options at fault; the message says why.
    Rejected { message: String },
    /// The caller wants the input bound; `config_only` says that it needed
    /// no more than valid options.
    Bind { config_only: bool },
    /// The host front end parsed the input into these root attributes.
    Parsed { attrs: Vec<Attribute> },
    /// The host front end rejected the input with this message.
    ParseFailed { message: String },
    /// The hook that runs after parsing returned; `stop` ends the scan.
    HookReturned { stop: bool },
}

/// What the caller is to do next.
#[derive(Debug, PartialEq, Eq, Structural, Clone, Copy)]
pub enum Action {
    /// Have the host validate the options, then send `Validated` or
    /// `Rejected`.
    Validate,
    /// Read standard input to its end and have the host validate the
    /// options, then send `Validated` or `Rejected`.
    ReadStdin,
    /// Send `Bind`.
    BindInput,
    /// Have the host front end parse the input, then send `Parsed` or
    /// `ParseFailed`.
    Parse,
    /// Run the hook, then send `HookReturned`.
    RunHook,
    /// Nothing: the scan has ended.
    Finish,
}

/// The mathematical value of a [`Driver`].
pub enum DriverView {
    Configured { matches: MatchesView },
    ArgsValidated { options: OptionsView, candidate: Option<InputView> },
    InputBound { session: SessionView },
    SyntaxParsed { options: OptionsView, attrs: Seq<Attribute> },
    Done { report: CheckInfoView },
    StoppedByHook,
    Failed { error: ScanErrorView },
}

impl View for Driver {
    type V = DriverView;

    open spec fn view(&self) -> DriverView {
        match *self {
            Driver::Configured { matches } => DriverView::Configured { matches: matches@ },
            Driver::ArgsValidated { options, candidate } => DriverView::ArgsValidated {
                options: options@,
                candidate: match candidate {
                    Some(i) => Some(i@),
                    None => None,
                },
            },
            Driver::InputBound { session } => DriverView::InputBound { session: session@ },
            Driver::SyntaxParsed { options, attrs } => DriverView::SyntaxParsed {
                options: options@,
                attrs: attrs@,
            },
            Driver::Done { report } => DriverView::Done { report: report@ },
            Driver::StoppedByHook => DriverView::StoppedByHook,
            Driver::Failed { error } => DriverView::Failed { error: error@ },
        }
    }
}

/// The name that a report carries where none was asked for.
pub open spec fn unknown_name() -> Seq<char> {
    "unknown"@
}

/// The report of a scan: the requested name of the unit, or the fixed name
/// where none was requested; the features; and the flags as given.
pub open spec fn report_of(options: OptionsView, found: Seq<Seq<char>>) -> CheckInfoView {
    CheckInfoView {
        crate_name: match options.crate_name {
            Some(name) => name,
            None => unknown_name(),
        },
        used_rufs: found,
        cfg: options.cfg,
    }
}

/// The report for root attributes `attrs` under `options`: the features that
/// the attributes in force under the flags declare.
pub open spec fn scan_report(options: OptionsView, attrs: Seq<Attribute>) -> CheckInfoView {
    report_of(options, declared_features(configured(attrs, options.cfg)))
}

impl DriverView {
    /// The stage a scan starts in, for a command line.
    pub open spec fn start(args: Seq<Seq<char>>) -> DriverView {
        match resolved(args) {
            Ok(matches) => DriverView::Configured { matches },
            Err(error) => DriverView::Failed { error },
        }
    }

    /// Whether the scan has ended.
    pub open spec fn ended(self) -> bool {
        self is Done || self is StoppedByHook || self is Failed
    }

    /// What the caller is to do in this stage.
    pub open spec fn action(self) -> Action {
        match self {
            DriverView::Configured { matches } => if wants_stdin(matches.free) {
                Action::ReadStdin
            } else {
                Action::Validate
            },
            DriverView::ArgsValidated { .. } => Action::BindInput,
            DriverView::InputBound { .. } => Action::Parse,
            DriverView::SyntaxParsed { .. } => Action::RunHook,
            _ => Action::Finish,
        }
    }

    /// Whether `event` is the answer that this stage waits for.
    pub open spec fn awaits(self, event: Event) -> bool {
        match (self, event) {
            (DriverView::Configured { .. }, Event::Validated { .. }) => true,
            (DriverView::Configured { .. }, Event::Rejected { .. }) => true,
            (DriverView::ArgsValidated { .. }, Event::Bind { .. }) => true,
            (DriverView::InputBound { .. }, Event::Parsed { .. }) => true,
            (DriverView::InputBound { .. }, Event::ParseFailed { .. }) => true,
            (DriverView::SyntaxParsed { .. }, Event::HookReturned { .. }) => true,
            _ => false,
        }
    }

    /// Whether `event` may be sent in this stage. What was read from standard
    /// input, where the scan reads it, has its two overrides both set or both
    /// unset; nothing else is asked.
    pub open spec fn admits(self, event: Event) -> bool {
        match (self, event) {
            (DriverView::Configured { matches }, Event::Validated { stdin }) => wants_stdin(
                matches.free,
            ) ==> stdin.paired(),
            _ => true,
        }
    }

    /// The stage that `event` leads to. An event that the stage does not wait
    /// for changes nothing.
    pub open spec fn next(self, event: Event) -> DriverView {
        match (self, event) {
            (DriverView::Configured { matches }, Event::Validated { stdin }) => match input_for(
                matches.free,
                stdin,
            ) {
                Ok(candidate) => DriverView::ArgsValidated { options: matches.options, candidate },
                Err(error) => DriverView::Failed { error },
            },
            (DriverView::Configured { .. }, Event::Rejected { message }) => DriverView::Failed {
                error: ScanErrorView::OptionParse { message: message@ },
            },
            (DriverView::ArgsValidated { options, candidate }, Event::Bind { config_only }) => match candidate {
                Some(input) => DriverView::InputBound { session: session_of(options, input) },
                None => if config_only {
                    DriverView::StoppedByHook
                } else {
                    DriverView::Failed { error: ScanErrorView::NoInput }
                },
            },
            (DriverView::InputBound { session }, Event::Parsed { attrs }) => DriverView::SyntaxParsed {
                options: session.options,
                attrs: attrs@,
            },
            (DriverView::InputBound { .. }, Event::ParseFailed { message }) => DriverView::Failed {
                error: ScanErrorView::HostParse { message: message@ },
            },
            (DriverView::SyntaxParsed { options, attrs }, Event::HookReturned { stop }) => if stop {
                DriverView::StoppedByHook
            } else {
                DriverView::Done { report: scan_report(options, attrs) }
            },
            _ => self,
        }
    }
}

/// Assembles the session for one scan from the options and the input.
pub fn configure_session(options: Options, input: Input) -> (session: Session)
    ensures
        session@ == session_of(options@, input@),
{
    let (output_dir, output_file) = make_output(&options);
    Session { options, input, output_dir, output_file }
}

/// Assembles the report from the options and the declared features.
pub fn build_report(options: Options, found: Vec<String>) -> (report: CheckInfo)
    ensures
        report@ == report_of(options@, texts(found@)),
{
    let Options { crate_name, cfg, .. } = options;
    let name = match crate_name {
        Some(name) => name,
        None => String::from_str("unknown"),
    };
    CheckInfo { crate_name: name, used_rufs: UsedRufs::new(found), cfg }
}

/// Filters the root attributes by the flags of `options`, collects the
/// features that the attributes in force declare, and assembles the report.
pub fn report_for(options: Options, attrs: Vec<Attribute>) -> (report: CheckInfo)
    ensures
        report@ == scan_report(options@, attrs@),
{
    let kept = pre_configure_attrs(attrs, &options.cfg);
    let found = features(&kept);
    build_report(options, found)
}

impl Driver {
    /// Starts a scan: resolves the command line. An argument that cannot be
    /// resolved fails the scan before anything else is done.
    pub fn start(args: &Vec<String>) -> (driver: Driver)
        ensures
            driver@ == DriverView::start(texts(args@)),
    {
        match resolve_options(args) {
            Ok(matches) => Driver::Configured { matches },
            Err(error) => Driver::Failed { error },
        }
    }

    /// What the caller is to do next.
    pub fn action(&self) -> (action: Action)
        ensures
            action == self@.action(),
    {
        match self {
            Driver::Configured { matches } => if reads_stdin(&matches.free) {
                Action::ReadStdin
            } else {
                Action::Validate
            },
            Driver::ArgsValidated { .. } => Action::BindInput,
            Driver::InputBound { .. } => Action::Parse,
            Driver::SyntaxParsed { .. } => Action::RunHook,
            _ => Action::Finish,
        }
    }

    /// The report, once the scan is done.
    pub fn report(self) -> (report: Option<CheckInfo>)
        ensures
            match report {
                Some(r) => self@ == (DriverView::Done { report: r@ }),
                None => !(self is Done),
            },
    {
        match self {
            Driver::Done { report } => Some(report),
            _ => None,
        }
    }

    /// Takes the scan one stage on, by what happened outside.
    pub fn step(self, event: Event) -> (next: Driver)
        requires
            self@.admits(event),
        ensures
            next@ == self@.next(event),
    {
        match self {
            Driver::Configured { matches } => match event {
                Event::Validated { stdin } => {
                    let Matches { options, free } = matches;
                    match make_input(&free, stdin) {
                        Ok(candidate) => Driver::ArgsValidated { options, candidate },
                        Err(error) => Driver::Failed { error },
                    }
                },
                Event::Rejected { message } => Driver::Failed {
                    error: ScanError::OptionParse { message },
                },
                _ => Driver::Configured { matches },
            },
            Driver::ArgsValidated { options, candidate } => match event {
                Event::Bind { config_only } => match candidate {
                    Some(input) => Driver::InputBound { session: configure_session(options, input) },
                    None => if config_only {
                        Driver::StoppedByHook
                    } else {
                        Driver::Failed { error: ScanError::NoInput }
                    },
                },
                _ => Driver::ArgsValidated { options, candidate },
            },
            Driver::InputBound { session } => match event {
                Event::Parsed { attrs } => Driver::SyntaxParsed { options: session.options, attrs },
                Event::ParseFailed { message } => Driver::Failed {
                    error: ScanError::HostParse { message },
                },
                _ => Driver::InputBound { session },
            },
            Driver::SyntaxParsed { options, attrs } => match event {
                Event::HookReturned { stop } => if stop {
                    Driver::StoppedByHook
                } else {
                    Driver::Done { report: report_for(options, attrs) }
                },
                _ => Driver::SyntaxParsed { options, attrs },
            },
            Driver::Done { report } => Driver::Done { report },
            Driver::StoppedByHook => Driver::StoppedByHook,
            Driver::Failed { error } => Driver::Failed { error },
        }
    }
}

} // verus!
