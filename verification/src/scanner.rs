//! A whole scan in one call, for a host front end whose answers are known
//! beforehand: a front end that is replayed, or a stand-in for one.

use vstd::prelude::*;
use vstd::pervasive::unreached;
use crate::attrs::Attribute;
use crate::driver::{scan_report, Driver, DriverView, Event};
use crate::options::resolved;
use crate::error::{ScanError, ScanErrorView};
use crate::input::StdinRead;
use crate::ruf_info::{CheckInfo, CheckInfoView};
use crate::text::texts;

verus! {

/// The answers of a host front end to everything that a scan may ask of it.
/// An answer that the scan does not come to ask for is not looked at.
#[derive(Debug)]
pub struct HostAnswers {
    /// The fault that the host finds with the options, if it finds one.
    pub rejected: Option<String>,
    /// What standard input holds, and the overrides that rename it.
    pub stdin: StdinRead,
    /// Whether no more than valid options is wanted.
    pub config_only: bool,
    /// The root attributes that the host parses the input into, or the
    /// message that it rejects the input with.
    pub parsed: Result<Vec<Attribute>, String>,
    /// Whether the hook that runs after parsing stops the scan.
    pub stop: bool,
}

impl HostAnswers {
    /// The answer to the validation of the options.
    pub open spec fn validation(self) -> Event {
        match self.rejected {
            Some(message) => Event::Rejected { message },
            None => Event::Validated { stdin: self.stdin },
        }
    }

    /// The answer to the parsing of the input.
    pub open spec fn parsing(self) -> Event {
        match self.parsed {
            Ok(attrs) => Event::Parsed { attrs },
            Err(message) => Event::ParseFailed { message },
        }
    }
}

/// The stage in which a scan of `args` ends under the given answers.
pub open spec fn last_stage(args: Seq<Seq<char>>, answers: HostAnswers) -> DriverView {
    DriverView::start(args).next(answers.validation()).next(
        Event::Bind { config_only: answers.config_only },
    ).next(answers.parsing()).next(Event::HookReturned { stop: answers.stop })
}

/// What a scan that ended in `stage` gives: its report, nothing where it
/// was stopped on purpose, or its failure.
pub open spec fn outcome(stage: DriverView) -> Result<Option<CheckInfoView>, ScanErrorView>
    recommends
        stage.ended(),
{
    match stage {
        DriverView::Done { report } => Ok(Some(report)),
        DriverView::Failed { error } => Err(error),
        _ => Ok(None),
    }
}

/// The mathematical value of what a scan gives.
pub open spec fn scan_view(r: Result<Option<CheckInfo>, ScanError>) -> Result<
    Option<CheckInfoView>,
    ScanErrorView,
> {
    match r {
        Ok(Some(report)) => Ok(Some(report@)),
        Ok(None) => Ok(None),
        Err(error) => Err(error@),
    }
}

/// Under any answers a scan comes to an end.
pub proof fn lemma_scan_ends(args: Seq<Seq<char>>, answers: HostAnswers)
    ensures
        last_stage(args, answers).ended(),
{
}

/// A scan gives a report only where the command line resolves and the host
/// parses the input, and the report is then the one for the resolved options
/// and the parsed root attributes.
pub proof fn lemma_report_source(args: Seq<Seq<char>>, answers: HostAnswers)
    ensures
        outcome(last_stage(args, answers)) matches Ok(Some(report)) ==> resolved(args) is Ok
            && answers.parsed is Ok && report == scan_report(
            resolved(args)->Ok_0.options,
            answers.parsed->Ok_0@,
        ),
{
}

/// Scans the input that `args` name, with the host's answers as given, and
/// returns the report, nothing where the scan was stopped on purpose, or the
/// failure.
pub fn run_scanner(args: &Vec<String>, answers: HostAnswers) -> (r: Result<
    Option<CheckInfo>,
    ScanError,
>)
    requires
        DriverView::start(texts(args@)).admits(answers.validation()),
    ensures
        scan_view(r) == outcome(last_stage(texts(args@), answers)),
{
    let HostAnswers { rejected, stdin, config_only, parsed, stop } = answers;
    let driver = Driver::start(args);
    let driver = match rejected {
        Some(message) => driver.step(Event::Rejected { message }),
        None => driver.step(Event::Validated { stdin }),
    };
    let driver = driver.step(Event::Bind { config_only });
    let driver = match parsed {
        Ok(attrs) => driver.step(Event::Parsed { attrs }),
        Err(message) => driver.step(Event::ParseFailed { message }),
    };
    let driver = driver.step(Event::HookReturned { stop });
    proof {
        lemma_scan_ends(texts(args@), answers);
    }
    match driver {
        Driver::Done { report } => Ok(Some(report)),
        Driver::StoppedByHook => Ok(None),
        Driver::Failed { error } => Err(error),
        _ => unreached(),
    }
}

} // verus!
