//! What holds of a whole scan, whatever the command line and the source.

use vstd::prelude::*;
use crate::attr_laws::{
    lemma_declared_features, lemma_order_independent, lemma_unguarded_unchanged,
};
use crate::attrs::{configured, declared_in, Attribute};
use crate::driver::{scan_report, unknown_name, Action, DriverView, Event};
use crate::error::ScanErrorView;
use crate::input::StdinRead;
use crate::options::{flag_of, resolved, resolved_from, MatchesView, OptionsView};

verus! {

/// A scan is a function of its input: the same command line and the same
/// root attributes give the same report, in name, features and flags, and
/// the same command line starts every scan in the same stage.
pub proof fn lemma_scan_repeatable(
    args: Seq<Seq<char>>,
    again: Seq<Seq<char>>,
    attrs: Seq<Attribute>,
    attrs_again: Seq<Attribute>,
)
    requires
        args == again,
        attrs == attrs_again,
    ensures
        DriverView::start(args) == DriverView::start(again),
        resolved(args) matches Ok(m) ==> resolved(again) matches Ok(n) && scan_report(
            m.options,
            attrs,
        ) == scan_report(n.options, attrs_again),
{
}

/// The flags of a report are the flags of the options, in their order,
/// whatever the source holds; and so is the name.
pub proof fn lemma_flags_echoed(options: OptionsView, attrs: Seq<Attribute>, other: Seq<Attribute>)
    ensures
        scan_report(options, attrs).cfg == options.cfg,
        scan_report(options, attrs).crate_name == scan_report(options, other).crate_name,
{
}

proof fn lemma_unnamed_from(args: Seq<Seq<char>>, at: int, sofar: MatchesView)
    requires
        0 <= at,
        forall|i: int| 0 <= i < args.len() ==> args[i] != "--crate-name"@,
        sofar.options.crate_name is None,
    ensures
        resolved_from(args, at, sofar) matches Ok(m) ==> m.options.crate_name is None,
    decreases args.len() - at,
{
    if at < args.len() {
        match flag_of(args[at]) {
            Some(flag) => {
                assert(!(flag is CrateName));
                if at + 1 < args.len() && !sofar.refuses(flag) {
                    lemma_unnamed_from(args, at + 2, sofar.with_flag(flag, args[at + 1]));
                }
            },
            None => {
                lemma_unnamed_from(args, at + 1, sofar.with_free(args[at]));
            },
        }
    }
}

/// Where the command line holds no `--crate-name`, the report carries the
/// fixed name, whatever the source holds.
pub proof fn lemma_unnamed_unit(args: Seq<Seq<char>>, attrs: Seq<Attribute>)
    requires
        forall|i: int| 0 <= i < args.len() ==> args[i] != "--crate-name"@,
    ensures
        resolved(args) matches Ok(m) ==> scan_report(m.options, attrs).crate_name
            == unknown_name(),
{
    lemma_unnamed_from(args, 0, MatchesView::empty());
}

/// A scan of one file that the host front end parses, and that no hook
/// stops, ends with the report for the file's root attributes.
pub proof fn lemma_scan_of_file(
    args: Seq<Seq<char>>,
    stdin: StdinRead,
    config_only: bool,
    attrs: Vec<Attribute>,
)
    requires
        resolved(args) matches Ok(m) && m.free.len() == 1 && m.free[0] != "-"@,
    ensures
        DriverView::start(args).next(Event::Validated { stdin }).next(
            Event::Bind { config_only },
        ).next(Event::Parsed { attrs }).next(Event::HookReturned { stop: false }) == (
        DriverView::Done { report: scan_report(resolved(args)->Ok_0.options, attrs@) }),
{
}

/// Two or more positional arguments fail the scan as soon as the options
/// are validated, and the failure names the first two in their order.
pub proof fn lemma_two_inputs_fail(args: Seq<Seq<char>>, stdin: StdinRead)
    requires
        resolved(args) matches Ok(m) && m.free.len() >= 2,
    ensures
        DriverView::start(args).next(Event::Validated { stdin }) == (DriverView::Failed {
            error: ScanErrorView::MultipleInput {
                first: resolved(args)->Ok_0.free[0],
                second: resolved(args)->Ok_0.free[1],
            },
        }),
{
}

/// Without a positional argument the scan fails for want of an input once
/// the input is to be bound, unless no more than valid options was wanted:
/// then it stops without failing.
pub proof fn lemma_no_input(args: Seq<Seq<char>>, stdin: StdinRead, config_only: bool)
    requires
        resolved(args) matches Ok(m) && m.free.len() == 0,
    ensures
        DriverView::start(args).next(Event::Validated { stdin }).next(
            Event::Bind { config_only },
        ) == if config_only {
            DriverView::StoppedByHook
        } else {
            DriverView::Failed { error: ScanErrorView::NoInput }
        },
{
}

/// Options that the host finds at fault fail the scan before any input is
/// bound or parsed.
pub proof fn lemma_rejected_options_fail(matches: MatchesView, message: String)
    ensures
        (DriverView::Configured { matches }).next(Event::Rejected { message }) == (
        DriverView::Failed { error: ScanErrorView::OptionParse { message: message@ } }),
{
}

/// A report holds exactly the features that the attributes in force under
/// the flags declare, each once.
pub proof fn lemma_report_features(options: OptionsView, attrs: Seq<Attribute>)
    ensures
        scan_report(options, attrs).used_rufs.no_duplicates(),
        forall|w: Seq<char>| #[trigger]
            scan_report(options, attrs).used_rufs.contains(w) <==> declared_in(
                configured(attrs, options.cfg),
                w,
            ),
{
    lemma_declared_features(configured(attrs, options.cfg));
}

/// Where no attribute is a `cfg` or a `cfg_attr`, the set of reported
/// features depends neither on the order of the attributes nor on the flags.
pub proof fn lemma_report_order_independent(
    options: OptionsView,
    other_options: OptionsView,
    a: Seq<Attribute>,
    b: Seq<Attribute>,
)
    requires
        a.to_multiset() == b.to_multiset(),
        forall|i: int| 0 <= i < a.len() ==> !(a[i] is Cfg) && !(a[i] is CfgAttr),
    ensures
        scan_report(options, a).used_rufs.to_set() == scan_report(
            other_options,
            b,
        ).used_rufs.to_set(),
{
    assert forall|k: int| 0 <= k < b.len() implies !(b[k] is Cfg) && !(b[k] is CfgAttr) by {
        assert(b.contains(b[k]));
        vstd::seq_lib::to_multiset_contains(b, b[k]);
        vstd::seq_lib::to_multiset_contains(a, b[k]);
        let i = choose|i: int| 0 <= i < a.len() && a[i] == b[k];
        assert(!(a[i] is Cfg) && !(a[i] is CfgAttr));
    }
    lemma_unguarded_unchanged(a, options.cfg);
    lemma_unguarded_unchanged(b, other_options.cfg);
    lemma_order_independent(a, b);
}

/// An event changes the stage only where the stage waits for it.
pub proof fn lemma_out_of_turn(state: DriverView, event: Event)
    requires
        !state.awaits(event),
    ensures
        state.next(event) == state,
{
}

/// A scan that has ended waits for nothing, asks for nothing more, and stays
/// as it is, whatever is sent.
pub proof fn lemma_ended_stays(state: DriverView, event: Event)
    requires
        state.ended(),
    ensures
        !state.awaits(event),
        state.action() == Action::Finish,
        state.next(event) == state,
{
}

/// A hook that stops the scan after parsing leaves no report.
pub proof fn lemma_hook_stops(options: OptionsView, attrs: Seq<Attribute>)
    ensures
        (DriverView::SyntaxParsed { options, attrs }).next(Event::HookReturned { stop: true })
            == DriverView::StoppedByHook,
{
}

} // verus!
