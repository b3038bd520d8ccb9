//! What holds of option resolution in general.

use vstd::prelude::*;
use crate::options::{flag_of, is_dashed, resolved, resolved_from, Flag, MatchesView};

verus! {

proof fn lemma_resolved_extends(
    args: Seq<Seq<char>>,
    tail: Seq<Seq<char>>,
    at: int,
    sofar: MatchesView,
)
    requires
        0 <= at <= args.len(),
        resolved_from(args, at, sofar) is Ok,
    ensures
        resolved_from(args + tail, at, sofar) == resolved_from(
            args + tail,
            args.len() as int,
            resolved_from(args, at, sofar)->Ok_0,
        ),
    decreases args.len() - at,
{
    let all = args + tail;
    if at < args.len() {
        assert(all[at] == args[at]);
        match flag_of(args[at]) {
            Some(flag) => {
                assert(all[at + 1] == args[at + 1]);
                lemma_resolved_extends(args, tail, at + 2, sofar.with_flag(flag, args[at + 1]));
            },
            None => {
                lemma_resolved_extends(args, tail, at + 1, sofar.with_free(args[at]));
            },
        }
    }
}

/// Flags are kept in the order given: one more `--cfg` with its value, after
/// a command line that resolves, adds that value at the end of the flags and
/// changes nothing else.
pub proof fn lemma_cfg_appended(args: Seq<Seq<char>>, value: Seq<char>)
    requires
        resolved(args) is Ok,
    ensures
        resolved(args + seq!["--cfg"@, value]) == Ok::<MatchesView, crate::error::ScanErrorView>(
            resolved(args)->Ok_0.with_flag(Flag::Cfg, value),
        ),
        resolved(args + seq!["--cfg"@, value])->Ok_0.options.cfg == resolved(
            args,
        )->Ok_0.options.cfg.push(value),
{
    let tail = seq!["--cfg"@, value];
    let all = args + tail;
    let m = resolved(args)->Ok_0;
    let n = args.len() as int;
    lemma_resolved_extends(args, tail, 0, MatchesView::empty());
    reveal_strlit("--cfg");
    reveal_strlit("--crate-name");
    assert(all[n] == "--cfg"@);
    assert(all[n + 1] == value);
    assert("--cfg"@.len() != "--crate-name"@.len());
    assert(flag_of(all[n]) == Some(Flag::Cfg));
    let after = m.with_flag(Flag::Cfg, value);
    assert(resolved_from(all, n + 2, after) == Ok::<MatchesView, crate::error::ScanErrorView>(after));
    assert(resolved_from(all, n, m) == resolved_from(all, n + 2, after));
}

/// Positional arguments are kept in the order given: one more argument that
/// is no flag, after a command line that resolves, is added at the end of the
/// positional arguments and changes nothing else.
pub proof fn lemma_free_appended(args: Seq<Seq<char>>, arg: Seq<char>)
    requires
        resolved(args) is Ok,
        flag_of(arg) is None,
        !is_dashed(arg),
    ensures
        resolved(args + seq![arg]) == Ok::<MatchesView, crate::error::ScanErrorView>(
            resolved(args)->Ok_0.with_free(arg),
        ),
{
    let tail = seq![arg];
    let all = args + tail;
    let m = resolved(args)->Ok_0;
    let n = args.len() as int;
    lemma_resolved_extends(args, tail, 0, MatchesView::empty());
    assert(all[n] == arg);
    let after = m.with_free(arg);
    assert(resolved_from(all, n + 1, after) == Ok::<MatchesView, crate::error::ScanErrorView>(after));
    assert(resolved_from(all, n, m) == resolved_from(all, n + 1, after));
}

/// An argument that has the shape of a flag and is none of the known flags,
/// after a command line that resolves, fails the resolution, and the failure
/// names it.
pub proof fn lemma_unknown_flag_fails(args: Seq<Seq<char>>, arg: Seq<char>)
    requires
        resolved(args) is Ok,
        flag_of(arg) is None,
        is_dashed(arg),
    ensures
        resolved(args + seq![arg]) == Err::<MatchesView, crate::error::ScanErrorView>(
            crate::options::unknown_flag(arg),
        ),
{
    let tail = seq![arg];
    let all = args + tail;
    lemma_resolved_extends(args, tail, 0, MatchesView::empty());
    assert(all[args.len() as int] == arg);
}

} // verus!
