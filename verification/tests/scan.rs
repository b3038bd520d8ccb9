use ruf_extractor::attrs::{Attribute, MetaEntry};
use ruf_extractor::cfg::CfgPredicate;
use ruf_extractor::driver::{build_report, report_for, Action, Driver, Event};
use ruf_extractor::error::ScanError;
use ruf_extractor::input::{Input, SourceName, StdinRead};
use ruf_extractor::options::{resolve_options, Options};
use ruf_extractor::ruf_info::{CheckInfo, UsedRufs};
use ruf_extractor::scanner::{run_scanner, HostAnswers};

fn strings(items: &[&str]) -> Vec<String> {
    items.iter().map(|s| s.to_string()).collect()
}

fn word(name: &str) -> MetaEntry {
    MetaEntry::Word { name: name.to_string() }
}

fn feature(names: &[&str]) -> Attribute {
    Attribute::List { name: "feature".to_string(), entries: names.iter().map(|n| word(n)).collect() }
}

fn flag(name: &str) -> CfgPredicate {
    CfgPredicate::Flag { name: name.to_string() }
}

fn no_stdin() -> StdinRead {
    StdinRead { bytes: Vec::new(), test_path: None, test_line: None }
}

fn stdin_of(bytes: &[u8]) -> StdinRead {
    StdinRead { bytes: bytes.to_vec(), test_path: None, test_line: None }
}

/// Runs a scan whose input the front end parses into `attrs`, with no hook.
fn scan(args: &[&str], attrs: Vec<Attribute>) -> Driver {
    let driver = Driver::start(&strings(args));
    let driver = driver.step(Event::Validated { stdin: no_stdin() });
    let driver = driver.step(Event::Bind { config_only: false });
    let driver = driver.step(Event::Parsed { attrs });
    driver.step(Event::HookReturned { stop: false })
}

fn report_of(driver: Driver) -> CheckInfo {
    match driver.report() {
        Some(report) => report,
        None => panic!("the scan gave no report"),
    }
}

fn names(report: &CheckInfo) -> Vec<String> {
    report.used_rufs.names().clone()
}

fn sorted(mut names: Vec<String>) -> Vec<String> {
    names.sort();
    names
}

#[test]
fn used_rufs_new_keeps_the_names() {
    let used = UsedRufs::new(strings(&["b", "a"]));
    assert_eq!(used.names(), &strings(&["b", "a"]));
}

#[test]
fn two_feature_attributes_declare_their_union() {
    let report = report_of(scan(&["lib.rs"], vec![feature(&["a", "b"]), feature(&["c"])]));
    assert_eq!(names(&report), strings(&["a", "b", "c"]));
}

#[test]
fn attribute_order_does_not_change_the_set() {
    let one = report_of(scan(&["lib.rs"], vec![feature(&["a", "b"]), feature(&["c"])]));
    let other = report_of(scan(&["lib.rs"], vec![feature(&["c"]), feature(&["a", "b"])]));
    assert_eq!(names(&other), strings(&["c", "a", "b"]));
    assert_eq!(sorted(names(&one)), sorted(names(&other)));
}

#[test]
fn repeated_declarations_collapse() {
    let report =
        report_of(scan(&["lib.rs"], vec![feature(&["a", "b", "a"]), feature(&["b", "c"])]));
    assert_eq!(names(&report), strings(&["a", "b", "c"]));
}

#[test]
fn only_feature_lists_count() {
    let attrs = vec![
        Attribute::Marker { name: "feature".to_string() },
        Attribute::Marker { name: "no_std".to_string() },
        Attribute::List { name: "allow".to_string(), entries: vec![word("unused")] },
        Attribute::KeyValue { name: "crate_name".to_string(), value: "x".to_string() },
        feature(&["a"]),
    ];
    let report = report_of(scan(&["lib.rs"], attrs));
    assert_eq!(names(&report), strings(&["a"]));
}

#[test]
fn guarded_feature_is_dropped_where_the_guard_fails() {
    let guarded = Attribute::CfgAttr { predicate: flag("nightly"), attrs: vec![feature(&["a"])] };
    let report = report_of(scan(&["lib.rs"], vec![guarded, feature(&["b"])]));
    assert_eq!(names(&report), strings(&["b"]));
}

#[test]
fn guarded_feature_is_kept_where_the_guard_holds() {
    let guarded = Attribute::CfgAttr { predicate: flag("nightly"), attrs: vec![feature(&["a"])] };
    let report = report_of(scan(&["--cfg", "nightly", "lib.rs"], vec![guarded, feature(&["b"])]));
    assert_eq!(names(&report), strings(&["a", "b"]));
    assert_eq!(report.cfg, strings(&["nightly"]));
}

#[test]
fn check_cfg_never_affects_filtering() {
    let guarded = Attribute::CfgAttr { predicate: flag("nightly"), attrs: vec![feature(&["a"])] };
    let report = report_of(scan(&["--check-cfg", "nightly", "lib.rs"], vec![guarded]));
    assert!(names(&report).is_empty());
    assert!(report.cfg.is_empty());
}

#[test]
fn nested_guards_expand_in_place() {
    let inner = Attribute::CfgAttr { predicate: flag("b"), attrs: vec![feature(&["y"])] };
    let outer =
        Attribute::CfgAttr { predicate: flag("a"), attrs: vec![feature(&["x"]), inner, feature(&["z"])] };
    let kept = ruf_extractor::attrs::pre_configure_attrs(
        vec![feature(&["first"]), outer, feature(&["last"])],
        &strings(&["a", "b"]),
    );
    assert_eq!(kept.len(), 5);
    assert_eq!(
        ruf_extractor::attrs::features(&kept),
        strings(&["first", "x", "y", "z", "last"])
    );
    let inner = Attribute::CfgAttr { predicate: flag("b"), attrs: vec![feature(&["y"])] };
    let outer =
        Attribute::CfgAttr { predicate: flag("a"), attrs: vec![feature(&["x"]), inner, feature(&["z"])] };
    let kept = ruf_extractor::attrs::pre_configure_attrs(
        vec![feature(&["first"]), outer, feature(&["last"])],
        &strings(&["a"]),
    );
    assert_eq!(ruf_extractor::attrs::features(&kept), strings(&["first", "x", "z", "last"]));
}

#[test]
fn a_failed_cfg_drops_what_follows() {
    let attrs = vec![
        feature(&["a"]),
        Attribute::Cfg { predicate: flag("unix") },
        feature(&["b"]),
    ];
    let kept = ruf_extractor::attrs::pre_configure_attrs(attrs, &strings(&[]));
    assert_eq!(kept.len(), 1);
    assert_eq!(ruf_extractor::attrs::features(&kept), strings(&["a"]));
}

#[test]
fn a_cfg_that_holds_stays_and_drops_nothing() {
    let attrs = vec![
        feature(&["a"]),
        Attribute::Cfg { predicate: flag("unix") },
        feature(&["b"]),
    ];
    let kept = ruf_extractor::attrs::pre_configure_attrs(attrs, &strings(&["unix"]));
    assert_eq!(kept.len(), 3);
    assert!(matches!(kept[1], Attribute::Cfg { .. }));
    assert_eq!(ruf_extractor::attrs::features(&kept), strings(&["a", "b"]));
}

#[test]
fn predicates_combine() {
    let flags = strings(&["a", "feature=\"x\""]);
    assert!(flag("a").eval(&flags));
    assert!(!flag("b").eval(&flags));
    assert!(flag("feature=\"x\"").eval(&flags));
    assert!(CfgPredicate::Not { inner: Box::new(flag("b")) }.eval(&flags));
    assert!(!CfgPredicate::Not { inner: Box::new(flag("a")) }.eval(&flags));
    assert!(CfgPredicate::All { parts: vec![] }.eval(&flags));
    assert!(!CfgPredicate::Any { parts: vec![] }.eval(&flags));
    assert!(!CfgPredicate::All { parts: vec![flag("a"), flag("b")] }.eval(&flags));
    assert!(CfgPredicate::Any { parts: vec![flag("b"), flag("a")] }.eval(&flags));
    let deep = CfgPredicate::All {
        parts: vec![
            flag("a"),
            CfgPredicate::Any { parts: vec![flag("b"), CfgPredicate::Not { inner: Box::new(flag("c")) }] },
        ],
    };
    assert!(deep.eval(&flags));
}

#[test]
fn malformed_entries_are_skipped() {
    let attrs = vec![
        Attribute::List {
            name: "feature".to_string(),
            entries: vec![
                word("a"),
                MetaEntry::KeyValue { key: "b".to_string(), value: "x".to_string() },
                MetaEntry::List { name: "nested".to_string() },
                MetaEntry::Literal { text: "\"c\"".to_string() },
                word("d"),
            ],
        },
        Attribute::List {
            name: "feature".to_string(),
            entries: vec![MetaEntry::KeyValue { key: "a".to_string(), value: "x".to_string() }],
        },
        feature(&["e"]),
    ];
    let report = report_of(scan(&["lib.rs"], attrs));
    assert_eq!(names(&report), strings(&["a", "d", "e"]));
}

#[test]
fn the_same_scan_twice_gives_the_same_report() {
    let args = ["--crate-name", "demo", "--cfg", "x", "lib.rs"];
    let attrs = || {
        vec![
            feature(&["b", "a"]),
            Attribute::CfgAttr { predicate: flag("x"), attrs: vec![feature(&["c"])] },
        ]
    };
    let one = report_of(scan(&args, attrs()));
    let two = report_of(scan(&args, attrs()));
    assert_eq!(one.crate_name, two.crate_name);
    assert_eq!(names(&one), names(&two));
    assert_eq!(one.cfg, two.cfg);
    assert_eq!(one.crate_name, "demo");
    assert_eq!(names(&one), strings(&["b", "a", "c"]));
}

#[test]
fn without_a_crate_name_the_report_is_unknown() {
    let report = report_of(scan(&["lib.rs"], vec![feature(&["a"])]));
    assert_eq!(report.crate_name, "unknown");
    let named_in_source =
        vec![Attribute::KeyValue { name: "crate_name".to_string(), value: "inner".to_string() }];
    let report = report_of(scan(&["lib.rs"], named_in_source));
    assert_eq!(report.crate_name, "unknown");
}

#[test]
fn the_first_crate_name_wins() {
    let report = report_of(scan(&["--crate-name", "one", "--crate-name", "two", "lib.rs"], vec![]));
    assert_eq!(report.crate_name, "one");
}

#[test]
fn two_inputs_fail_and_name_both() {
    let driver = Driver::start(&strings(&["a.rs", "b.rs", "c.rs"]));
    let driver = driver.step(Event::Validated { stdin: no_stdin() });
    match driver {
        Driver::Failed { error: ScanError::MultipleInput { first, second } } => {
            assert_eq!(first, "a.rs");
            assert_eq!(second, "b.rs");
        }
        other => panic!("unexpected stage: {:?}", other),
    }
    let driver = Driver::start(&strings(&["a.rs", "b.rs"]));
    let driver = driver.step(Event::Validated { stdin: no_stdin() });
    match driver {
        Driver::Failed { error } => {
            assert!(matches!(error, ScanError::MultipleInput { .. }));
            assert_eq!(
                error.message(),
                "multiple input filenames provided (first two filenames are `a.rs` and `b.rs`)"
            );
        }
        other => panic!("unexpected stage: {:?}", other),
    }
}

#[test]
fn no_input_fails_when_bound() {
    let driver = Driver::start(&strings(&["--cfg", "x"]));
    assert_eq!(driver.action(), Action::Validate);
    let driver = driver.step(Event::Validated { stdin: no_stdin() });
    assert!(matches!(driver, Driver::ArgsValidated { candidate: None, .. }));
    let driver = driver.step(Event::Bind { config_only: false });
    match driver {
        Driver::Failed { error } => {
            assert!(matches!(error, ScanError::NoInput));
            assert_eq!(error.message(), "no input filename given");
        }
        other => panic!("unexpected stage: {:?}", other),
    }
}

#[test]
fn no_input_stops_cleanly_when_only_options_were_wanted() {
    let driver = Driver::start(&strings(&[]));
    let driver = driver.step(Event::Validated { stdin: no_stdin() });
    let driver = driver.step(Event::Bind { config_only: true });
    assert!(matches!(driver, Driver::StoppedByHook));
    assert!(driver.report().is_none());
}

#[test]
fn stdin_that_is_not_utf8_fails() {
    let driver = Driver::start(&strings(&["-"]));
    assert_eq!(driver.action(), Action::ReadStdin);
    let driver = driver.step(Event::Validated { stdin: stdin_of(&[b'f', b'n', 0xff, 0xfe]) });
    match driver {
        Driver::Failed { error } => {
            assert!(matches!(error, ScanError::StdinEncoding));
            assert_eq!(
                error.message(),
                "couldn't read from stdin, as it did not contain valid UTF-8"
            );
        }
        other => panic!("unexpected stage: {:?}", other),
    }
}

#[test]
fn stdin_text_becomes_the_input() {
    let driver = Driver::start(&strings(&["-"]));
    let text = "#![feature(a)] fn main() { let s = \"\u{e9}\u{4e2d}\"; }";
    let driver = driver.step(Event::Validated { stdin: stdin_of(text.as_bytes()) });
    let driver = driver.step(Event::Bind { config_only: false });
    assert_eq!(driver.action(), Action::Parse);
    match driver {
        Driver::InputBound { session } => match session.input {
            Input::Str { name, input } => {
                assert!(matches!(name, SourceName::Anon));
                assert_eq!(input, text);
            }
            other => panic!("unexpected input: {:?}", other),
        },
        other => panic!("unexpected stage: {:?}", other),
    }
}

#[test]
fn stdin_overrides_rename_the_source() {
    let stdin = StdinRead {
        bytes: b"fn main() {}".to_vec(),
        test_path: Some("doc.rs".to_string()),
        test_line: Some(7),
    };
    let input = ruf_extractor::input::make_input(&strings(&["-"]), stdin);
    match input {
        Ok(Some(Input::Str { name: SourceName::DocTest { path, line }, input })) => {
            assert_eq!(path, "doc.rs");
            assert_eq!(line, 7);
            assert_eq!(input, "fn main() {}");
        }
        other => panic!("unexpected input: {:?}", other),
    }
}

#[test]
fn a_path_is_taken_as_it_is() {
    assert!(!ruf_extractor::input::reads_stdin(&strings(&["missing/file.rs"])));
    assert!(ruf_extractor::input::reads_stdin(&strings(&["-"])));
    assert!(!ruf_extractor::input::reads_stdin(&strings(&["-", "-"])));
    let input = ruf_extractor::input::make_input(&strings(&["missing/file.rs"]), stdin_of(&[0xff]));
    match input {
        Ok(Some(Input::File { path })) => assert_eq!(path, "missing/file.rs"),
        other => panic!("unexpected input: {:?}", other),
    }
    assert!(matches!(ruf_extractor::input::make_input(&strings(&[]), no_stdin()), Ok(None)));
}

#[test]
fn cfg_flags_are_echoed_in_order() {
    let gated = vec![
        Attribute::CfgAttr { predicate: flag("bar"), attrs: vec![feature(&["a"])] },
        Attribute::Cfg { predicate: flag("foo") },
    ];
    let report = report_of(scan(&["--cfg", "foo", "--cfg", "bar", "lib.rs"], gated));
    assert_eq!(report.cfg, strings(&["foo", "bar"]));
    let report = report_of(scan(&["--cfg", "foo", "--cfg", "bar", "lib.rs"], vec![]));
    assert_eq!(report.cfg, strings(&["foo", "bar"]));
}

#[test]
fn options_resolve_in_order() {
    let args = strings(&[
        "--cfg", "a", "x.rs", "--check-cfg", "cfg(b)", "-o", "out", "--out-dir", "dir", "--cfg",
        "--cfg", "--crate-name", "n", "-",
    ]);
    let m = match resolve_options(&args) {
        Ok(m) => m,
        Err(e) => panic!("unexpected failure: {:?}", e),
    };
    assert_eq!(m.options.cfg, strings(&["a", "--cfg"]));
    assert_eq!(m.options.check_cfg, strings(&["cfg(b)"]));
    assert_eq!(m.options.output_file, Some("out".to_string()));
    assert_eq!(m.options.output_dir, Some("dir".to_string()));
    assert_eq!(m.options.crate_name, Some("n".to_string()));
    assert_eq!(m.free, strings(&["x.rs", "-"]));
}

#[test]
fn an_unknown_flag_fails_at_once() {
    match resolve_options(&strings(&["--cfg", "a", "--bogus", "x.rs"])) {
        Err(ScanError::OptionParse { message }) => {
            assert_eq!(message, "unrecognized option: `--bogus`")
        }
        other => panic!("unexpected outcome: {:?}", other),
    }
    let driver = Driver::start(&strings(&["-Z", "x.rs"]));
    assert_eq!(driver.action(), Action::Finish);
    assert!(matches!(driver, Driver::Failed { error: ScanError::OptionParse { .. } }));
}

#[test]
fn a_flag_without_its_value_fails() {
    match resolve_options(&strings(&["x.rs", "--cfg"])) {
        Err(error) => assert_eq!(error.message(), "argument to option `--cfg` missing"),
        other => panic!("unexpected outcome: {:?}", other),
    }
}

#[test]
fn a_second_output_flag_fails() {
    match resolve_options(&strings(&["-o", "a", "-o", "b"])) {
        Err(error) => assert_eq!(error.message(), "option `-o` given more than once"),
        other => panic!("unexpected outcome: {:?}", other),
    }
    match resolve_options(&strings(&["--out-dir", "a", "--out-dir", "b"])) {
        Err(error) => assert_eq!(error.message(), "option `--out-dir` given more than once"),
        other => panic!("unexpected outcome: {:?}", other),
    }
}

#[test]
fn output_flags_name_the_target() {
    let options = |o: Option<&str>, dir: Option<&str>| Options {
        crate_name: None,
        cfg: vec![],
        check_cfg: vec![],
        output_file: o.map(|s| s.to_string()),
        output_dir: dir.map(|s| s.to_string()),
    };
    let (dir, file) = ruf_extractor::input::make_output(&options(Some("-"), None));
    assert!(dir.is_none());
    assert!(matches!(file, Some(ruf_extractor::input::OutFileName::Stdout)));
    let (dir, file) = ruf_extractor::input::make_output(&options(Some("a.out"), Some("target")));
    assert_eq!(dir, Some("target".to_string()));
    match file {
        Some(ruf_extractor::input::OutFileName::Real { path }) => assert_eq!(path, "a.out"),
        other => panic!("unexpected target: {:?}", other),
    }
    let (dir, file) = ruf_extractor::input::make_output(&options(None, None));
    assert!(dir.is_none() && file.is_none());
}

#[test]
fn the_session_combines_options_and_input() {
    let driver = Driver::start(&strings(&["-o", "-", "--out-dir", "target", "--cfg", "x", "lib.rs"]));
    let driver = driver.step(Event::Validated { stdin: no_stdin() });
    let driver = driver.step(Event::Bind { config_only: true });
    match driver {
        Driver::InputBound { session } => {
            assert!(matches!(session.output_file, Some(ruf_extractor::input::OutFileName::Stdout)));
            assert_eq!(session.output_dir, Some("target".to_string()));
            assert_eq!(session.options.cfg, strings(&["x"]));
            match session.input {
                Input::File { path } => assert_eq!(path, "lib.rs"),
                other => panic!("unexpected input: {:?}", other),
            }
        }
        other => panic!("unexpected stage: {:?}", other),
    }
}

#[test]
fn a_hook_may_stop_the_scan() {
    let driver = Driver::start(&strings(&["lib.rs"]));
    let driver = driver.step(Event::Validated { stdin: no_stdin() });
    assert_eq!(driver.action(), Action::BindInput);
    let driver = driver.step(Event::Bind { config_only: false });
    let driver = driver.step(Event::Parsed { attrs: vec![feature(&["a"])] });
    assert_eq!(driver.action(), Action::RunHook);
    let driver = driver.step(Event::HookReturned { stop: true });
    assert!(matches!(driver, Driver::StoppedByHook));
    assert_eq!(driver.action(), Action::Finish);
    assert!(driver.report().is_none());
}

#[test]
fn a_syntax_error_fails_with_the_hosts_message() {
    let driver = Driver::start(&strings(&["lib.rs"]));
    let driver = driver.step(Event::Validated { stdin: no_stdin() });
    let driver = driver.step(Event::Bind { config_only: false });
    let driver = driver.step(Event::ParseFailed { message: "expected item, found `}`".to_string() });
    match driver {
        Driver::Failed { error } => {
            assert!(matches!(error, ScanError::HostParse { .. }));
            assert_eq!(error.message(), "expected item, found `}`");
        }
        other => panic!("unexpected stage: {:?}", other),
    }
}

#[test]
fn rejected_options_fail_the_scan() {
    let driver = Driver::start(&strings(&["lib.rs"]));
    let driver = driver.step(Event::Rejected { message: "unknown edition".to_string() });
    match driver {
        Driver::Failed { error: ScanError::OptionParse { message } } => {
            assert_eq!(message, "unknown edition")
        }
        other => panic!("unexpected stage: {:?}", other),
    }
}

#[test]
fn an_event_out_of_turn_changes_nothing() {
    let driver = Driver::start(&strings(&["lib.rs"]));
    let driver = driver.step(Event::HookReturned { stop: true });
    assert!(matches!(driver, Driver::Configured { .. }));
    let driver = driver.step(Event::Parsed { attrs: vec![] });
    assert!(matches!(driver, Driver::Configured { .. }));
    let done = scan(&["lib.rs"], vec![feature(&["a"])]);
    let done = done.step(Event::Bind { config_only: true });
    assert_eq!(names(&report_of(done)), strings(&["a"]));
}

#[test]
fn the_report_is_assembled_from_its_parts() {
    let options = Options {
        crate_name: Some("demo".to_string()),
        cfg: strings(&["x", "y"]),
        check_cfg: strings(&["z"]),
        output_file: None,
        output_dir: None,
    };
    let report = build_report(options, strings(&["f", "g"]));
    assert_eq!(report.crate_name, "demo");
    assert_eq!(names(&report), strings(&["f", "g"]));
    assert_eq!(report.cfg, strings(&["x", "y"]));
    let options = Options {
        crate_name: None,
        cfg: strings(&["x"]),
        check_cfg: vec![],
        output_file: None,
        output_dir: None,
    };
    let guarded = Attribute::CfgAttr { predicate: flag("x"), attrs: vec![feature(&["a"])] };
    let report = report_for(options, vec![guarded]);
    assert_eq!(report.crate_name, "unknown");
    assert_eq!(names(&report), strings(&["a"]));
    assert_eq!(format!("{:?}", report.used_rufs), "UsedRufs([\"a\"])");
}

fn answers(parsed: Result<Vec<Attribute>, String>) -> HostAnswers {
    HostAnswers { rejected: None, stdin: no_stdin(), config_only: false, parsed, stop: false }
}

#[test]
fn a_whole_scan_gives_the_report() {
    let attrs = vec![
        feature(&["a", "b"]),
        Attribute::CfgAttr { predicate: flag("x"), attrs: vec![feature(&["c"])] },
        Attribute::CfgAttr { predicate: flag("y"), attrs: vec![feature(&["d"])] },
        feature(&["b", "e"]),
    ];
    let args = strings(&["--crate-name", "demo", "--cfg", "x", "lib.rs"]);
    match run_scanner(&args, answers(Ok(attrs))) {
        Ok(Some(report)) => {
            assert_eq!(report.crate_name, "demo");
            assert_eq!(names(&report), strings(&["a", "b", "c", "e"]));
            assert_eq!(report.cfg, strings(&["x"]));
        }
        other => panic!("unexpected outcome: {:?}", other),
    }
}

#[test]
fn a_whole_scan_reads_standard_input_where_asked() {
    let mut host = answers(Ok(vec![feature(&["a"])]));
    host.stdin = stdin_of(&[0xc3, 0x28]);
    assert!(matches!(run_scanner(&strings(&["-"]), host), Err(ScanError::StdinEncoding)));
    let mut host = answers(Ok(vec![feature(&["a"])]));
    host.stdin = stdin_of(&[0xc3, 0x28]);
    match run_scanner(&strings(&["lib.rs"]), host) {
        Ok(Some(report)) => assert_eq!(names(&report), strings(&["a"])),
        other => panic!("unexpected outcome: {:?}", other),
    }
    let mut host = answers(Ok(vec![feature(&["a"])]));
    host.stdin = stdin_of(b"#![feature(a)]");
    match run_scanner(&strings(&["-"]), host) {
        Ok(Some(report)) => assert_eq!(names(&report), strings(&["a"])),
        other => panic!("unexpected outcome: {:?}", other),
    }
}

#[test]
fn a_whole_scan_gives_its_failure() {
    let two = run_scanner(&strings(&["a.rs", "b.rs"]), answers(Ok(vec![])));
    match two {
        Err(ScanError::MultipleInput { first, second }) => {
            assert_eq!(first, "a.rs");
            assert_eq!(second, "b.rs");
        }
        other => panic!("unexpected outcome: {:?}", other),
    }
    let none = run_scanner(&strings(&["--cfg", "x"]), answers(Ok(vec![])));
    assert!(matches!(none, Err(ScanError::NoInput)));
    let bad_flag = run_scanner(&strings(&["--nope", "a.rs"]), answers(Ok(vec![])));
    assert!(matches!(bad_flag, Err(ScanError::OptionParse { .. })));
    let broken = run_scanner(&strings(&["a.rs"]), answers(Err("unexpected token".to_string())));
    match broken {
        Err(ScanError::HostParse { message }) => assert_eq!(message, "unexpected token"),
        other => panic!("unexpected outcome: {:?}", other),
    }
    let mut host = answers(Ok(vec![]));
    host.rejected = Some("unknown codegen option".to_string());
    match run_scanner(&strings(&["a.rs"]), host) {
        Err(ScanError::OptionParse { message }) => assert_eq!(message, "unknown codegen option"),
        other => panic!("unexpected outcome: {:?}", other),
    }
}

#[test]
fn a_whole_scan_may_be_stopped() {
    let mut host = answers(Ok(vec![feature(&["a"])]));
    host.stop = true;
    assert!(matches!(run_scanner(&strings(&["a.rs"]), host), Ok(None)));
    let mut host = answers(Ok(vec![feature(&["a"])]));
    host.config_only = true;
    assert!(matches!(run_scanner(&strings(&[]), host), Ok(None)));
}
