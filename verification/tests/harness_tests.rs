//! Registration, name composition, directives, and run-total scenarios.

use dyntest::conclude;
use dyntest::plan_test;
use dyntest::tally;
use dyntest::Disposition;
use dyntest::DynTest;
use dyntest::DynTester;
use dyntest::Ignore;
use dyntest::Name;
use dyntest::Outcome;
use dyntest::ShouldPanic;
use dyntest::TestStats;

fn fresh(manifest: &'static str) -> DynTester<i32> {
    DynTester::new(manifest, "harness_tests.rs", 1, 1)
}

fn stats(
    passed: usize,
    failed: usize,
    ignored: usize,
    filtered_out: usize,
) -> TestStats {
    TestStats { passed, failed, ignored, measured: 0, filtered_out }
}

fn names(tests: &[DynTest<i32>]) -> Vec<&str> {
    tests.iter().map(|t| t.name.as_str()).collect()
}

#[test]
fn name_composition_before_inside_after() {
    let mut t = fresh("root");
    t.test(Name::from("before"), 0);
    t.group(Name::from("foo"), |mut g: DynTester<i32>| {
        g.test(Name::from("inside"), 1);
        g
    });
    t.test(Name::from("after"), 2);
    let tests = t.into_tests();
    assert_eq!(names(&tests), vec!["before", "foo::inside", "after"]);
}

#[test]
fn name_composition_nested_groups() {
    let mut t = fresh("root");
    t.group(Name::from("foo"), |mut g: DynTester<i32>| {
        g.group(Name::from("bar"), |mut h: DynTester<i32>| {
            h.test(Name::from("baz"), 0);
            h
        });
        g.test(Name::from("qux"), 1);
        g
    });
    let tests = t.into_tests();
    assert_eq!(names(&tests), vec!["foo::bar::baz", "foo::qux"]);
}

#[test]
fn names_compare_by_their_characters() {
    assert_eq!(Name::from("a"), Name::from(String::from("a")));
    assert_ne!(Name::from("a"), Name::from("b"));
    assert_eq!(Name::from_path("a/b.rs"), Name::from("a::b"));
}

#[test]
fn name_from_owned_string_and_path() {
    assert_eq!(Name::from(String::from("dyn")).as_str(), "dyn");
    assert_eq!(Name::from_path("a/b/c.rs").as_str(), "a::b::c");
    assert_eq!(Name::from_path("x.tar.gz").as_str(), "x.tar");
    assert_eq!(Name::from_path(".gitignore").as_str(), ".gitignore");
    assert_eq!(Name::from_path("dir.d/file").as_str(), "dir.d::file");
    assert_eq!(Name::from_path("plain").as_str(), "plain");
    assert_eq!(Name::from_path("sub/trailing.").as_str(), "sub::trailing");
}

#[test]
fn directives_last_write_wins() {
    let mut t = fresh("root");
    {
        let handle = t.test(Name::from("a"), 0);
        handle.ignore(Ignore::from("first")).ignore(Ignore::from(true));
        handle.should_panic(ShouldPanic::from("msg"));
        handle.should_panic(ShouldPanic::from(false));
    }
    t.test(Name::from("b"), 1).ignore(Ignore::from(false));
    let tests = t.into_tests();
    assert_eq!(tests[0].ignore, Ignore::Ignore(None));
    assert_eq!(tests[0].should_panic, ShouldPanic::No);
    assert_eq!(tests[1].ignore, Ignore::NoIgnore);
}

#[test]
fn ignore_conversions_and_accessors() {
    let none = Ignore::from(false);
    assert!(!none.ignore());
    assert_eq!(none.message(), None);

    let bare = Ignore::from(true);
    assert!(bare.ignore());
    assert_eq!(bare.message(), None);

    let reasoned = Ignore::from("why not?");
    assert!(reasoned.ignore());
    assert_eq!(reasoned.message(), Some("why not?"));

    let owned = Ignore::from(String::from("dynamic reason"));
    assert!(owned.ignore());
    assert_eq!(owned.message(), Some("dynamic reason"));
}

#[test]
fn should_panic_conversions() {
    assert_eq!(ShouldPanic::from(false), ShouldPanic::No);
    assert_eq!(ShouldPanic::from(true), ShouldPanic::Yes);
    assert_eq!(ShouldPanic::from("aaa"), ShouldPanic::YesWithMessage("aaa"));
    assert_eq!(
        ShouldPanic::from(String::from("bbb")),
        ShouldPanic::YesWithMessage("bbb")
    );
}

#[test]
fn resolve_joins_onto_manifest_dir() {
    let t = fresh("/proj");
    assert_eq!(t.resolve("examples"), "/proj/examples");
    assert_eq!(t.resolve("/abs/path"), "/abs/path");
}

#[test]
fn verdicts_for_expected_panics() {
    let aaa = ShouldPanic::YesWithMessage("aaa");
    assert!(conclude(&aaa, &Outcome::Panicked(Some(String::from("aaa")))));
    assert!(conclude(&aaa, &Outcome::Panicked(Some(String::from("xx aaa yy")))));
    assert!(!conclude(&aaa, &Outcome::Panicked(Some(String::from("bbb")))));
    assert!(!conclude(&aaa, &Outcome::Panicked(None)));
    assert!(!conclude(&aaa, &Outcome::Completed(true)));

    assert!(conclude(&ShouldPanic::Yes, &Outcome::Panicked(None)));
    assert!(!conclude(&ShouldPanic::Yes, &Outcome::Completed(true)));

    assert!(conclude(&ShouldPanic::No, &Outcome::Completed(true)));
    assert!(!conclude(&ShouldPanic::No, &Outcome::Completed(false)));
    assert!(!conclude(&ShouldPanic::No, &Outcome::Panicked(None)));
}

#[test]
fn plan_filters_and_ignores() {
    let ignored = Ignore::from(true);
    let live = Ignore::from(false);
    assert_eq!(plan_test("foo::bar::baz", &live, Some("bar"), false), Disposition::Run);
    assert_eq!(plan_test("foo::qux", &live, Some("bar"), false), Disposition::FilteredOut);
    assert_eq!(plan_test("foo::qux", &live, None, false), Disposition::Run);
    assert_eq!(plan_test("skipped", &ignored, None, false), Disposition::Ignored);
    assert_eq!(plan_test("skipped", &ignored, None, true), Disposition::Run);
    assert_eq!(plan_test("skipped", &ignored, Some("nothing"), true), Disposition::FilteredOut);
}

fn run_registered(
    t: DynTester<i32>,
    outcomes: Vec<Outcome>,
    filter: Option<&str>,
    include_ignored: bool,
) -> TestStats {
    let tests = t.into_tests();
    assert_eq!(tests.len(), outcomes.len());
    tally(&tests, &outcomes, filter, include_ignored)
}

#[test]
fn test_examples() {
    // Three plain passing tests: all pass.
    let mut basic = fresh("root");
    for name in ["a", "pq", "xyz"] {
        basic.test(Name::from(name), 0);
    }
    let outcomes = vec![
        Outcome::Completed(true),
        Outcome::Completed(true),
        Outcome::Completed(true),
    ];
    assert_eq!(run_registered(basic, outcomes, None, false), stats(3, 0, 0, 0));

    // Expected panics and ignored tests.
    let mut config = fresh("root");
    config.test(Name::from("panic"), 0).should_panic(ShouldPanic::from(true));
    config.test(Name::from("aaa"), 1).should_panic(ShouldPanic::from("aaa"));
    config.test(Name::from("ignore"), 2).ignore(Ignore::from(true));
    config.test(Name::from("why"), 3).ignore(Ignore::from("why not?"));
    let outcomes = vec![
        Outcome::Panicked(None),
        Outcome::Panicked(Some(String::from("aaa"))),
        Outcome::Completed(true),
        Outcome::Completed(true),
    ];
    let tests = config.into_tests();
    assert_eq!(tally(&tests, &outcomes, None, false), stats(2, 0, 2, 0));
    assert_eq!(tally(&tests, &outcomes, None, true), stats(4, 0, 0, 0));

    // Nested groups, with and without a filter on the inner group's name.
    let mut groups = fresh("root");
    groups.group(Name::from("foo"), |mut g: DynTester<i32>| {
        g.group(Name::from("bar"), |mut h: DynTester<i32>| {
            h.test(Name::from("baz"), 0);
            h
        });
        g.test(Name::from("qux"), 1);
        g
    });
    let outcomes = vec![Outcome::Completed(true), Outcome::Completed(true)];
    let tests = groups.into_tests();
    assert_eq!(tally(&tests, &outcomes, None, false), stats(2, 0, 0, 0));
    assert_eq!(tally(&tests, &outcomes, Some("bar"), false), stats(1, 0, 0, 1));
}

#[test]
fn test_fails() {
    // An unexpected panic fails the test.
    let mut basic_panic = fresh("root");
    basic_panic.test(Name::from("basic_panic"), 0);
    let outcomes = vec![Outcome::Panicked(Some(String::from("boom")))];
    let tests = basic_panic.into_tests();
    assert_eq!(tally(&tests, &outcomes, None, false), stats(0, 1, 0, 0));
    // A filter matching nothing filters the test out instead.
    assert_eq!(tally(&tests, &outcomes, Some("nothing"), false), stats(0, 0, 0, 1));

    // A panic with the wrong message fails the test.
    let mut wrong_panic = fresh("root");
    wrong_panic.test(Name::from("wrong_panic"), 0).should_panic(ShouldPanic::from("expected"));
    let outcomes = vec![Outcome::Panicked(Some(String::from("other")))];
    assert_eq!(run_registered(wrong_panic, outcomes, None, false), stats(0, 1, 0, 0));

    // An ignored failure is reported as ignored until ignored tests are
    // included, and then fails.
    let mut ignored_failure = fresh("root");
    ignored_failure.test(Name::from("ignored_failure"), 0).ignore(Ignore::from(true));
    let outcomes = vec![Outcome::Completed(false)];
    let tests = ignored_failure.into_tests();
    assert_eq!(tally(&tests, &outcomes, None, false), stats(0, 0, 1, 0));
    assert_eq!(tally(&tests, &outcomes, None, true), stats(0, 1, 0, 0));
}

#[test]
fn tally_on_empty_list() {
    let t = fresh("root");
    assert_eq!(run_registered(t, Vec::new(), None, false), stats(0, 0, 0, 0));
}

#[test]
fn duplicate_names_are_permitted() {
    let mut t = fresh("root");
    t.test(Name::from("same"), 0);
    t.test(Name::from("same"), 1);
    let tests = t.into_tests();
    assert_eq!(names(&tests), vec!["same", "same"]);
    assert_eq!(tests[0].body, 0);
    assert_eq!(tests[1].body, 1);
}
