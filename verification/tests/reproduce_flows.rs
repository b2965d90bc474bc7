use fuzzor::native_go::{
    native_go_located, native_go_start, native_go_step, NativeGoAction, NativeGoEvent,
    NativeGoReproducer, NativeGoReproducerError, NativeGoStage,
};
use fuzzor::paths::{file_name, path_join};
use fuzzor::reproducer::{ReproducedSolution, SolutionCause};
use fuzzor::semsan::{
    semsan_args, semsan_binary, semsan_start, semsan_step, SemSanAction, SemSanEvent,
    SemSanReproducer, SemSanReproducerError, SemSanRun, SemSanStage,
};

fn run(comparator: Option<&str>, arch: &str) -> SemSanRun {
    SemSanRun {
        arch: arch.to_string(),
        comparator: comparator.map(String::from),
        primary_harness_binary: "/bin/p".to_string(),
        secondary_harness_binary: "/bin/s".to_string(),
        test_case: "/cases/crash-1".to_string(),
        seeds_dir: "/w/seeds".to_string(),
        solutions_dir: "/w/solutions".to_string(),
    }
}

fn semsan_drive(r: &SemSanRun, events: Vec<SemSanEvent>) -> Vec<SemSanAction> {
    let (mut stage, first) = semsan_start();
    let mut actions = vec![first];
    for e in events {
        let (s, a) = semsan_step(r, stage, e);
        stage = s;
        actions.push(a);
    }
    actions
}

fn semsan_result(a: SemSanAction) -> Result<ReproducedSolution, SemSanReproducerError> {
    match a {
        SemSanAction::Finish(r) => r,
        _ => panic!("not finished"),
    }
}

#[test]
fn semsan_binary_selection() {
    assert_eq!(semsan_binary("x86_64", " x86-64"), "semsan");
    assert_eq!(semsan_binary("x86_64", " ARM aarch64"), "semsan-aarch64");
    assert_eq!(semsan_binary("aarch64", " x86-64"), "semsan-x86_64");
    assert_eq!(semsan_binary("aarch64", " ARM aarch64"), "semsan");
    assert_eq!(semsan_binary("riscv64", " x86-64"), "semsan-x86_64");
    assert_eq!(semsan_binary("riscv64", " ARM aarch64"), "semsan-aarch64");
    assert_eq!(semsan_binary("x86_64", " ARM"), "semsan-arm");
    assert_eq!(semsan_binary("x86_64", " MIPS"), "semsan");
}

#[test]
fn semsan_arguments() {
    let plain: Vec<String> = [
        "--timeout", "5000", "--solution-exit-code", "71", "/bin/p", "/bin/s", "/w/seeds",
        "--solutions", "/w/solutions", "--run-seeds-once",
    ]
    .iter()
    .map(|x| x.to_string())
    .collect();
    assert_eq!(semsan_args(false, "/bin/p", "/bin/s", "/w/seeds", "/w/solutions"), plain);
    let mut custom = vec!["--comparator".to_string(), "custom".to_string()];
    custom.extend(plain);
    assert_eq!(semsan_args(true, "/bin/p", "/bin/s", "/w/seeds", "/w/solutions"), custom);
}

fn semsan_happy(code: Option<i32>) -> Vec<SemSanEvent> {
    vec![
        SemSanEvent::WorkdirCreated(true),
        SemSanEvent::SeedsDirCreated(true),
        SemSanEvent::SolutionsDirCreated(true),
        SemSanEvent::TestCaseCopied(true),
        SemSanEvent::TestCaseRead(Some(b"input".to_vec())),
        SemSanEvent::SecondaryInspected(Some(
            b"/bin/s: ELF 64-bit LSB executable, ARM aarch64, version 1".to_vec(),
        )),
        SemSanEvent::StderrFileCreated(true),
        SemSanEvent::SemSanExited(Some(code)),
    ]
}

#[test]
fn semsan_reproduces_on_exit_code_71() {
    let r = run(Some("/lib/cmp.so"), "x86_64");
    let mut events = semsan_happy(Some(71));
    events.push(SemSanEvent::StderrRead(Some(b"diff".to_vec())));
    let actions = semsan_drive(&r, events);
    match &actions[7] {
        SemSanAction::RunSemSan { program, args, preload } => {
            assert_eq!(program, "semsan-aarch64");
            assert_eq!(args[0], "--comparator");
            assert_eq!(preload.as_deref(), Some("/lib/cmp.so"));
        }
        _ => panic!(),
    }
    let sol = semsan_result(actions.into_iter().last().unwrap()).unwrap();
    assert_eq!(sol.cause, SolutionCause::ExitCode(71));
    assert_eq!(sol.input, b"input".to_vec());
    assert_eq!(sol.trace, b"diff".to_vec());
}

#[test]
fn semsan_copies_the_test_case_into_the_seeds_dir() {
    let r = run(None, "x86_64");
    let actions = semsan_drive(&r, semsan_happy(Some(71)));
    match &actions[3] {
        SemSanAction::CopyTestCase { from, to } => {
            assert_eq!(from, "/cases/crash-1");
            assert_eq!(to, "/w/seeds/crash-1");
        }
        _ => panic!("expected the copy of the test case"),
    }
    let mut r = run(None, "x86_64");
    r.test_case = "cases/./dir//".to_string();
    r.seeds_dir = "/w/seeds/".to_string();
    let actions = semsan_drive(&r, semsan_happy(Some(71)));
    match &actions[3] {
        SemSanAction::CopyTestCase { from, to } => {
            assert_eq!(from, "cases/./dir//");
            assert_eq!(to, "/w/seeds/dir");
        }
        _ => panic!("expected the copy of the test case"),
    }
}

#[test]
fn file_names_and_joined_paths() {
    assert_eq!(file_name("/usr/bin/"), Some("bin".to_string()));
    assert_eq!(file_name("tmp/foo.txt"), Some("foo.txt".to_string()));
    assert_eq!(file_name("foo.txt/."), Some("foo.txt".to_string()));
    assert_eq!(file_name("foo.txt/.//"), Some("foo.txt".to_string()));
    assert_eq!(file_name("foo.txt/.."), None);
    assert_eq!(file_name("/"), None);
    assert_eq!(file_name("."), None);
    assert_eq!(file_name(""), None);
    assert_eq!(file_name("x"), Some("x".to_string()));
    assert_eq!(path_join("/w/seeds", "x"), "/w/seeds/x");
    assert_eq!(path_join("/w/seeds/", "x"), "/w/seeds/x");
    assert_eq!(path_join("", "x"), "x");
}

#[test]
fn semsan_other_exit_is_not_reproducible() {
    let r = run(None, "x86_64");
    let actions = semsan_drive(&r, semsan_happy(Some(0)));
    assert_eq!(
        semsan_result(actions.into_iter().last().unwrap()).err(),
        Some(SemSanReproducerError::SolutionNotReproducible)
    );
    let actions = semsan_drive(&r, semsan_happy(None));
    assert_eq!(
        semsan_result(actions.into_iter().last().unwrap()).err(),
        Some(SemSanReproducerError::SolutionNotReproducible)
    );
}

#[test]
fn semsan_step_errors() {
    let r = run(None, "x86_64");
    let cases: Vec<(usize, SemSanEvent, SemSanReproducerError)> = vec![
        (0, SemSanEvent::WorkdirCreated(false), SemSanReproducerError::FailedToCreateWorkdir),
        (1, SemSanEvent::SeedsDirCreated(false), SemSanReproducerError::FailedToCreateSeedsDir),
        (2, SemSanEvent::SolutionsDirCreated(false), SemSanReproducerError::FailedToCreateSolutionsDir),
        (3, SemSanEvent::TestCaseCopied(false), SemSanReproducerError::FailedToCopyTestCase),
        (4, SemSanEvent::TestCaseRead(None), SemSanReproducerError::FailedToReadTestCase),
        (5, SemSanEvent::SecondaryInspected(None), SemSanReproducerError::FailedToParseFileInfo),
        (5, SemSanEvent::SecondaryInspected(Some(vec![0xff, b','])), SemSanReproducerError::FailedToParseFileInfo),
        (6, SemSanEvent::StderrFileCreated(false), SemSanReproducerError::FailedToCreateStderrFile),
        (7, SemSanEvent::SemSanExited(None), SemSanReproducerError::FailedToRunSemSan),
    ];
    for (at, failing, err) in cases {
        let mut events: Vec<SemSanEvent> = semsan_happy(Some(71)).into_iter().take(at).collect();
        events.push(failing);
        let actions = semsan_drive(&r, events);
        assert_eq!(semsan_result(actions.into_iter().last().unwrap()).err(), Some(err));
    }
    let mut events = semsan_happy(Some(71));
    events.push(SemSanEvent::StderrRead(None));
    assert_eq!(
        semsan_result(semsan_drive(&r, events).into_iter().last().unwrap()).err(),
        Some(SemSanReproducerError::FailedToReadStderrFile)
    );
}

#[test]
fn semsan_reproducer_holds_its_paths() {
    let r = SemSanReproducer::new("p".to_string(), "s".to_string(), "t".to_string());
    assert_eq!(r.primary_harness_binary, "p");
    assert_eq!(r.secondary_harness_binary, "s");
    assert_eq!(r.test_case, "t");
}

fn go_drive(r: &NativeGoReproducer, events: Vec<NativeGoEvent>) -> Vec<NativeGoAction> {
    let (mut stage, first) = native_go_start();
    let mut actions = vec![first];
    for e in events {
        let (s, a) = native_go_step(r, stage, e);
        stage = s;
        actions.push(a);
    }
    actions
}

fn go_result(a: NativeGoAction) -> Result<ReproducedSolution, NativeGoReproducerError> {
    match a {
        NativeGoAction::Finish(r) => r,
        _ => panic!("not finished"),
    }
}

const TRACE: &str = "--- FAIL: FuzzProbability (0.00s)\n    failure while testing seed corpus entry: FuzzProbability/771e938e4458e983\n    panic: normalization factor is zero\n";

#[test]
fn native_go_reproduces_the_failing_entry() {
    let r = NativeGoReproducer::new("/bin/harness".to_string());
    let actions = go_drive(
        &r,
        vec![
            NativeGoEvent::WorkdirCreated(true),
            NativeGoEvent::OutputFileCreated(true),
            NativeGoEvent::HarnessExited(Some(false)),
            NativeGoEvent::OutputRead(Some(TRACE.as_bytes().to_vec())),
        ],
    );
    match &actions[2] {
        NativeGoAction::RunHarness { program, args } => {
            assert_eq!(program, "bash");
            assert_eq!(args, &vec!["/bin/harness".to_string(), "/tmp".to_string()]);
        }
        _ => panic!(),
    }
    match &actions[4] {
        NativeGoAction::ReadTestCase { entry } => {
            assert_eq!(entry, "FuzzProbability/771e938e4458e983")
        }
        _ => panic!("expected the failing entry to be read"),
    }
    let actions = go_drive(
        &r,
        vec![
            NativeGoEvent::WorkdirCreated(true),
            NativeGoEvent::OutputFileCreated(true),
            NativeGoEvent::HarnessExited(Some(false)),
            NativeGoEvent::OutputRead(Some(TRACE.as_bytes().to_vec())),
            NativeGoEvent::TestCaseRead(Some(b"go test fuzz v1\n".to_vec())),
        ],
    );
    let sol = go_result(actions.into_iter().last().unwrap()).unwrap();
    assert_eq!(sol.cause, SolutionCause::Crash);
    assert_eq!(sol.input, b"go test fuzz v1\n".to_vec());
    assert_eq!(sol.trace, TRACE.as_bytes().to_vec());
}

#[test]
fn native_go_reads_the_first_named_entry_to_the_end_of_its_line() {
    let r = NativeGoReproducer::new("/bin/harness".to_string());
    let out = "ok\nfailure while testing seed corpus entry: A/1 x\r\nfailure while testing seed corpus entry: B/2\n";
    let actions = go_drive(
        &r,
        vec![
            NativeGoEvent::WorkdirCreated(true),
            NativeGoEvent::OutputFileCreated(true),
            NativeGoEvent::HarnessExited(Some(false)),
            NativeGoEvent::OutputRead(Some(out.as_bytes().to_vec())),
        ],
    );
    match &actions[4] {
        NativeGoAction::ReadTestCase { entry } => assert_eq!(entry, "A/1 x\r"),
        _ => panic!("expected the first failing entry to be read"),
    }
    let out = "failure while testing seed corpus entry: last";
    let actions = go_drive(
        &r,
        vec![
            NativeGoEvent::WorkdirCreated(true),
            NativeGoEvent::OutputFileCreated(true),
            NativeGoEvent::HarnessExited(Some(false)),
            NativeGoEvent::OutputRead(Some(out.as_bytes().to_vec())),
        ],
    );
    match &actions[4] {
        NativeGoAction::ReadTestCase { entry } => assert_eq!(entry, "last"),
        _ => panic!("expected the failing entry to be read"),
    }
}

#[test]
fn native_go_failures() {
    let r = NativeGoReproducer::new("/bin/harness".to_string());
    let ok_prefix = || {
        vec![
            NativeGoEvent::WorkdirCreated(true),
            NativeGoEvent::OutputFileCreated(true),
            NativeGoEvent::HarnessExited(Some(false)),
        ]
    };
    let cases: Vec<(Vec<NativeGoEvent>, NativeGoReproducerError)> = vec![
        (vec![NativeGoEvent::WorkdirCreated(false)], NativeGoReproducerError::FailedToCreateWorkdir),
        (
            vec![NativeGoEvent::WorkdirCreated(true), NativeGoEvent::OutputFileCreated(false)],
            NativeGoReproducerError::FailedToCreateOutputFile,
        ),
        (
            vec![
                NativeGoEvent::WorkdirCreated(true),
                NativeGoEvent::OutputFileCreated(true),
                NativeGoEvent::HarnessExited(None),
            ],
            NativeGoReproducerError::FailedToRunHarness,
        ),
        (
            vec![
                NativeGoEvent::WorkdirCreated(true),
                NativeGoEvent::OutputFileCreated(true),
                NativeGoEvent::HarnessExited(Some(true)),
            ],
            NativeGoReproducerError::SolutionNotReproducible,
        ),
        (
            { let mut v = ok_prefix(); v.push(NativeGoEvent::OutputRead(None)); v },
            NativeGoReproducerError::FailedToReadOutputFile,
        ),
        (
            { let mut v = ok_prefix(); v.push(NativeGoEvent::OutputRead(Some(vec![0xc3, 0x28]))); v },
            NativeGoReproducerError::FailedToReadOutputFile,
        ),
        (
            { let mut v = ok_prefix(); v.push(NativeGoEvent::OutputRead(Some(b"panic: boom\n".to_vec()))); v },
            NativeGoReproducerError::SolutionNotReproducible,
        ),
        (
            {
                let mut v = ok_prefix();
                v.push(NativeGoEvent::OutputRead(Some(TRACE.as_bytes().to_vec())));
                v.push(NativeGoEvent::TestCaseRead(None));
                v
            },
            NativeGoReproducerError::FailedToReadTestCase,
        ),
    ];
    for (events, err) in cases {
        let actions = go_drive(&r, events);
        assert_eq!(go_result(actions.into_iter().last().unwrap()).err(), Some(err));
    }
}

#[test]
fn native_go_located_without_capture() {
    let (stage, action) = native_go_located(vec![1], Some(None));
    assert!(matches!(stage, NativeGoStage::Done));
    assert_eq!(go_result(action).err(), Some(NativeGoReproducerError::SolutionNotReproducible));
    let (_, action) = native_go_located(vec![1], None);
    assert_eq!(go_result(action).err(), Some(NativeGoReproducerError::SolutionNotReproducible));
    let (stage, action) = native_go_located(vec![1], Some(Some("e".to_string())));
    assert!(matches!(stage, NativeGoStage::ReadingTestCase { ref trace } if trace == &vec![1u8]));
    assert!(matches!(action, NativeGoAction::ReadTestCase { ref entry } if entry == "e"));
}

#[test]
fn native_go_error_messages() {
    let all = [
        (NativeGoReproducerError::FailedToCreateWorkdir, "Failed to create workdir"),
        (NativeGoReproducerError::FailedToCreateOutputFile, "Failed to create output file"),
        (NativeGoReproducerError::FailedToRunHarness, "Failed to run harness"),
        (NativeGoReproducerError::FailedToReadTestCase, "Failed to read testcase"),
        (NativeGoReproducerError::FailedToReadOutputFile, "Failed to read output file"),
        (NativeGoReproducerError::SolutionNotReproducible, "Solution not reproducible"),
    ];
    for (e, m) in all {
        assert_eq!(e.message(), m);
    }
}
