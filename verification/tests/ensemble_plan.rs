use fuzzor::ensemble::{
    ensemble_plan, ensemble_round, round_syncs, rsync_args, EnsembleWake, FuzzerDirs,
};

fn s(x: &str) -> String {
    x.to_string()
}

#[test]
fn rsync_arguments() {
    let expected: Vec<String> = [
        "--recursive",
        "--archive",
        "--checksum",
        "--checksum-choice=sha1",
        "--compress",
        "--ignore-existing",
        "/w/f0/queue/",
        "/w/corpus",
    ]
    .iter()
    .map(|x| x.to_string())
    .collect();
    assert_eq!(rsync_args("/w/f0/queue", "/w/corpus"), expected);
}

#[test]
fn plan_shares_before_taking_in_and_collects_solutions_last() {
    let fuzzers = vec![
        FuzzerDirs {
            push_corpus: Some(s("/f0/push")),
            pull_corpus: Some(s("/f0/pull")),
            solutions: vec![s("/f0/crashes"), s("/f0/hangs")],
        },
        FuzzerDirs { push_corpus: None, pull_corpus: Some(s("/f1/pull")), solutions: vec![] },
        FuzzerDirs { push_corpus: Some(s("/f2/push")), pull_corpus: None, solutions: vec![s("/f2/sol")] },
    ];
    let plan: Vec<(String, String)> = ensemble_plan(&fuzzers, "/g/corpus", "/g/solutions")
        .into_iter()
        .map(|op| (op.from, op.to))
        .collect();
    let expected = vec![
        (s("/f0/push"), s("/g/corpus")),
        (s("/f2/push"), s("/g/corpus")),
        (s("/g/corpus"), s("/f0/pull")),
        (s("/g/corpus"), s("/f1/pull")),
        (s("/f0/crashes"), s("/g/solutions")),
        (s("/f0/hangs"), s("/g/solutions")),
        (s("/f2/sol"), s("/g/solutions")),
    ];
    assert_eq!(plan, expected);
    assert!(ensemble_plan(&vec![], "/g/corpus", "/g/solutions").is_empty());
}

#[test]
fn rounds_and_when_they_sync() {
    let sync = ensemble_round(EnsembleWake::SyncTick);
    let stats = ensemble_round(EnsembleWake::StatsTick);
    let quit = ensemble_round(EnsembleWake::Quit);
    assert!(!sync.only_stats && !sync.last);
    assert!(stats.only_stats && !stats.last);
    assert!(!quit.only_stats && quit.last);
    assert!(round_syncs(sync, false));
    assert!(!round_syncs(stats, false));
    assert!(round_syncs(stats, true));
    assert!(round_syncs(quit, false));
}
