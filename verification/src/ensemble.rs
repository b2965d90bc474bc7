use vstd::prelude::*;
use vstd::string::*;
use crate::text::{concat2, push_str, string_views};

verus! {

/// The arguments of the `rsync` run that copies the contents of `from`
/// into `to`, leaving files that already exist in `to` alone.
pub open spec fn spec_rsync_args(from: Seq<char>, to: Seq<char>) -> Seq<Seq<char>> {
    seq![
        "--recursive"@,
        "--archive"@,
        "--checksum"@,
        "--checksum-choice=sha1"@,
        "--compress"@,
        "--ignore-existing"@,
        from + "/"@,
        to,
    ]
}

/// Builds the arguments of the `rsync` run that syncs `from` into `to`.
pub fn rsync_args(from: &str, to: &str) -> (v: Vec<String>)
    ensures
        string_views(v@) == spec_rsync_args(from@, to@),
{
    let mut v: Vec<String> = Vec::new();
    push_str(&mut v, "--recursive");
    push_str(&mut v, "--archive");
    push_str(&mut v, "--checksum");
    push_str(&mut v, "--checksum-choice=sha1");
    push_str(&mut v, "--compress");
    push_str(&mut v, "--ignore-existing");
    let source = concat2(from, "/");
    let ghost before = v@;
    v.push(source);
    proof {
        assert(string_views(v@) =~= string_views(before).push(source@));
    }
    push_str(&mut v, to);
    proof {
        assert(string_views(v@) =~= spec_rsync_args(from@, to@));
    }
    v
}

/// The directories of one fuzzer instance that take part in ensembling:
/// the corpus it shares (push), the corpus it takes in (pull) and its
/// solution directories.
pub struct FuzzerDirs {
    pub push_corpus: Option<String>,
    pub pull_corpus: Option<String>,
    pub solutions: Vec<String>,
}

/// One directory sync: the contents of `from` are copied into `to`.
pub struct SyncOp {
    pub from: String,
    pub to: String,
}

pub open spec fn op_view(op: SyncOp) -> (Seq<char>, Seq<char>) {
    (op.from@, op.to@)
}

pub open spec fn ops_view(ops: Seq<SyncOp>) -> Seq<(Seq<char>, Seq<char>)> {
    ops.map_values(|op: SyncOp| op_view(op))
}

/// The syncs of every fuzzer's push corpus into the global corpus, in
/// fuzzer order.
pub open spec fn spec_push_syncs(fuzzers: Seq<FuzzerDirs>, global: Seq<char>) -> Seq<
    (Seq<char>, Seq<char>),
>
    decreases fuzzers.len(),
{
    if fuzzers.len() == 0 {
        Seq::empty()
    } else {
        spec_push_syncs(fuzzers.drop_last(), global) + match fuzzers.last().push_corpus {
            Some(p) => seq![(p@, global)],
            None => Seq::empty(),
        }
    }
}

/// The syncs of the global corpus into every fuzzer's pull corpus, in
/// fuzzer order.
pub open spec fn spec_pull_syncs(fuzzers: Seq<FuzzerDirs>, global: Seq<char>) -> Seq<
    (Seq<char>, Seq<char>),
>
    decreases fuzzers.len(),
{
    if fuzzers.len() == 0 {
        Seq::empty()
    } else {
        spec_pull_syncs(fuzzers.drop_last(), global) + match fuzzers.last().pull_corpus {
            Some(p) => seq![(global, p@)],
            None => Seq::empty(),
        }
    }
}

/// The syncs of every solution directory of every fuzzer into the global
/// solution directory, in fuzzer order.
pub open spec fn spec_solution_syncs(fuzzers: Seq<FuzzerDirs>, global: Seq<char>) -> Seq<
    (Seq<char>, Seq<char>),
>
    decreases fuzzers.len(),
{
    if fuzzers.len() == 0 {
        Seq::empty()
    } else {
        spec_solution_syncs(fuzzers.drop_last(), global) + string_views(
            fuzzers.last().solutions@,
        ).map_values(|d: Seq<char>| (d, global))
    }
}

/// One ensembling round: first every fuzzer shares its corpus with the
/// global corpus, then every fuzzer takes in the global corpus, then every
/// fuzzer's solutions are collected.
pub open spec fn spec_ensemble_plan(
    fuzzers: Seq<FuzzerDirs>,
    global_corpus: Seq<char>,
    global_solutions: Seq<char>,
) -> Seq<(Seq<char>, Seq<char>)> {
    spec_push_syncs(fuzzers, global_corpus) + spec_pull_syncs(fuzzers, global_corpus)
        + spec_solution_syncs(fuzzers, global_solutions)
}

fn push_op(ops: &mut Vec<SyncOp>, from: &str, to: &str)
    ensures
        ops_view(final(ops)@) == ops_view(old(ops)@).push((from@, to@)),
{
    ops.push(SyncOp { from: from.to_owned(), to: to.to_owned() });
    proof {
        assert(ops_view(ops@) =~= ops_view(old(ops)@).push((from@, to@)));
    }
}

/// The directory syncs of one ensembling round, in the order they are run.
pub fn ensemble_plan(fuzzers: &Vec<FuzzerDirs>, global_corpus: &str, global_solutions: &str) -> (r:
    Vec<SyncOp>)
    ensures
        ops_view(r@) == spec_ensemble_plan(fuzzers@, global_corpus@, global_solutions@),
{
    let mut ops: Vec<SyncOp> = Vec::new();
    let mut i: usize = 0;
    while i < fuzzers.len()
        invariant
            i <= fuzzers.len(),
            ops_view(ops@) == spec_push_syncs(fuzzers@.take(i as int), global_corpus@),
        decreases fuzzers.len() - i,
    {
        proof {
            assert(fuzzers@.take(i + 1).drop_last() == fuzzers@.take(i as int));
        }
        match &fuzzers[i].push_corpus {
            Some(p) => {
                push_op(&mut ops, p.as_str(), global_corpus);
                proof {
                    assert(ops_view(ops@) =~= spec_push_syncs(fuzzers@.take(i + 1), global_corpus@));
                }
            },
            None => {
                proof {
                    assert(ops_view(ops@) =~= spec_push_syncs(fuzzers@.take(i + 1), global_corpus@));
                }
            },
        }
        i = i + 1;
    }
    proof {
        assert(fuzzers@.take(fuzzers.len() as int) == fuzzers@);
    }
    let ghost pushes = ops_view(ops@);
    let mut i: usize = 0;
    while i < fuzzers.len()
        invariant
            i <= fuzzers.len(),
            pushes == spec_push_syncs(fuzzers@, global_corpus@),
            ops_view(ops@) == pushes + spec_pull_syncs(fuzzers@.take(i as int), global_corpus@),
        decreases fuzzers.len() - i,
    {
        proof {
            assert(fuzzers@.take(i + 1).drop_last() == fuzzers@.take(i as int));
        }
        match &fuzzers[i].pull_corpus {
            Some(p) => {
                push_op(&mut ops, global_corpus, p.as_str());
                proof {
                    assert(ops_view(ops@) =~= pushes + spec_pull_syncs(fuzzers@.take(i + 1), global_corpus@));
                }
            },
            None => {
                proof {
                    assert(ops_view(ops@) =~= pushes + spec_pull_syncs(fuzzers@.take(i + 1), global_corpus@));
                }
            },
        }
        i = i + 1;
    }
    proof {
        assert(fuzzers@.take(fuzzers.len() as int) == fuzzers@);
    }
    let ghost corpus_syncs = ops_view(ops@);
    let mut i: usize = 0;
    while i < fuzzers.len()
        invariant
            i <= fuzzers.len(),
            corpus_syncs == spec_push_syncs(fuzzers@, global_corpus@) + spec_pull_syncs(
                fuzzers@,
                global_corpus@,
            ),
            ops_view(ops@) == corpus_syncs + spec_solution_syncs(
                fuzzers@.take(i as int),
                global_solutions@,
            ),
        decreases fuzzers.len() - i,
    {
        proof {
            assert(fuzzers@.take(i + 1).drop_last() == fuzzers@.take(i as int));
        }
        let dirs = &fuzzers[i].solutions;
        let ghost before = ops_view(ops@);
        let mut j: usize = 0;
        while j < dirs.len()
            invariant
                j <= dirs.len(),
                ops_view(ops@) == before + string_views(dirs@.take(j as int)).map_values(
                    |d: Seq<char>| (d, global_solutions@),
                ),
            decreases dirs.len() - j,
        {
            push_op(&mut ops, dirs[j].as_str(), global_solutions);
            proof {
                assert(string_views(dirs@.take(j + 1)).map_values(
                    |d: Seq<char>| (d, global_solutions@),
                ) =~= string_views(dirs@.take(j as int)).map_values(
                    |d: Seq<char>| (d, global_solutions@),
                ).push((dirs@[j as int]@, global_solutions@)));
                assert(ops_view(ops@) =~= before + string_views(dirs@.take(j + 1)).map_values(
                    |d: Seq<char>| (d, global_solutions@),
                ));
            }
            j = j + 1;
        }
        proof {
            assert(dirs@.take(dirs.len() as int) == dirs@);
            assert(ops_view(ops@) =~= corpus_syncs + spec_solution_syncs(
                fuzzers@.take(i + 1),
                global_solutions@,
            ));
        }
        i = i + 1;
    }
    proof {
        assert(fuzzers@.take(fuzzers.len() as int) == fuzzers@);
    }
    ops
}

/// What wakes the ensemble task.
#[derive(PartialEq, Eq, Structural, Clone, Copy, Debug)]
pub enum EnsembleWake {
    /// The sync interval elapsed.
    SyncTick,
    /// The stats interval elapsed.
    StatsTick,
    /// The task was asked to stop.
    Quit,
}

/// What one round of the ensemble task does, decided when it wakes:
/// whether it is a stats-only round and whether it is the last round.
#[derive(PartialEq, Eq, Structural, Clone, Copy, Debug)]
pub struct EnsembleRound {
    pub only_stats: bool,
    pub last: bool,
}

/// The round the ensemble task runs after waking for `wake`: a stats-only
/// round for the stats interval, the last round when asked to stop.
pub open spec fn spec_ensemble_round(wake: EnsembleWake) -> EnsembleRound {
    EnsembleRound { only_stats: wake == EnsembleWake::StatsTick, last: wake == EnsembleWake::Quit }
}

/// Every round but a stats-only round syncs the fuzzers' directories; a
/// stats-only round syncs when the aggregated stats show solutions.
pub open spec fn spec_round_syncs(round: EnsembleRound, stats_have_solutions: bool) -> bool {
    !round.only_stats || stats_have_solutions
}

/// The round the ensemble task runs after waking for `wake`.
pub fn ensemble_round(wake: EnsembleWake) -> (r: EnsembleRound)
    ensures
        r == spec_ensemble_round(wake),
{
    match wake {
        EnsembleWake::SyncTick => EnsembleRound { only_stats: false, last: false },
        EnsembleWake::StatsTick => EnsembleRound { only_stats: true, last: false },
        EnsembleWake::Quit => EnsembleRound { only_stats: false, last: true },
    }
}

/// Whether a round syncs the fuzzers' directories, once the aggregated
/// stats tell whether any solution was found.
pub fn round_syncs(round: EnsembleRound, stats_have_solutions: bool) -> (r: bool)
    ensures
        r == spec_round_syncs(round, stats_have_solutions),
{
    !round.only_stats || stats_have_solutions
}

/// The ensemble task syncs on every wake-up except a stats-only wake-up
/// when no solution has been found; in particular, before it stops it
/// syncs one last time.
pub proof fn law_round_syncs(wake: EnsembleWake, stats_have_solutions: bool)
    ensures
        spec_round_syncs(spec_ensemble_round(wake), stats_have_solutions) == (wake
            != EnsembleWake::StatsTick || stats_have_solutions),
        spec_ensemble_round(wake).last ==> spec_round_syncs(
            spec_ensemble_round(wake),
            stats_have_solutions,
        ),
{
}

proof fn lemma_push_member(fuzzers: Seq<FuzzerDirs>, global: Seq<char>, i: int)
    requires
        0 <= i < fuzzers.len(),
        fuzzers[i].push_corpus is Some,
    ensures
        exists|a: int|
            0 <= a < spec_push_syncs(fuzzers, global).len() && #[trigger] spec_push_syncs(
                fuzzers,
                global,
            )[a] == (fuzzers[i].push_corpus->0@, global),
    decreases fuzzers.len(),
{
    let prefix = spec_push_syncs(fuzzers.drop_last(), global);
    if i == fuzzers.len() - 1 {
        assert(spec_push_syncs(fuzzers, global)[prefix.len() as int] == (
            fuzzers[i].push_corpus->0@,
            global,
        ));
    } else {
        lemma_push_member(fuzzers.drop_last(), global, i);
        let a = choose|a: int|
            0 <= a < prefix.len() && #[trigger] prefix[a] == (
                fuzzers.drop_last()[i].push_corpus->0@,
                global,
            );
        assert(spec_push_syncs(fuzzers, global)[a] == prefix[a]);
    }
}

proof fn lemma_pull_member(fuzzers: Seq<FuzzerDirs>, global: Seq<char>, i: int)
    requires
        0 <= i < fuzzers.len(),
        fuzzers[i].pull_corpus is Some,
    ensures
        exists|a: int|
            0 <= a < spec_pull_syncs(fuzzers, global).len() && #[trigger] spec_pull_syncs(
                fuzzers,
                global,
            )[a] == (global, fuzzers[i].pull_corpus->0@),
    decreases fuzzers.len(),
{
    let prefix = spec_pull_syncs(fuzzers.drop_last(), global);
    if i == fuzzers.len() - 1 {
        assert(spec_pull_syncs(fuzzers, global)[prefix.len() as int] == (
            global,
            fuzzers[i].pull_corpus->0@,
        ));
    } else {
        lemma_pull_member(fuzzers.drop_last(), global, i);
        let a = choose|a: int|
            0 <= a < prefix.len() && #[trigger] prefix[a] == (
                global,
                fuzzers.drop_last()[i].pull_corpus->0@,
            );
        assert(spec_pull_syncs(fuzzers, global)[a] == prefix[a]);
    }
}

proof fn lemma_solution_member(fuzzers: Seq<FuzzerDirs>, global: Seq<char>, i: int, d: int)
    requires
        0 <= i < fuzzers.len(),
        0 <= d < fuzzers[i].solutions@.len(),
    ensures
        spec_solution_syncs(fuzzers, global).contains((fuzzers[i].solutions@[d]@, global)),
    decreases fuzzers.len(),
{
    let prefix = spec_solution_syncs(fuzzers.drop_last(), global);
    let last = string_views(fuzzers.last().solutions@).map_values(
        |x: Seq<char>| (x, global),
    );
    if i == fuzzers.len() - 1 {
        assert(last[d] == (fuzzers[i].solutions@[d]@, global));
        assert(spec_solution_syncs(fuzzers, global)[prefix.len() + d] == last[d]);
    } else {
        lemma_solution_member(fuzzers.drop_last(), global, i, d);
        let a = choose|a: int|
            0 <= a < prefix.len() && #[trigger] prefix[a] == (
                fuzzers.drop_last()[i].solutions@[d]@,
                global,
            );
        assert(spec_solution_syncs(fuzzers, global)[a] == prefix[a]);
    }
}

/// In an ensembling round every fuzzer shares its corpus with the global
/// corpus before any fuzzer takes in the global corpus: for a fuzzer `i`
/// that shares its corpus and a fuzzer `j` that takes one in, the sync of
/// `i`'s corpus into the global corpus comes before the sync of the global
/// corpus into `j`'s.
pub proof fn law_corpora_shared_before_taken_in(
    fuzzers: Seq<FuzzerDirs>,
    global_corpus: Seq<char>,
    global_solutions: Seq<char>,
    i: int,
    j: int,
)
    requires
        0 <= i < fuzzers.len(),
        0 <= j < fuzzers.len(),
        fuzzers[i].push_corpus is Some,
        fuzzers[j].pull_corpus is Some,
    ensures
        exists|a: int, b: int|
            0 <= a < b < spec_ensemble_plan(fuzzers, global_corpus, global_solutions).len()
                && #[trigger] spec_ensemble_plan(fuzzers, global_corpus, global_solutions)[a] == (
                fuzzers[i].push_corpus->0@,
                global_corpus,
            ) && #[trigger] spec_ensemble_plan(fuzzers, global_corpus, global_solutions)[b] == (
                global_corpus,
                fuzzers[j].pull_corpus->0@,
            ),
{
    let plan = spec_ensemble_plan(fuzzers, global_corpus, global_solutions);
    let pushes = spec_push_syncs(fuzzers, global_corpus);
    let pulls = spec_pull_syncs(fuzzers, global_corpus);
    lemma_push_member(fuzzers, global_corpus, i);
    lemma_pull_member(fuzzers, global_corpus, j);
    let a = choose|a: int|
        0 <= a < pushes.len() && #[trigger] pushes[a] == (
            fuzzers[i].push_corpus->0@,
            global_corpus,
        );
    let b = choose|b: int|
        0 <= b < pulls.len() && #[trigger] pulls[b] == (global_corpus, fuzzers[j].pull_corpus->0@);
    assert(plan[a] == pushes[a]);
    assert(plan[pushes.len() + b] == pulls[b]);
}

/// An ensembling round collects every solution directory of every fuzzer
/// into the global solution directory.
pub proof fn law_every_solution_collected(
    fuzzers: Seq<FuzzerDirs>,
    global_corpus: Seq<char>,
    global_solutions: Seq<char>,
    i: int,
    d: int,
)
    requires
        0 <= i < fuzzers.len(),
        0 <= d < fuzzers[i].solutions@.len(),
    ensures
        spec_ensemble_plan(fuzzers, global_corpus, global_solutions).contains(
            (fuzzers[i].solutions@[d]@, global_solutions),
        ),
{
    let plan = spec_ensemble_plan(fuzzers, global_corpus, global_solutions);
    let corpus = spec_push_syncs(fuzzers, global_corpus) + spec_pull_syncs(fuzzers, global_corpus);
    let sols = spec_solution_syncs(fuzzers, global_solutions);
    lemma_solution_member(fuzzers, global_solutions, i, d);
    let a = choose|a: int|
        0 <= a < sols.len() && sols[a] == (fuzzers[i].solutions@[d]@, global_solutions);
    assert(plan[corpus.len() + a] == sols[a]);
}

} // verus!
