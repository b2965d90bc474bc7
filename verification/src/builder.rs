use vstd::prelude::*;
use vstd::string::*;
use crate::config::ProjectConfig;
use crate::names::{add_names, name_set, without_name};
use crate::revisions::Revision;
use crate::text::{
    concat2, decimal, join, lines, push_str, spec_decimal, spec_join, spec_lines, string_views,
    spec_split, digits_value, law_decimal_denotes, lemma_split_join,
};

verus! {

/// The outcome of building a project at a revision: the harnesses the
/// build produced (each name once) and the revision built.
pub struct ProjectBuild<R> {
    harnesses: Vec<String>,
    revision: R,
}

impl<R> ProjectBuild<R> {
    #[verifier::type_invariant]
    spec fn names_unique(self) -> bool {
        string_views(self.harnesses@).no_duplicates()
    }

    /// The names of the harnesses the build produced.
    pub closed spec fn harness_names(self) -> Set<Seq<char>> {
        name_set(self.harnesses@)
    }

    /// The revision that was built.
    pub closed spec fn built_revision(self) -> R {
        self.revision
    }

    /// The build of `revision` that produced the harnesses named in
    /// `harnesses` (a name listed twice is one harness).
    pub fn new(harnesses: Vec<String>, revision: R) -> (r: Self)
        ensures
            r.harness_names() == name_set(harnesses@),
            r.built_revision() == revision,
    {
        let mut unique: Vec<String> = Vec::new();
        proof {
            assert(name_set(unique@) =~= Set::empty());
        }
        add_names(&mut unique, harnesses);
        proof {
            assert(name_set(unique@) =~= name_set(harnesses@));
        }
        ProjectBuild { harnesses: unique, revision }
    }
}

impl<R: Revision> ProjectBuild<R> {
    /// The harnesses the build produced, each name once.
    pub fn harnesses(&self) -> (r: &Vec<String>)
        ensures
            name_set(r@) == self.harness_names(),
            string_views(r@).no_duplicates(),
    {
        proof {
            use_type_invariant(self);
        }
        &self.harnesses
    }

    /// The revision that was built.
    pub fn revision(&self) -> (r: &R)
        ensures
            *r == self.built_revision(),
    {
        &self.revision
    }
}

/// Builds project images with docker, on `num_builder_cores` cores taken
/// from the pool `cores`, and pushes them to `registry` when one is given.
pub struct DockerBuilder<C> {
    pub cores: C,
    pub num_builder_cores: usize,
    pub registry: Option<String>,
}

impl<C> DockerBuilder<C> {
    /// A builder that takes its cores from `cores`; images are pushed to
    /// `registry` when one is given.
    pub fn new(cores: C, num_builder_cores: usize, registry: Option<String>) -> (r: Self)
        ensures
            r.cores == cores,
            r.num_builder_cores == num_builder_cores,
            r.registry == registry,
    {
        DockerBuilder { cores, num_builder_cores, registry }
    }
}

/// The tag of a project's image: `<registry>/fuzzor-<name>:latest` when a
/// registry is configured, `fuzzor-<name>:latest` otherwise.
pub open spec fn spec_image_tag(name: Seq<char>, registry: Option<Seq<char>>) -> Seq<char> {
    match registry {
        Some(r) => r + "/fuzzor-"@ + name + ":latest"@,
        None => "fuzzor-"@ + name + ":latest"@,
    }
}

pub open spec fn opt_view(o: Option<String>) -> Option<Seq<char>> {
    match o {
        Some(s) => Some(s@),
        None => None,
    }
}

/// The tag under which the image of project `name` is built.
pub fn image_tag(name: &str, registry: &Option<String>) -> (r: String)
    ensures
        r@ == spec_image_tag(name@, opt_view(*registry)),
{
    let mut t = match registry {
        Some(reg) => concat2(reg.as_str(), "/fuzzor-"),
        None => String::from_str("fuzzor-"),
    };
    t.append(name);
    t.append(":latest");
    t
}

pub open spec fn pair_views(v: Seq<(String, String)>) -> Seq<(Seq<char>, Seq<char>)> {
    v.map_values(|p: (String, String)| (p.0@, p.1@))
}

/// The build arguments of a project image: the owner and repository of
/// the project, its branch when one is configured, and the revision.
pub open spec fn spec_build_args(
    owner: Seq<char>,
    repo: Seq<char>,
    branch: Option<Seq<char>>,
    revision: Seq<char>,
) -> Seq<(Seq<char>, Seq<char>)> {
    seq![("OWNER"@, owner), ("REPO"@, repo)] + match branch {
        Some(b) => seq![("BRANCH"@, b)],
        None => Seq::empty(),
    } + seq![("REVISION"@, revision)]
}

fn push_pair(v: &mut Vec<(String, String)>, k: &str, x: &str)
    ensures
        pair_views(final(v)@) == pair_views(old(v)@).push((k@, x@)),
{
    v.push((k.to_owned(), x.to_owned()));
    proof {
        assert(pair_views(v@) =~= pair_views(old(v)@).push((k@, x@)));
    }
}

/// The build arguments for building `config`'s project at `commit_hash`.
pub fn build_args(config: &ProjectConfig, commit_hash: &str) -> (r: Vec<(String, String)>)
    ensures
        pair_views(r@) == spec_build_args(
            config.owner@,
            config.repo@,
            opt_view(config.branch),
            commit_hash@,
        ),
{
    let mut v: Vec<(String, String)> = Vec::new();
    push_pair(&mut v, "OWNER", config.owner.as_str());
    push_pair(&mut v, "REPO", config.repo.as_str());
    match &config.branch {
        Some(b) => push_pair(&mut v, "BRANCH", b.as_str()),
        None => {},
    }
    push_pair(&mut v, "REVISION", commit_hash);
    proof {
        assert(pair_views(v@) =~= spec_build_args(
            config.owner@,
            config.repo@,
            opt_view(config.branch),
            commit_hash@,
        ));
    }
    v
}

/// The cpu set docker is given for a build on `cores`: their numbers in
/// decimal, separated by commas (e.g. `1,2,3`).
pub open spec fn spec_cpuset(cores: Seq<u64>) -> Seq<char> {
    spec_join(cores.map_values(|c: u64| spec_decimal(c as nat)), ","@)
}

/// The cpu set lists every core taken for the build, in order: split at
/// `','` it gives one field per core, the decimal digits of that core's
/// number (empty when no core was taken).
pub proof fn law_cpuset_lists_every_core(cores: Seq<u64>)
    ensures
        cores.len() == 0 ==> spec_cpuset(cores) == Seq::<char>::empty(),
        cores.len() > 0 ==> spec_split(spec_cpuset(cores), ',').len() == cores.len(),
        cores.len() > 0 ==> forall|i: int| 0 <= i < cores.len() ==> {
            let field = #[trigger] spec_split(spec_cpuset(cores), ',')[i];
            &&& field == spec_decimal(cores[i] as nat)
            &&& digits_value(field) == cores[i]
            &&& forall|j: int| 0 <= j < field.len() ==> '0' <= #[trigger] field[j] <= '9'
        },
{
    let parts = cores.map_values(|c: u64| spec_decimal(c as nat));
    if cores.len() > 0 {
        assert forall|i: int| 0 <= i < parts.len() implies !(#[trigger] parts[i]).contains(',') by {
            law_decimal_denotes(cores[i] as nat);
            if parts[i].contains(',') {
                let k = choose|k: int| 0 <= k < parts[i].len() && parts[i][k] == ',';
                assert('0' <= parts[i][k] <= '9');
            }
        }
        lemma_split_join(parts, ',');
        assert(seq![','] == ","@) by {
            reveal_strlit(",");
        }
        assert forall|i: int| 0 <= i < cores.len() implies {
            let field = #[trigger] spec_split(spec_cpuset(cores), ',')[i];
            &&& field == spec_decimal(cores[i] as nat)
            &&& digits_value(field) == cores[i]
            &&& forall|j: int| 0 <= j < field.len() ==> '0' <= #[trigger] field[j] <= '9'
        } by {
            law_decimal_denotes(cores[i] as nat);
        }
    } else {
        assert(parts.len() == 0);
    }
}

/// The cpu set docker is given for a build on `cores`.
pub fn cpuset(cores: &Vec<u64>) -> (r: String)
    ensures
        r@ == spec_cpuset(cores@),
{
    let mut parts: Vec<String> = Vec::new();
    let mut i: usize = 0;
    while i < cores.len()
        invariant
            i <= cores.len(),
            string_views(parts@) == cores@.take(i as int).map_values(
                |c: u64| spec_decimal(c as nat),
            ),
        decreases cores.len() - i,
    {
        let d = decimal(cores[i]);
        let ghost before = parts@;
        parts.push(d);
        proof {
            assert(string_views(parts@) =~= string_views(before).push(d@));
            assert(cores@.take(i + 1).map_values(|c: u64| spec_decimal(c as nat))
                =~= cores@.take(i as int).map_values(|c: u64| spec_decimal(c as nat)).push(d@));
        }
        i = i + 1;
    }
    proof {
        assert(cores@.take(cores.len() as int) == cores@);
    }
    join(&parts, ",")
}

/// The command run in a container of a project image to list its harnesses.
pub open spec fn spec_harness_listing_command() -> Seq<Seq<char>> {
    seq!["ls"@, "/workdir/out/libfuzzer"@]
}

/// What the image build stream reports.
pub enum BuildOutput {
    /// The build finished with the image of this id.
    ImageBuilt(String),
    /// A progress message or another entry.
    Progress,
    /// The stream reported an error.
    Failed,
}

/// The outcome of one entry of the image build stream: `None` while the
/// build goes on, otherwise its result (the image id and tag, or an error).
pub open spec fn spec_build_output(output: BuildOutput, tag: Seq<char>) -> Option<
    Result<(Seq<char>, Seq<char>), Seq<char>>,
> {
    match output {
        BuildOutput::ImageBuilt(id) => Some(Ok((id@, tag))),
        BuildOutput::Progress => None,
        BuildOutput::Failed => Some(Err("Could not build image"@)),
    }
}

pub open spec fn built_view(r: Result<(String, String), String>) -> Result<
    (Seq<char>, Seq<char>),
    Seq<char>,
> {
    match r {
        Ok((a, b)) => Ok((a@, b@)),
        Err(e) => Err(e@),
    }
}

/// Reads one entry of the image build stream of the image tagged `tag`.
pub fn build_output_step(output: BuildOutput, tag: &String) -> (r: Option<
    Result<(String, String), String>,
>)
    ensures
        match r {
            Some(x) => spec_build_output(output, tag@) == Some(built_view(x)),
            None => spec_build_output(output, tag@) is None,
        },
{
    match output {
        BuildOutput::ImageBuilt(id) => Some(Ok((id, tag.clone()))),
        BuildOutput::Progress => None,
        BuildOutput::Failed => Some(Err(String::from_str("Could not build image"))),
    }
}

/// The result of an image build whose stream ended without a result.
pub fn build_output_exhausted() -> (r: Result<(String, String), String>)
    ensures
        built_view(r) == Err::<(Seq<char>, Seq<char>), Seq<char>>("No items in build stream"@),
{
    Err(String::from_str("No items in build stream"))
}

/// Reads one entry of the image push stream: `None` while the push goes
/// on, `Some` of its (failed) result when the entry is an error.
pub fn push_output_step(failed: bool) -> (r: Option<Result<(), String>>)
    ensures
        failed ==> (r matches Some(Err(e)) && e@ == "Could not push image"@),
        !failed ==> r is None,
{
    if failed {
        Some(Err(String::from_str("Could not push image")))
    } else {
        None
    }
}

/// What a project build needs besides the outcomes of its steps.
pub struct BuildJob {
    /// Where the image is pushed, when anywhere.
    pub registry: Option<String>,
    /// How many cores the image build runs on.
    pub num_builder_cores: usize,
    /// Whether the harness named `fuzz` is dropped from the listing (it is
    /// the project's generic fuzz binary when the project selects harnesses
    /// through an environment variable).
    pub drops_fuzz: bool,
    pub tag: String,
    pub build_args: Vec<(String, String)>,
}

/// The job of building `config`'s project at the revision whose head is
/// `commit_hash` with `builder`.
pub fn build_job<C>(builder: &DockerBuilder<C>, config: &ProjectConfig, commit_hash: &str) -> (j:
    BuildJob)
    ensures
        opt_view(j.registry) == opt_view(builder.registry),
        j.num_builder_cores == builder.num_builder_cores,
        j.drops_fuzz == config.fuzz_env_var is Some,
        j.tag@ == spec_image_tag(config.name@, opt_view(builder.registry)),
        pair_views(j.build_args@) == spec_build_args(
            config.owner@,
            config.repo@,
            opt_view(config.branch),
            commit_hash@,
        ),
{
    let registry = match &builder.registry {
        Some(r) => Some(r.clone()),
        None => None,
    };
    let tag = image_tag(config.name.as_str(), &builder.registry);
    let args = build_args(config, commit_hash);
    BuildJob {
        registry,
        num_builder_cores: builder.num_builder_cores,
        drops_fuzz: config.fuzz_env_var.is_some(),
        tag,
        build_args: args,
    }
}

/// Where a project build stands.
pub enum BuildStage {
    Connecting,
    TakingCores,
    BuildingImage { cores: Vec<u64> },
    ReleasingCores { built: Result<(String, String), String> },
    Pushing { image: String },
    CreatingContainer,
    StartingContainer { container: String },
    CreatingExec { container: String },
    StartingExec { container: String },
    /// Reading the listing; `output` is all of it read so far.
    ReadingListing { container: String, output: String },
    RemovingContainer { container: String, names: Vec<String> },
    Done,
}

/// The outcome of the step a project build asked for.  Errors carry the
/// text of the docker error.
pub enum BuildEvent {
    Connected(Result<(), String>),
    CoresTaken(Vec<u64>),
    /// The result of the image build stream (see `build_output_step`).
    ImageBuilt(Result<(String, String), String>),
    CoresReleased,
    /// The result of the image push stream (see `push_output_step`).
    Pushed(Result<(), String>),
    ContainerCreated(Result<String, String>),
    ContainerStarted(Result<(), String>),
    ExecCreated(Result<String, String>),
    /// `Ok(true)` when the output of the exec is attached.
    ExecStarted(Result<bool, String>),
    /// The next chunk of the listing's output; `None` at its end or when
    /// reading it fails.
    ListingRead(Option<String>),
    ContainerRemoved(Result<(), String>),
}

/// The step a project build asks to be done next.
pub enum BuildAction {
    Connect,
    /// Take this many cores from the builder's pool.
    TakeCores(u32),
    /// Build the image with the job's tag and build arguments on the cpu
    /// set `cpuset`.
    BuildImage { cpuset: String },
    /// Give these cores back to the builder's pool.
    ReleaseCores(Vec<u64>),
    PushImage { tag: String },
    /// Create a container (with a terminal) of the image `image`.
    CreateContainer { image: String },
    StartContainer { container: String },
    /// Create an exec of `cmd` in `container`, its output attached.
    CreateExec { container: String, cmd: Vec<String> },
    StartExec { exec_id: String },
    ReadListing,
    /// Remove `container`, forcefully.
    RemoveContainer { container: String },
    /// The build is over: the names of the harnesses it produced, or an
    /// error.
    Finish(Result<Vec<String>, String>),
}

/// Whether `event` is the outcome of the step that `stage` waits for.
pub open spec fn build_expects(stage: BuildStage, event: BuildEvent) -> bool {
    match stage {
        BuildStage::Connecting => event is Connected,
        BuildStage::TakingCores => event is CoresTaken,
        BuildStage::BuildingImage { .. } => event is ImageBuilt,
        BuildStage::ReleasingCores { .. } => event is CoresReleased,
        BuildStage::Pushing { .. } => event is Pushed,
        BuildStage::CreatingContainer => event is ContainerCreated,
        BuildStage::StartingContainer { .. } => event is ContainerStarted,
        BuildStage::CreatingExec { .. } => event is ExecCreated,
        BuildStage::StartingExec { .. } => event is ExecStarted,
        BuildStage::ReadingListing { .. } => event is ListingRead,
        BuildStage::RemovingContainer { .. } => event is ContainerRemoved,
        BuildStage::Done => false,
    }
}

/// The harness names a stage has collected hold every name once.
pub open spec fn build_stage_wf(stage: BuildStage) -> bool {
    match stage {
        BuildStage::RemovingContainer { names, .. } => string_views(names@).no_duplicates(),
        _ => true,
    }
}

/// The build is over with the error `msg`.
pub open spec fn build_fails(next: BuildStage, action: BuildAction, msg: Seq<char>) -> bool {
    &&& next is Done
    &&& action matches BuildAction::Finish(Err(m))
    &&& m@ == msg
}

/// The harness names a finished build reports for the names `listed` by
/// its image: all of them, without `fuzz` when the job drops it.
pub open spec fn spec_reported_harnesses(listed: Set<Seq<char>>, drops_fuzz: bool) -> Set<
    Seq<char>,
> {
    if drops_fuzz {
        listed.remove("fuzz"@)
    } else {
        listed
    }
}

/// How one step of a project build goes: the next stage and action after
/// `event` arrives in `stage`.
pub open spec fn build_step_spec(
    job: BuildJob,
    stage: BuildStage,
    event: BuildEvent,
    next: BuildStage,
    action: BuildAction,
) -> bool {
    match event {
        BuildEvent::Connected(r) => match r {
            Ok(_) => next is TakingCores && action == BuildAction::TakeCores(
                job.num_builder_cores as u32,
            ),
            Err(e) => build_fails(next, action, "Could not connect to docker daemon: "@ + e@),
        },
        BuildEvent::CoresTaken(cores) => {
            &&& next == (BuildStage::BuildingImage { cores })
            &&& action matches BuildAction::BuildImage { cpuset }
            &&& cpuset@ == spec_cpuset(cores@)
        },
        BuildEvent::ImageBuilt(built) => {
            &&& stage matches BuildStage::BuildingImage { cores }
            &&& next == (BuildStage::ReleasingCores { built })
            &&& action == BuildAction::ReleaseCores(cores)
        },
        BuildEvent::CoresReleased => {
            &&& stage matches BuildStage::ReleasingCores { built }
            &&& match built {
                Err(e) => build_fails(next, action, e@),
                Ok((image, tag)) => if job.registry is Some {
                    &&& next == (BuildStage::Pushing { image })
                    &&& action matches BuildAction::PushImage { tag: t }
                    &&& t@ == tag@
                } else {
                    &&& next is CreatingContainer
                    &&& action matches BuildAction::CreateContainer { image: i }
                    &&& i@ == image@
                },
            }
        },
        BuildEvent::Pushed(r) => match r {
            Ok(_) => {
                &&& stage matches BuildStage::Pushing { image }
                &&& next is CreatingContainer
                &&& action matches BuildAction::CreateContainer { image: i }
                &&& i@ == image@
            },
            Err(e) => build_fails(next, action, e@),
        },
        BuildEvent::ContainerCreated(r) => match r {
            Ok(container) => {
                &&& next matches BuildStage::StartingContainer { container: c }
                &&& c@ == container@
                &&& action matches BuildAction::StartContainer { container: a }
                &&& a@ == container@
            },
            Err(e) => build_fails(next, action, "Could not create container: "@ + e@),
        },
        BuildEvent::ContainerStarted(r) => match r {
            Ok(_) => {
                &&& stage matches BuildStage::StartingContainer { container }
                &&& next matches BuildStage::CreatingExec { container: c }
                &&& c@ == container@
                &&& action matches BuildAction::CreateExec { container: a, cmd }
                &&& a@ == container@
                &&& string_views(cmd@) == spec_harness_listing_command()
            },
            Err(e) => build_fails(next, action, "Could not create exec in container: "@ + e@),
        },
        BuildEvent::ExecCreated(r) => match r {
            Ok(exec_id) => {
                &&& stage matches BuildStage::CreatingExec { container }
                &&& next matches BuildStage::StartingExec { container: c }
                &&& c@ == container@
                &&& action matches BuildAction::StartExec { exec_id: x }
                &&& x@ == exec_id@
            },
            Err(e) => build_fails(next, action, "Could not create exec in container: "@ + e@),
        },
        BuildEvent::ExecStarted(r) => match r {
            Ok(attached) => {
                &&& stage matches BuildStage::StartingExec { container }
                &&& if attached {
                    &&& next matches BuildStage::ReadingListing { container: c, output }
                    &&& c@ == container@
                    &&& output@.len() == 0
                    &&& action is ReadListing
                } else {
                    &&& next matches BuildStage::RemovingContainer { container: c, names }
                    &&& c@ == container@
                    &&& names@.len() == 0
                    &&& action matches BuildAction::RemoveContainer { container: a }
                    &&& a@ == container@
                }
            },
            Err(e) => build_fails(next, action, "Could not start exec in container: "@ + e@),
        },
        BuildEvent::ListingRead(chunk) => {
            &&& stage matches BuildStage::ReadingListing { container, output }
            &&& match chunk {
                Some(text) => {
                    &&& next matches BuildStage::ReadingListing { container: c, output: o }
                    &&& c@ == container@
                    &&& o@ == output@ + text@
                    &&& action is ReadListing
                },
                None => {
                    &&& next matches BuildStage::RemovingContainer { container: c, names: n }
                    &&& c@ == container@
                    &&& name_set(n@) == spec_lines(output@).to_set()
                    &&& action matches BuildAction::RemoveContainer { container: a }
                    &&& a@ == container@
                },
            }
        },
        BuildEvent::ContainerRemoved(r) => match r {
            Ok(_) => {
                &&& stage matches BuildStage::RemovingContainer { names, .. }
                &&& next is Done
                &&& action matches BuildAction::Finish(Ok(v))
                &&& string_views(v@).no_duplicates()
                &&& name_set(v@) == spec_reported_harnesses(name_set(names@), job.drops_fuzz)
            },
            Err(e) => build_fails(next, action, "Could not remove container: "@ + e@),
        },
    }
}

/// The first stage of a project build and the step it asks for.
pub fn build_start() -> (r: (BuildStage, BuildAction))
    ensures
        r.0 is Connecting,
        r.1 is Connect,
{
    (BuildStage::Connecting, BuildAction::Connect)
}

fn build_failure(prefix: &str, e: String) -> (r: (BuildStage, BuildAction))
    ensures
        build_fails(r.0, r.1, prefix@ + e@),
{
    (BuildStage::Done, BuildAction::Finish(Err(concat2(prefix, e.as_str()))))
}

/// Advances a project build by the outcome of the step it asked for.
pub fn build_step(job: &BuildJob, stage: BuildStage, event: BuildEvent) -> (r: (
    BuildStage,
    BuildAction,
))
    requires
        build_expects(stage, event),
        build_stage_wf(stage),
    ensures
        build_step_spec(*job, stage, event, r.0, r.1),
        build_stage_wf(r.0),
{
    match event {
        BuildEvent::Connected(r) => match r {
            Ok(_) => (BuildStage::TakingCores, BuildAction::TakeCores(job.num_builder_cores as u32)),
            Err(e) => build_failure("Could not connect to docker daemon: ", e),
        },
        BuildEvent::CoresTaken(cores) => {
            let c = cpuset(&cores);
            (BuildStage::BuildingImage { cores }, BuildAction::BuildImage { cpuset: c })
        },
        BuildEvent::ImageBuilt(built) => match stage {
            BuildStage::BuildingImage { cores } => (
                BuildStage::ReleasingCores { built },
                BuildAction::ReleaseCores(cores),
            ),
            _ => {
                proof {
                    assert(false);
                }
                (BuildStage::Done, BuildAction::Connect)
            },
        },
        BuildEvent::CoresReleased => match stage {
            BuildStage::ReleasingCores { built } => match built {
                Err(e) => (BuildStage::Done, BuildAction::Finish(Err(e))),
                Ok((image, tag)) => if job.registry.is_some() {
                    (BuildStage::Pushing { image }, BuildAction::PushImage { tag })
                } else {
                    (BuildStage::CreatingContainer, BuildAction::CreateContainer { image })
                },
            },
            _ => {
                proof {
                    assert(false);
                }
                (BuildStage::Done, BuildAction::Connect)
            },
        },
        BuildEvent::Pushed(r) => match r {
            Ok(_) => match stage {
                BuildStage::Pushing { image } => (
                    BuildStage::CreatingContainer,
                    BuildAction::CreateContainer { image },
                ),
                _ => {
                    proof {
                        assert(false);
                    }
                    (BuildStage::Done, BuildAction::Connect)
                },
            },
            Err(e) => (BuildStage::Done, BuildAction::Finish(Err(e))),
        },
        BuildEvent::ContainerCreated(r) => match r {
            Ok(container) => {
                let a = container.clone();
                (BuildStage::StartingContainer { container }, BuildAction::StartContainer { container: a })
            },
            Err(e) => build_failure("Could not create container: ", e),
        },
        BuildEvent::ContainerStarted(r) => match r {
            Ok(_) => match stage {
                BuildStage::StartingContainer { container } => {
                    let a = container.clone();
                    let mut cmd: Vec<String> = Vec::new();
                    push_str(&mut cmd, "ls");
                    push_str(&mut cmd, "/workdir/out/libfuzzer");
                    proof {
                        assert(string_views(cmd@) =~= spec_harness_listing_command());
                    }
                    (
                        BuildStage::CreatingExec { container },
                        BuildAction::CreateExec { container: a, cmd },
                    )
                },
                _ => {
                    proof {
                        assert(false);
                    }
                    (BuildStage::Done, BuildAction::Connect)
                },
            },
            Err(e) => build_failure("Could not create exec in container: ", e),
        },
        BuildEvent::ExecCreated(r) => match r {
            Ok(exec_id) => match stage {
                BuildStage::CreatingExec { container } => (
                    BuildStage::StartingExec { container },
                    BuildAction::StartExec { exec_id },
                ),
                _ => {
                    proof {
                        assert(false);
                    }
                    (BuildStage::Done, BuildAction::Connect)
                },
            },
            Err(e) => build_failure("Could not create exec in container: ", e),
        },
        BuildEvent::ExecStarted(r) => match r {
            Ok(attached) => match stage {
                BuildStage::StartingExec { container } => {
                    if attached {
                        let output = String::new();
                        (BuildStage::ReadingListing { container, output }, BuildAction::ReadListing)
                    } else {
                        let names: Vec<String> = Vec::new();
                        proof {
                            assert(string_views(names@) =~= Seq::empty());
                        }
                        let a = container.clone();
                        (
                            BuildStage::RemovingContainer { container, names },
                            BuildAction::RemoveContainer { container: a },
                        )
                    }
                },
                _ => {
                    proof {
                        assert(false);
                    }
                    (BuildStage::Done, BuildAction::Connect)
                },
            },
            Err(e) => build_failure("Could not start exec in container: ", e),
        },
        BuildEvent::ListingRead(chunk) => match stage {
            BuildStage::ReadingListing { container, output } => match chunk {
                Some(text) => {
                    let mut output = output;
                    output.append(text.as_str());
                    (BuildStage::ReadingListing { container, output }, BuildAction::ReadListing)
                },
                None => {
                    let mut names: Vec<String> = Vec::new();
                    proof {
                        assert(name_set(names@) =~= Set::empty());
                    }
                    add_names(&mut names, lines(output.as_str()));
                    proof {
                        assert(name_set(names@) =~= spec_lines(output@).to_set());
                    }
                    let a = container.clone();
                    (
                        BuildStage::RemovingContainer { container, names },
                        BuildAction::RemoveContainer { container: a },
                    )
                },
            },
            _ => {
                proof {
                    assert(false);
                }
                (BuildStage::Done, BuildAction::Connect)
            },
        },
        BuildEvent::ContainerRemoved(r) => match r {
            Ok(_) => match stage {
                BuildStage::RemovingContainer { names, .. } => {
                    let reported = if job.drops_fuzz {
                        without_name(names, "fuzz")
                    } else {
                        names
                    };
                    (BuildStage::Done, BuildAction::Finish(Ok(reported)))
                },
                _ => {
                    proof {
                        assert(false);
                    }
                    (BuildStage::Done, BuildAction::Connect)
                },
            },
            Err(e) => build_failure("Could not remove container: ", e),
        },
    }
}


/// A run of a project build: `stages[i]` is where it stood when
/// `events[i]` arrived, leading to `stages[i + 1]` and `actions[i]`.
pub open spec fn build_trace(
    job: BuildJob,
    stages: Seq<BuildStage>,
    events: Seq<BuildEvent>,
    actions: Seq<BuildAction>,
) -> bool {
    &&& stages.len() == events.len() + 1
    &&& actions.len() == events.len()
    &&& stages[0] is Connecting
    &&& forall|i: int|
        0 <= i < events.len() ==> build_expects(stages[i], #[trigger] events[i])
            && build_step_spec(job, stages[i], events[i], stages[i + 1], actions[i])
}

/// The stages in which the image has been built and, when a registry is
/// configured, pushed.
pub open spec fn build_past_push(stage: BuildStage) -> bool {
    match stage {
        BuildStage::CreatingContainer => true,
        BuildStage::StartingContainer { .. } => true,
        BuildStage::CreatingExec { .. } => true,
        BuildStage::StartingExec { .. } => true,
        BuildStage::ReadingListing { .. } => true,
        BuildStage::RemovingContainer { .. } => true,
        _ => false,
    }
}

/// A build gives back exactly the cores it took, before it finishes.
pub proof fn law_build_returns_its_cores(
    job: BuildJob,
    stages: Seq<BuildStage>,
    events: Seq<BuildEvent>,
    actions: Seq<BuildAction>,
    t: int,
    k: int,
    cores: Vec<u64>,
)
    requires
        build_trace(job, stages, events, actions),
        0 <= t < k < actions.len(),
        events[t] == BuildEvent::CoresTaken(cores),
        actions[k] is Finish,
    ensures
        exists|m: int| t < m < k && #[trigger] actions[m] == BuildAction::ReleaseCores(cores),
{
    assert(build_expects(stages[t], events[t]));
    assert(build_step_spec(job, stages[t], events[t], stages[t + 1], actions[t]));
    assert(t + 1 < events.len());
    assert(build_expects(stages[t + 1], events[t + 1]));
    assert(build_step_spec(job, stages[t + 1], events[t + 1], stages[t + 2], actions[t + 1]));
    assert(actions[t + 1] == BuildAction::ReleaseCores(cores));
}

/// A build pushes its image only when a registry is configured.
pub proof fn law_build_pushes_only_to_a_registry(
    job: BuildJob,
    stages: Seq<BuildStage>,
    events: Seq<BuildEvent>,
    actions: Seq<BuildAction>,
    k: int,
)
    requires
        build_trace(job, stages, events, actions),
        0 <= k < actions.len(),
        actions[k] is PushImage,
    ensures
        job.registry is Some,
{
    assert(build_expects(stages[k], events[k]));
    assert(build_step_spec(job, stages[k], events[k], stages[k + 1], actions[k]));
}

proof fn lemma_build_pushed_before(
    job: BuildJob,
    stages: Seq<BuildStage>,
    events: Seq<BuildEvent>,
    actions: Seq<BuildAction>,
    i: int,
)
    requires
        build_trace(job, stages, events, actions),
        0 <= i < stages.len(),
        job.registry is Some,
    ensures
        build_past_push(stages[i]) ==> exists|m: int|
            0 <= m < i && (#[trigger] actions[m]) is PushImage,
    decreases i,
{
    if i > 0 {
        lemma_build_pushed_before(job, stages, events, actions, i - 1);
        let p: int = i - 1;
        assert(build_expects(stages[p], events[p]));
        assert(build_step_spec(job, stages[p], events[p], stages[i], actions[p]));
        if build_past_push(stages[i]) && !build_past_push(stages[p]) {
            assert(stages[p] is Pushing);
            lemma_build_pushing_after_push(job, stages, events, actions, p);
        }
    }
}

proof fn lemma_build_pushing_after_push(
    job: BuildJob,
    stages: Seq<BuildStage>,
    events: Seq<BuildEvent>,
    actions: Seq<BuildAction>,
    i: int,
)
    requires
        build_trace(job, stages, events, actions),
        0 <= i < stages.len(),
        stages[i] is Pushing,
    ensures
        exists|m: int| 0 <= m < i && (#[trigger] actions[m]) is PushImage,
{
    assert(i > 0);
    let p: int = i - 1;
    assert(build_expects(stages[p], events[p]));
    assert(build_step_spec(job, stages[p], events[p], stages[i], actions[p]));
    assert(actions[p] is PushImage);
}

/// When a registry is configured, a build that finishes with the list of
/// its harnesses has pushed its image.
pub proof fn law_build_with_registry_pushes(
    job: BuildJob,
    stages: Seq<BuildStage>,
    events: Seq<BuildEvent>,
    actions: Seq<BuildAction>,
    k: int,
)
    requires
        build_trace(job, stages, events, actions),
        0 <= k < actions.len(),
        actions[k] matches BuildAction::Finish(Ok(_)),
        job.registry is Some,
    ensures
        exists|m: int| 0 <= m < k && (#[trigger] actions[m]) is PushImage,
{
    assert(build_expects(stages[k], events[k]));
    assert(build_step_spec(job, stages[k], events[k], stages[k + 1], actions[k]));
    lemma_build_pushed_before(job, stages, events, actions, k);
}

/// When harnesses are selected through an environment variable, the
/// harnesses a build reports never include the generic `fuzz` binary; all
/// other listed names are reported.
pub proof fn law_build_drops_fuzz(
    job: BuildJob,
    container: String,
    listed: Vec<String>,
    event: BuildEvent,
    next: BuildStage,
    names: Vec<String>,
)
    requires
        build_step_spec(
            job,
            BuildStage::RemovingContainer { container, names: listed },
            event,
            next,
            BuildAction::Finish(Ok(names)),
        ),
        job.drops_fuzz,
    ensures
        !name_set(names@).contains("fuzz"@),
        forall|n: Seq<char>|
            n != "fuzz"@ ==> (name_set(names@).contains(n) <==> name_set(listed@).contains(n)),
{
}


/// The container an event reports created, if any.
pub open spec fn created_container(event: BuildEvent) -> Option<Seq<char>> {
    match event {
        BuildEvent::ContainerCreated(Ok(c)) => Some(c@),
        _ => None,
    }
}

/// The container an action removes, if any.
pub open spec fn removed_container(action: BuildAction) -> Option<Seq<char>> {
    match action {
        BuildAction::RemoveContainer { container } => Some(container@),
        _ => None,
    }
}

/// The container a stage works in, if any.
pub open spec fn stage_container(stage: BuildStage) -> Option<Seq<char>> {
    match stage {
        BuildStage::StartingContainer { container } => Some(container@),
        BuildStage::CreatingExec { container } => Some(container@),
        BuildStage::StartingExec { container } => Some(container@),
        BuildStage::ReadingListing { container, .. } => Some(container@),
        BuildStage::RemovingContainer { container, .. } => Some(container@),
        _ => None,
    }
}

proof fn lemma_build_container_created(
    job: BuildJob,
    stages: Seq<BuildStage>,
    events: Seq<BuildEvent>,
    actions: Seq<BuildAction>,
    i: int,
)
    requires
        build_trace(job, stages, events, actions),
        0 <= i < stages.len(),
    ensures
        stage_container(stages[i]) is Some ==> exists|e: int|
            0 <= e < i && #[trigger] created_container(events[e]) == stage_container(stages[i]),
    decreases i,
{
    if i > 0 {
        lemma_build_container_created(job, stages, events, actions, i - 1);
        let p: int = i - 1;
        assert(build_expects(stages[p], events[p]));
        assert(build_step_spec(job, stages[p], events[p], stages[i], actions[p]));
        if stage_container(stages[i]) is Some {
            if created_container(events[p]) is Some {
                assert(created_container(events[p]) == stage_container(stages[i]));
            } else {
                assert(stage_container(stages[p]) == stage_container(stages[i]));
            }
        }
    }
}

/// A build that finishes with the list of its harnesses has removed the
/// container it created to list them.
pub proof fn law_build_removes_its_container(
    job: BuildJob,
    stages: Seq<BuildStage>,
    events: Seq<BuildEvent>,
    actions: Seq<BuildAction>,
    k: int,
)
    requires
        build_trace(job, stages, events, actions),
        0 <= k < actions.len(),
        actions[k] matches BuildAction::Finish(Ok(_)),
    ensures
        exists|e: int, m: int|
            0 <= e < m < k && #[trigger] created_container(events[e]) is Some
                && #[trigger] removed_container(actions[m]) == created_container(events[e]),
{
    assert(build_expects(stages[k], events[k]));
    assert(build_step_spec(job, stages[k], events[k], stages[k + 1], actions[k]));
    assert(stages[k] is RemovingContainer);
    assert(k > 0);
    let p: int = k - 1;
    assert(build_expects(stages[p], events[p]));
    assert(build_step_spec(job, stages[p], events[p], stages[k], actions[p]));
    assert(removed_container(actions[p]) == stage_container(stages[k]));
    lemma_build_container_created(job, stages, events, actions, p);
    assert(stage_container(stages[p]) == stage_container(stages[k]));
    let e = choose|e: int|
        0 <= e < p && #[trigger] created_container(events[e]) == stage_container(stages[p]);
    assert(removed_container(actions[p]) == created_container(events[e]));
}


/// The text of the listing chunks among `events`, joined in order.
pub open spec fn listed_text(events: Seq<BuildEvent>) -> Seq<char>
    decreases events.len(),
{
    if events.len() == 0 {
        Seq::empty()
    } else {
        listed_text(events.drop_last()) + match events.last() {
            BuildEvent::ListingRead(Some(t)) => t@,
            _ => Seq::empty(),
        }
    }
}

proof fn lemma_build_listing(
    job: BuildJob,
    stages: Seq<BuildStage>,
    events: Seq<BuildEvent>,
    actions: Seq<BuildAction>,
    i: int,
)
    requires
        build_trace(job, stages, events, actions),
        0 <= i < stages.len(),
    ensures
        stages[i] matches BuildStage::ReadingListing { output, .. } ==> output@ == listed_text(
            events.take(i),
        ),
        stages[i] matches BuildStage::RemovingContainer { names, .. } ==> name_set(names@)
            == spec_lines(listed_text(events.take(i))).to_set(),
        !(stages[i] is ReadingListing || stages[i] is RemovingContainer || stages[i] is Done)
            ==> listed_text(events.take(i)).len() == 0,
    decreases i,
{
    if i == 0 {
        assert(events.take(0).len() == 0);
    } else {
        lemma_build_listing(job, stages, events, actions, i - 1);
        let p: int = i - 1;
        assert(build_expects(stages[p], events[p]));
        assert(build_step_spec(job, stages[p], events[p], stages[i], actions[p]));
        assert(events.take(i).drop_last() == events.take(p));
        assert(events.take(i).last() == events[p]);
        if !(stages[p] is ReadingListing) {
            assert(listed_text(events.take(i)) == listed_text(events.take(p)));
        }
        if stages[i] is RemovingContainer && stages[p] is StartingExec {
            assert(spec_lines(Seq::<char>::empty()) =~= Seq::<Seq<char>>::empty());
            assert(spec_lines(listed_text(events.take(i))).to_set() =~= Set::empty());
        }
    }
}

/// A build reports as harnesses the lines of the whole listing it read
/// (without `fuzz` when the job drops it), joined from its chunks in
/// order: how the listing was cut into chunks does not matter.
pub proof fn law_build_lists_whole_listing(
    job: BuildJob,
    stages: Seq<BuildStage>,
    events: Seq<BuildEvent>,
    actions: Seq<BuildAction>,
    k: int,
    names: Vec<String>,
)
    requires
        build_trace(job, stages, events, actions),
        0 <= k < actions.len(),
        actions[k] == BuildAction::Finish(Ok(names)),
    ensures
        name_set(names@) == spec_reported_harnesses(
            spec_lines(listed_text(events.take(k))).to_set(),
            job.drops_fuzz,
        ),
{
    assert(build_expects(stages[k], events[k]));
    assert(build_step_spec(job, stages[k], events[k], stages[k + 1], actions[k]));
    lemma_build_listing(job, stages, events, actions, k);
}

} // verus!
