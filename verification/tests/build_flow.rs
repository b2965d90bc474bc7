use fuzzor::builder::{
    build_args, build_job, build_output_exhausted, build_output_step, build_start, build_step,
    cpuset, image_tag, push_output_step, BuildAction, BuildEvent, BuildJob, BuildOutput,
    BuildStage, DockerBuilder, ProjectBuild,
};
use fuzzor::config::{Language, ProjectConfig};
use fuzzor::revisions::Revision;

struct Rev {
    hash: String,
    files: Vec<String>,
}

impl Revision for Rev {
    fn previous_commit_hash(&self) -> Option<&str> {
        None
    }
    fn commit_hash(&self) -> &str {
        &self.hash
    }
    fn modified_files(&self) -> &[String] {
        &self.files
    }
}

fn rev() -> Rev {
    Rev { hash: "abc123".to_string(), files: vec![] }
}

fn config(branch: Option<&str>, fuzz_env_var: Option<&str>) -> ProjectConfig {
    ProjectConfig {
        name: "bitcoin".to_string(),
        owner: "bitcoin".to_string(),
        repo: "bitcoin-core".to_string(),
        branch: branch.map(String::from),
        language: Language::Cpp,
        engines: None,
        sanitizers: None,
        fuzz_env_var: fuzz_env_var.map(String::from),
    }
}

fn job(registry: Option<&str>, fuzz_env_var: Option<&str>) -> BuildJob {
    let builder = DockerBuilder::new((), 3, registry.map(String::from));
    build_job(&builder, &config(None, fuzz_env_var), rev().commit_hash())
}

#[test]
fn tags_args_and_cpusets() {
    assert_eq!(image_tag("bitcoin", &None), "fuzzor-bitcoin:latest");
    assert_eq!(
        image_tag("bitcoin", &Some("registry.local:5000".to_string())),
        "registry.local:5000/fuzzor-bitcoin:latest"
    );
    let pairs = |v: &[(&str, &str)]| -> Vec<(String, String)> {
        v.iter().map(|(a, b)| (a.to_string(), b.to_string())).collect()
    };
    assert_eq!(
        build_args(&config(Some("main"), None), "abc123"),
        pairs(&[("OWNER", "bitcoin"), ("REPO", "bitcoin-core"), ("BRANCH", "main"), ("REVISION", "abc123")])
    );
    assert_eq!(
        build_args(&config(None, None), "abc123"),
        pairs(&[("OWNER", "bitcoin"), ("REPO", "bitcoin-core"), ("REVISION", "abc123")])
    );
    assert_eq!(cpuset(&vec![1, 2, 3]), "1,2,3");
    assert_eq!(cpuset(&vec![17]), "17");
    assert_eq!(cpuset(&vec![]), "");
}

#[test]
fn build_stream_outcomes() {
    let tag = "fuzzor-x:latest".to_string();
    assert_eq!(build_output_step(BuildOutput::Progress, &tag), None);
    assert_eq!(
        build_output_step(BuildOutput::ImageBuilt("sha256:1".to_string()), &tag),
        Some(Ok(("sha256:1".to_string(), tag.clone())))
    );
    assert_eq!(
        build_output_step(BuildOutput::Failed, &tag),
        Some(Err("Could not build image".to_string()))
    );
    assert_eq!(build_output_exhausted(), Err("No items in build stream".to_string()));
    assert_eq!(push_output_step(false), None);
    assert_eq!(push_output_step(true), Some(Err("Could not push image".to_string())));
}

fn finish(a: BuildAction) -> Result<Vec<String>, String> {
    match a {
        BuildAction::Finish(r) => r,
        _ => panic!("build not finished"),
    }
}

/// Runs a build through the given outcomes, checking each requested action.
fn drive(job: &BuildJob, steps: Vec<BuildEvent>) -> (Vec<BuildAction>, BuildStage) {
    let (mut stage, first) = build_start();
    let mut actions = vec![first];
    for e in steps {
        let (s, a) = build_step(job, stage, e);
        stage = s;
        actions.push(a);
    }
    (actions, stage)
}

#[test]
fn build_with_registry_pushes_and_lists_harnesses() {
    let j = job(Some("reg"), Some("FUZZ"));
    let (actions, stage) = drive(
        &j,
        vec![
            BuildEvent::Connected(Ok(())),
            BuildEvent::CoresTaken(vec![4, 5, 6]),
            BuildEvent::ImageBuilt(Ok(("img".to_string(), "reg/fuzzor-bitcoin:latest".to_string()))),
            BuildEvent::CoresReleased,
            BuildEvent::Pushed(Ok(())),
            BuildEvent::ContainerCreated(Ok("c1".to_string())),
            BuildEvent::ContainerStarted(Ok(())),
            BuildEvent::ExecCreated(Ok("x1".to_string())),
            BuildEvent::ExecStarted(Ok(true)),
            BuildEvent::ListingRead(Some("fuzz\nprocess_message\r\nbanman\n".to_string())),
            BuildEvent::ListingRead(Some("banman\n".to_string())),
            BuildEvent::ListingRead(None),
            BuildEvent::ContainerRemoved(Ok(())),
        ],
    );
    assert!(matches!(stage, BuildStage::Done));
    assert!(matches!(actions[0], BuildAction::Connect));
    assert!(matches!(actions[1], BuildAction::TakeCores(3)));
    match &actions[2] {
        BuildAction::BuildImage { cpuset } => assert_eq!(cpuset, "4,5,6"),
        _ => panic!(),
    }
    match &actions[3] {
        BuildAction::ReleaseCores(c) => assert_eq!(c, &vec![4, 5, 6]),
        _ => panic!(),
    }
    match &actions[4] {
        BuildAction::PushImage { tag } => assert_eq!(tag, "reg/fuzzor-bitcoin:latest"),
        _ => panic!(),
    }
    match &actions[5] {
        BuildAction::CreateContainer { image } => assert_eq!(image, "img"),
        _ => panic!(),
    }
    match &actions[7] {
        BuildAction::CreateExec { container, cmd } => {
            assert_eq!(container, "c1");
            assert_eq!(cmd, &vec!["ls".to_string(), "/workdir/out/libfuzzer".to_string()]);
        }
        _ => panic!(),
    }
    match &actions[8] {
        BuildAction::StartExec { exec_id } => assert_eq!(exec_id, "x1"),
        _ => panic!(),
    }
    let mut names = finish(actions.into_iter().last().unwrap()).unwrap();
    names.sort();
    assert_eq!(names, vec!["banman".to_string(), "process_message".to_string()]);
}

#[test]
fn build_without_registry_skips_push_and_keeps_fuzz() {
    let j = job(None, None);
    let (actions, _) = drive(
        &j,
        vec![
            BuildEvent::Connected(Ok(())),
            BuildEvent::CoresTaken(vec![0]),
            BuildEvent::ImageBuilt(Ok(("img".to_string(), "fuzzor-bitcoin:latest".to_string()))),
            BuildEvent::CoresReleased,
            BuildEvent::ContainerCreated(Ok("c".to_string())),
            BuildEvent::ContainerStarted(Ok(())),
            BuildEvent::ExecCreated(Ok("x".to_string())),
            BuildEvent::ExecStarted(Ok(true)),
            BuildEvent::ListingRead(Some("fuzz\n".to_string())),
            BuildEvent::ListingRead(None),
            BuildEvent::ContainerRemoved(Ok(())),
        ],
    );
    assert!(!actions.iter().any(|a| matches!(a, BuildAction::PushImage { .. })));
    assert_eq!(finish(actions.into_iter().last().unwrap()), Ok(vec!["fuzz".to_string()]));
}

#[test]
fn detached_exec_lists_no_harness() {
    let j = job(None, None);
    let (actions, _) = drive(
        &j,
        vec![
            BuildEvent::Connected(Ok(())),
            BuildEvent::CoresTaken(vec![0]),
            BuildEvent::ImageBuilt(Ok(("img".to_string(), "t".to_string()))),
            BuildEvent::CoresReleased,
            BuildEvent::ContainerCreated(Ok("c".to_string())),
            BuildEvent::ContainerStarted(Ok(())),
            BuildEvent::ExecCreated(Ok("x".to_string())),
            BuildEvent::ExecStarted(Ok(false)),
            BuildEvent::ContainerRemoved(Ok(())),
        ],
    );
    assert!(matches!(&actions[8], BuildAction::RemoveContainer { container } if container == "c"));
    assert_eq!(finish(actions.into_iter().last().unwrap()), Ok(vec![]));
}

#[test]
fn failed_image_build_returns_cores_then_fails() {
    let j = job(Some("reg"), None);
    let (actions, stage) = drive(
        &j,
        vec![
            BuildEvent::Connected(Ok(())),
            BuildEvent::CoresTaken(vec![2, 9]),
            BuildEvent::ImageBuilt(Err("Could not build image".to_string())),
            BuildEvent::CoresReleased,
        ],
    );
    assert!(matches!(stage, BuildStage::Done));
    assert!(matches!(&actions[3], BuildAction::ReleaseCores(c) if c == &vec![2, 9]));
    assert_eq!(finish(actions.into_iter().last().unwrap()), Err("Could not build image".to_string()));
}

#[test]
fn build_error_messages() {
    let j = job(None, None);
    let (a, _) = drive(&j, vec![BuildEvent::Connected(Err("no socket".to_string()))]);
    assert_eq!(
        finish(a.into_iter().last().unwrap()),
        Err("Could not connect to docker daemon: no socket".to_string())
    );
    let prefix = vec![
        BuildEvent::Connected(Ok(())),
        BuildEvent::CoresTaken(vec![0]),
        BuildEvent::ImageBuilt(Ok(("img".to_string(), "t".to_string()))),
        BuildEvent::CoresReleased,
    ];
    let with = |extra: Vec<BuildEvent>| {
        let mut v: Vec<BuildEvent> = Vec::new();
        for e in &prefix {
            v.push(match e {
                BuildEvent::Connected(_) => BuildEvent::Connected(Ok(())),
                BuildEvent::CoresTaken(_) => BuildEvent::CoresTaken(vec![0]),
                BuildEvent::ImageBuilt(_) => {
                    BuildEvent::ImageBuilt(Ok(("img".to_string(), "t".to_string())))
                }
                _ => BuildEvent::CoresReleased,
            });
        }
        v.extend(extra);
        finish(drive(&j, v).0.into_iter().last().unwrap())
    };
    assert_eq!(
        with(vec![BuildEvent::ContainerCreated(Err("e1".to_string()))]),
        Err("Could not create container: e1".to_string())
    );
    assert_eq!(
        with(vec![
            BuildEvent::ContainerCreated(Ok("c".to_string())),
            BuildEvent::ContainerStarted(Err("e2".to_string()))
        ]),
        Err("Could not create exec in container: e2".to_string())
    );
    assert_eq!(
        with(vec![
            BuildEvent::ContainerCreated(Ok("c".to_string())),
            BuildEvent::ContainerStarted(Ok(())),
            BuildEvent::ExecCreated(Err("e3".to_string()))
        ]),
        Err("Could not create exec in container: e3".to_string())
    );
    assert_eq!(
        with(vec![
            BuildEvent::ContainerCreated(Ok("c".to_string())),
            BuildEvent::ContainerStarted(Ok(())),
            BuildEvent::ExecCreated(Ok("x".to_string())),
            BuildEvent::ExecStarted(Err("e4".to_string()))
        ]),
        Err("Could not start exec in container: e4".to_string())
    );
    assert_eq!(
        with(vec![
            BuildEvent::ContainerCreated(Ok("c".to_string())),
            BuildEvent::ContainerStarted(Ok(())),
            BuildEvent::ExecCreated(Ok("x".to_string())),
            BuildEvent::ExecStarted(Ok(false)),
            BuildEvent::ContainerRemoved(Err("e5".to_string()))
        ]),
        Err("Could not remove container: e5".to_string())
    );
    let jr = job(Some("reg"), None);
    let (a, _) = drive(
        &jr,
        vec![
            BuildEvent::Connected(Ok(())),
            BuildEvent::CoresTaken(vec![0]),
            BuildEvent::ImageBuilt(Ok(("img".to_string(), "t".to_string()))),
            BuildEvent::CoresReleased,
            BuildEvent::Pushed(Err("Could not push image".to_string())),
        ],
    );
    assert_eq!(finish(a.into_iter().last().unwrap()), Err("Could not push image".to_string()));
}

#[test]
fn project_build_keeps_each_harness_once() {
    let b = ProjectBuild::new(
        vec!["a".to_string(), "b".to_string(), "a".to_string()],
        rev(),
    );
    let mut h = b.harnesses().clone();
    h.sort();
    assert_eq!(h, vec!["a".to_string(), "b".to_string()]);
    assert_eq!(b.revision().commit_hash(), "abc123");
}

fn listing_in_chunks(chunks: &[&str]) -> Vec<String> {
    let j = job(None, None);
    let mut events = vec![
        BuildEvent::Connected(Ok(())),
        BuildEvent::CoresTaken(vec![0]),
        BuildEvent::ImageBuilt(Ok(("img".to_string(), "t".to_string()))),
        BuildEvent::CoresReleased,
        BuildEvent::ContainerCreated(Ok("c".to_string())),
        BuildEvent::ContainerStarted(Ok(())),
        BuildEvent::ExecCreated(Ok("x".to_string())),
        BuildEvent::ExecStarted(Ok(true)),
    ];
    for c in chunks {
        events.push(BuildEvent::ListingRead(Some(c.to_string())));
    }
    events.push(BuildEvent::ListingRead(None));
    events.push(BuildEvent::ContainerRemoved(Ok(())));
    let mut names = finish(drive(&j, events).0.into_iter().last().unwrap()).unwrap();
    names.sort();
    names
}

#[test]
fn listing_does_not_depend_on_chunking() {
    assert_eq!(listing_in_chunks(&["fuzz_a\n"]), vec!["fuzz_a".to_string()]);
    assert_eq!(listing_in_chunks(&["fuzz_", "a\n"]), vec!["fuzz_a".to_string()]);
    assert_eq!(
        listing_in_chunks(&["alpha\nbe", "ta\r", "\ngamma"]),
        vec!["alpha".to_string(), "beta".to_string(), "gamma".to_string()]
    );
    assert_eq!(listing_in_chunks(&[]), Vec::<String>::new());
}
