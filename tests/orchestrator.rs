use rs_utils::backend::{check_builder, BackendKind};
use rs_utils::batch::BatchReport;
use rs_utils::chain::BuildChain;
use rs_utils::codec::{ContainerInfo, PortBinding};
use rs_utils::project::{Project, ProjectOutcome};
use rs_utils::redeploy::{Phase, Redeploy};
use rs_utils::{BuildError, Command, StepResult};

fn strings(v: &[&str]) -> Vec<String> {
    v.iter().map(|x| x.to_string()).collect()
}

fn project(name: &str, files: &[&str]) -> Project {
    let mut p = Project::new(
        format!("/work/{}", name),
        name.to_string(),
        strings(&["8080"]),
        String::new(),
        String::new(),
    );
    p.init_builder(&strings(files));
    p
}

/// Runs a project's chain, answering each step with `answer`.
fn run(p: &mut Project, answer: &dyn Fn(&Command) -> StepResult) -> ProjectOutcome {
    let mut chain = BuildChain::new(p.build_plan(false));
    while let Some(cmd) = chain.current() {
        let r = answer(cmd);
        chain.advance(r);
    }
    p.build(&chain)
}

fn ok(_: &Command) -> StepResult {
    StepResult::Success(String::from("done\n"))
}

#[test]
fn each_single_marker_gives_its_backend() {
    let cases = [
        ("pom.xml", BackendKind::Maven),
        ("build.gradle", BackendKind::Gradle),
        ("requirements.txt", BackendKind::Python),
        ("package.json", BackendKind::Node),
        ("go.mod", BackendKind::Go),
        ("CMakeLists.txt", BackendKind::C),
        ("Cargo.toml", BackendKind::Rust),
        ("Dockerfile", BackendKind::Docker),
    ];
    for (marker, kind) in cases {
        let files = strings(&["README.md", marker, "src"]);
        assert_eq!(check_builder(&files), vec![kind]);
    }
}

#[test]
fn several_markers_keep_priority_order() {
    let files = strings(&["Dockerfile", "Cargo.toml", "pom.xml"]);
    assert_eq!(check_builder(&files), vec![BackendKind::Maven, BackendKind::Rust, BackendKind::Docker]);
}

#[test]
fn no_marker_means_nothing_to_build() {
    let files = strings(&["README.md", "notes.txt"]);
    assert!(check_builder(&files).is_empty());
    let mut p = project("docs", &["README.md", "notes.txt"]);
    assert!(p.builder_vec.is_empty());
    let out = run(&mut p, &ok);
    assert!(out.succeeded);
    assert_eq!(out.message, "nothing to build");
    assert_eq!(p.build_message, "nothing to build");
}

#[test]
fn node_backend_runs_install_then_build_in_project_dir() {
    let p = project("web", &["package.json"]);
    let plan = p.build_plan(false);
    assert_eq!(plan.len(), 2);
    assert_eq!(plan[0].program, "npm");
    assert_eq!(plan[0].args, strings(&["install", "--registry=https://registry.npmmirror.com"]));
    assert_eq!(plan[1].args, strings(&["run", "build"]));
    assert!(plan.iter().all(|c| c.dir == "/work/web" && c.required));
}

#[test]
fn failing_step_stops_the_rest_of_the_chain() {
    let mut p = project("svc", &["go.mod"]);
    let mut calls = 0;
    let mut chain = BuildChain::new(p.build_plan(false));
    while let Some(_) = chain.current() {
        calls += 1;
        let r = if calls == 2 {
            StepResult::Failure(String::from("proxy unreachable"))
        } else {
            StepResult::Success(String::new())
        };
        chain.advance(r);
    }
    assert_eq!(calls, 2);
    let out = p.build(&chain);
    assert!(!out.succeeded);
    assert_eq!(out.message, "proxy unreachable");
}

#[test]
fn container_backend_tolerates_missing_old_container() {
    let mut p = project("api", &["Dockerfile"]);
    let plan = p.build_plan(false);
    assert_eq!(plan.len(), 5);
    assert_eq!(plan[0].args, strings(&["stop", "api"]));
    assert!(!plan[0].required && !plan[1].required && !plan[2].required);
    assert_eq!(plan[3].args, strings(&["build", "-t", "api", "."]));
    assert_eq!(
        plan[4].args,
        strings(&["run", "-d", "--name", "api", "-v", "/etc/localtime:/etc/localtime:ro", "-p", "8080:8080", "api:latest"])
    );
    let out = run(&mut p, &|c: &Command| {
        if c.args[0] == "build" || c.args[0] == "run" {
            StepResult::Success(String::new())
        } else {
            StepResult::Failure(String::from("No such container: api"))
        }
    });
    assert!(out.succeeded);
    assert_eq!(out.message, "api");
}

#[test]
fn deploy_adds_redeploy_only_with_container_backend() {
    let with = project("api", &["Cargo.toml", "Dockerfile"]);
    assert_eq!(with.build_plan(true).len(), 1 + 5 + 3);
    let rerun = with.deploy_to_docker();
    assert_eq!(rerun[0].args, strings(&["stop", "api"]));
    assert_eq!(rerun[1].args, strings(&["rm", "api"]));
    assert_eq!(rerun[2].args[0], "run");
    let without = project("lib", &["Cargo.toml"]);
    assert_eq!(without.build_plan(true).len(), 1);
    assert!(without.deploy_to_docker().is_empty());
}

#[test]
fn source_acquisition_choices() {
    let local = Project::new("/p".into(), "p".into(), vec![], String::new(), String::new());
    assert!(matches!(local.get_source_code(false, false), Err(BuildError::MissingSource)));
    assert!(local.get_source_code(true, false).unwrap().is_empty());
    let pulled = local.get_source_code(true, true).unwrap();
    assert_eq!(pulled[0].args, strings(&["pull"]));
    assert_eq!(pulled[0].dir, "/p");
    let remote = Project::new("/q".into(), "q".into(), vec![], "https://git.example/q.git".into(), "main".into());
    let cloned = remote.get_source_code(false, false).unwrap();
    assert_eq!(cloned[0].program, "git");
    assert_eq!(
        cloned[0].args,
        strings(&["clone", "--single-branch", "--branch", "main", "--depth", "1", "https://git.example/q.git", "/q"])
    );
}

#[test]
fn concurrent_batch_isolates_a_failing_project() {
    let mut projects = vec![project("a", &["pom.xml"]), project("b", &["Cargo.toml"]), project("c", &["build.gradle"])];
    let answer = |c: &Command| {
        if c.program == "cargo" {
            StepResult::Failure(String::from("error[E0425]: cannot find value `x`"))
        } else {
            StepResult::Success(String::from("BUILD SUCCESS"))
        }
    };
    // Workers finish in an order of their own; each records under its index.
    let mut report = BatchReport::new();
    for index in [2usize, 1, 0] {
        let out = run(&mut projects[index], &answer);
        report.record(index, out);
    }
    assert_eq!(report.len(), 3);
    let find = |i: usize| &report.entries.iter().find(|e| e.0 == i).unwrap().1;
    assert!(!find(1).succeeded);
    assert!(find(1).message.contains("error[E0425]: cannot find value `x`"));
    assert!(find(0).succeeded && find(0).message == "a");
    assert!(find(2).succeeded && find(2).message == "c");
    assert_eq!(projects[1].build_message, "error[E0425]: cannot find value `x`");
    assert_eq!(projects[0].build_message, "a");
}

#[test]
fn sequential_and_concurrent_reports_agree() {
    let names = ["a", "b", "c", "d"];
    let mut seq_report = BatchReport::new();
    for (i, n) in names.iter().enumerate() {
        let mut p = project(n, &["pom.xml"]);
        seq_report.record(i, run(&mut p, &ok));
    }
    let order: Vec<usize> = seq_report.entries.iter().map(|e| e.0).collect();
    assert_eq!(order, vec![0, 1, 2, 3]);

    let mut par_report = BatchReport::new();
    for i in [2usize, 0, 3, 1] {
        let mut p = project(names[i], &["pom.xml"]);
        par_report.record(i, run(&mut p, &ok));
    }
    let key = |r: &BatchReport| {
        let mut v: Vec<(usize, String, bool, String)> = r
            .entries
            .iter()
            .map(|e| (e.0, e.1.name.clone(), e.1.succeeded, e.1.message.clone()))
            .collect();
        v.sort();
        v
    };
    assert_eq!(key(&seq_report), key(&par_report));
}

#[test]
fn redeploy_runs_inspect_stop_remove_launch() {
    let (mut flow, inspect) = Redeploy::new("web");
    assert_eq!(inspect.args, strings(&["inspect", "web"]));
    let doc = flow.inspected(StepResult::Success(String::from("[{...}]"))).unwrap();
    assert_eq!(doc, "[{...}]");
    let info = ContainerInfo {
        name: "/web".into(),
        image: "nginx:latest".into(),
        user: None,
        env: None,
        port_bindings: vec![PortBinding { port: "80/tcp".into(), host_ports: strings(&["8080"]) }],
        restart_policy: "always".into(),
        auto_remove: false,
        privileged: false,
        publish_all_ports: false,
        mounts: vec![],
    };
    let stop = flow.parsed(Ok(info)).unwrap();
    assert_eq!(stop.args, strings(&["stop", "web"]));
    let rm = flow.ran(StepResult::Success(String::new())).unwrap();
    assert_eq!(rm.args, strings(&["rm", "web"]));
    let launch = flow.ran(StepResult::Success(String::new())).unwrap();
    assert_eq!(launch.program, "docker");
    assert_eq!(launch.args, strings(&["run", "-d", "--restart=always", "--name", "web", "-p", "8080:80", "nginx:latest"]));
    assert!(flow.ran(StepResult::Success(String::new())).is_none());
    assert_eq!(flow.phase, Phase::Applied);
}

#[test]
fn redeploy_stops_at_first_failure() {
    let (mut flow, _) = Redeploy::new("ghost");
    assert!(flow.inspected(StepResult::Failure(String::from("No such object: ghost"))).is_none());
    assert_eq!(flow.phase, Phase::Failed);
    assert!(matches!(&flow.error, Some(BuildError::ToolInvocation(m)) if m == "No such object: ghost"));

    let (mut bad, _) = Redeploy::new("x");
    bad.inspected(StepResult::Success(String::from("not json")));
    assert!(bad.parsed(Err(String::from("expected value at line 1"))).is_none());
    assert!(matches!(&bad.error, Some(BuildError::Parse(m)) if m == "expected value at line 1"));
}
