use vstd::prelude::*;

use crate::command::{str_vec, strs, views, Command, CommandView};
use crate::docker::{default_run_args, docker};

verus! {

/// The build technologies, in the detector's fixed priority order.
#[derive(Clone, Copy, PartialEq, Eq, Structural, Debug)]
pub enum BackendKind {
    Maven,
    Gradle,
    Python,
    Node,
    Go,
    C,
    Rust,
    Docker,
}

/// How many technologies the detector knows.
pub const KIND_COUNT: usize = 8;

/// The marker file whose presence signals a technology.
pub open spec fn marker_of(k: BackendKind) -> Seq<char> {
    match k {
        BackendKind::Maven => "pom.xml"@,
        BackendKind::Gradle => "build.gradle"@,
        BackendKind::Python => "requirements.txt"@,
        BackendKind::Node => "package.json"@,
        BackendKind::Go => "go.mod"@,
        BackendKind::C => "CMakeLists.txt"@,
        BackendKind::Rust => "Cargo.toml"@,
        BackendKind::Docker => "Dockerfile"@,
    }
}

/// Every technology, in the order the detector checks them.
pub open spec fn priority() -> Seq<BackendKind> {
    seq![
        BackendKind::Maven,
        BackendKind::Gradle,
        BackendKind::Python,
        BackendKind::Node,
        BackendKind::Go,
        BackendKind::C,
        BackendKind::Rust,
        BackendKind::Docker,
    ]
}

/// The kinds of `ks`, in order, whose marker is among `files`.
pub open spec fn present_kinds(ks: Seq<BackendKind>, files: Seq<Seq<char>>) -> Seq<BackendKind>
    decreases ks.len(),
{
    if ks.len() == 0 {
        Seq::empty()
    } else if files.contains(marker_of(ks.last())) {
        present_kinds(ks.drop_last(), files).push(ks.last())
    } else {
        present_kinds(ks.drop_last(), files)
    }
}

/// What the detector finds in a directory holding `files`: each technology
/// whose marker is there, checked independently, in priority order.
pub open spec fn detected(files: Seq<Seq<char>>) -> Seq<BackendKind> {
    present_kinds(priority(), files)
}

/// The technology at position `i` of the priority order.
pub fn kind_at(i: usize) -> (k: BackendKind)
    requires
        i < KIND_COUNT,
    ensures
        k == priority()[i as int],
{
    match i {
        0 => BackendKind::Maven,
        1 => BackendKind::Gradle,
        2 => BackendKind::Python,
        3 => BackendKind::Node,
        4 => BackendKind::Go,
        5 => BackendKind::C,
        6 => BackendKind::Rust,
        _ => BackendKind::Docker,
    }
}

/// The marker file name of a technology.
pub fn marker_file(k: BackendKind) -> (r: &'static str)
    ensures
        r@ == marker_of(k),
{
    match k {
        BackendKind::Maven => "pom.xml",
        BackendKind::Gradle => "build.gradle",
        BackendKind::Python => "requirements.txt",
        BackendKind::Node => "package.json",
        BackendKind::Go => "go.mod",
        BackendKind::C => "CMakeLists.txt",
        BackendKind::Rust => "Cargo.toml",
        BackendKind::Docker => "Dockerfile",
    }
}

/// Whether `name` is one of `files`.
pub fn contains_file(files: &[String], name: &str) -> (r: bool)
    ensures
        r == strs(files@).contains(name@),
{
    let target = String::from_str(name);
    let mut i: usize = 0;
    while i < files.len()
        invariant
            i <= files@.len(),
            target@ == name@,
            forall|j: int| 0 <= j < i ==> files@[j]@ != name@,
        decreases files@.len() - i,
    {
        if files[i] == target {
            assert(strs(files@)[i as int] == name@);
            return true;
        }
        i = i + 1;
    }
    assert forall|j: int| 0 <= j < strs(files@).len() implies strs(files@)[j] != name@ by {}
    false
}

/// The technologies of a directory whose entries are named `files`.
pub fn check_builder(files: &[String]) -> (r: Vec<BackendKind>)
    ensures
        r@ == detected(strs(files@)),
{
    let mut r: Vec<BackendKind> = Vec::new();
    let mut i: usize = 0;
    while i < KIND_COUNT
        invariant
            i <= KIND_COUNT,
            r@ == present_kinds(priority().subrange(0, i as int), strs(files@)),
        decreases KIND_COUNT - i,
    {
        let k = kind_at(i);
        let ghost before = priority().subrange(0, i as int);
        assert(priority().subrange(0, i + 1).drop_last() =~= before);
        if contains_file(files, marker_file(k)) {
            r.push(k);
        }
        i = i + 1;
    }
    assert(priority().subrange(0, KIND_COUNT as int) =~= priority());
    r
}

/// A required step run inside the project directory `dir`.
pub open spec fn step(program: Seq<char>, args: Seq<Seq<char>>, dir: Seq<char>) -> CommandView {
    CommandView { program, args, dir, required: true }
}

/// A container-engine step run in `dir`; only `required` steps abort the
/// chain when they fail.
pub open spec fn engine_step(args: Seq<Seq<char>>, dir: Seq<char>, required: bool) -> CommandView {
    CommandView { dir, required, ..docker(args) }
}

/// The toolchain steps of one technology for the project at `path` named
/// `name` that publishes `ports`.
pub open spec fn backend_steps(
    kind: BackendKind,
    path: Seq<char>,
    name: Seq<char>,
    ports: Seq<Seq<char>>,
) -> Seq<CommandView> {
    match kind {
        BackendKind::Maven => seq![step("mvn"@, seq!["clean"@, "package"@], path)],
        BackendKind::Gradle => seq![step("gradle"@, seq!["build"@], path)],
        BackendKind::Python => seq![
            step(
                "pip"@,
                seq![
                    "install"@,
                    "-r"@,
                    "requirements.txt"@,
                    "-i"@,
                    "https://pypi.tuna.tsinghua.edu.cn/simple"@,
                ],
                path,
            ),
        ],
        BackendKind::Node => seq![
            step("npm"@, seq!["install"@, "--registry=https://registry.npmmirror.com"@], path),
            step("npm"@, seq!["run"@, "build"@], path),
        ],
        BackendKind::Go => seq![
            step("go"@, seq!["env"@, "-w"@, "GO111MODULE=on"@], path),
            step("go"@, seq!["env"@, "-w"@, "GOPROXY=https://goproxy.cn,direct"@], path),
            step("go"@, seq!["build"@], path),
        ],
        BackendKind::C => seq![step("cmake"@, seq![".."@], path), step("make"@, seq![], path)],
        BackendKind::Rust => seq![step("cargo"@, seq!["build"@, "--release"@], path)],
        BackendKind::Docker => seq![
            engine_step(seq!["stop"@, name], path, false),
            engine_step(seq!["rm"@, name], path, false),
            engine_step(seq!["rmi"@, name], path, false),
            engine_step(seq!["build"@, "-t"@, name, "."@], path, true),
            engine_step(default_run_args(name, ports), path, true),
        ],
    }
}

/// One detected technology of one project, with what its steps need.
pub struct Builder {
    pub kind: BackendKind,
    pub path: String,
    pub name: String,
    pub ports: Vec<String>,
}

fn make(program: &str, args: Vec<String>, dir: &str, required: bool) -> (r: Command)
    ensures
        r@ == (CommandView { program: program@, args: strs(args@), dir: dir@, required }),
{
    Command { program: String::from_str(program), args, dir: String::from_str(dir), required }
}

fn in_dir(c: Command, dir: &str, required: bool) -> (r: Command)
    ensures
        r@ == (CommandView { dir: dir@, required, ..c@ }),
{
    Command { dir: String::from_str(dir), required, ..c }
}

impl Builder {
    /// The steps that build this technology, in order.
    pub fn steps(&self) -> (r: Vec<Command>)
        ensures
            views(r@) == backend_steps(self.kind, self.path@, self.name@, strs(self.ports@)),
    {
        let p = self.path.as_str();
        let n = self.name.as_str();
        let mut r: Vec<Command> = Vec::new();
        match self.kind {
            BackendKind::Maven => {
                let a = str_vec(&["clean", "package"]);
                assert(strs(a@) =~= seq!["clean"@, "package"@]);
                r.push(make("mvn", a, p, true));
            },
            BackendKind::Gradle => {
                let a = str_vec(&["build"]);
                assert(strs(a@) =~= seq!["build"@]);
                r.push(make("gradle", a, p, true));
            },
            BackendKind::Python => {
                let a = str_vec(
                    &["install", "-r", "requirements.txt", "-i", "https://pypi.tuna.tsinghua.edu.cn/simple"],
                );
                assert(strs(a@) =~= seq![
                    "install"@,
                    "-r"@,
                    "requirements.txt"@,
                    "-i"@,
                    "https://pypi.tuna.tsinghua.edu.cn/simple"@,
                ]);
                r.push(make("pip", a, p, true));
            },
            BackendKind::Node => {
                let a = str_vec(&["install", "--registry=https://registry.npmmirror.com"]);
                assert(strs(a@) =~= seq!["install"@, "--registry=https://registry.npmmirror.com"@]);
                r.push(make("npm", a, p, true));
                let b = str_vec(&["run", "build"]);
                assert(strs(b@) =~= seq!["run"@, "build"@]);
                r.push(make("npm", b, p, true));
            },
            BackendKind::Go => {
                let a = str_vec(&["env", "-w", "GO111MODULE=on"]);
                assert(strs(a@) =~= seq!["env"@, "-w"@, "GO111MODULE=on"@]);
                r.push(make("go", a, p, true));
                let b = str_vec(&["env", "-w", "GOPROXY=https://goproxy.cn,direct"]);
                assert(strs(b@) =~= seq!["env"@, "-w"@, "GOPROXY=https://goproxy.cn,direct"@]);
                r.push(make("go", b, p, true));
                let c = str_vec(&["build"]);
                assert(strs(c@) =~= seq!["build"@]);
                r.push(make("go", c, p, true));
            },
            BackendKind::C => {
                let a = str_vec(&[".."]);
                assert(strs(a@) =~= seq![".."@]);
                r.push(make("cmake", a, p, true));
                let b: Vec<String> = Vec::new();
                assert(strs(b@) =~= Seq::<Seq<char>>::empty());
                r.push(make("make", b, p, true));
            },
            BackendKind::Rust => {
                let a = str_vec(&["build", "--release"]);
                assert(strs(a@) =~= seq!["build"@, "--release"@]);
                r.push(make("cargo", a, p, true));
            },
            BackendKind::Docker => {
                let mut one: Vec<String> = Vec::new();
                one.push(String::from_str(n));
                let names = one.as_slice();
                assert(strs(names@) =~= seq![n@]);
                assert(seq!["stop"@] + seq![n@] =~= seq!["stop"@, n@]);
                assert(seq!["rm"@] + seq![n@] =~= seq!["rm"@, n@]);
                assert(seq!["rmi"@] + seq![n@] =~= seq!["rmi"@, n@]);
                r.push(in_dir(crate::docker::container_stop(names), p, false));
                r.push(in_dir(crate::docker::container_remove(names), p, false));
                r.push(in_dir(crate::docker::image_remove(names), p, false));
                r.push(in_dir(crate::docker::build(n), p, true));
                r.push(in_dir(crate::docker::default_run(n, self.ports.as_slice()), p, true));
            },
        }
        assert(views(r@) =~= backend_steps(self.kind, self.path@, self.name@, strs(self.ports@)));
        r
    }
}

/// A directory holding exactly one recognized marker yields exactly the
/// technology of that marker.
pub proof fn lemma_single_marker(files: Seq<Seq<char>>, k: BackendKind)
    requires
        forall|j: BackendKind| files.contains(marker_of(j)) <==> j == k,
    ensures
        detected(files) == seq![k],
{
    reveal_with_fuel(present_kinds, 9);
    let p = priority();
    assert(p.drop_last() =~= p.subrange(0, 7));
    assert(p.subrange(0, 7).drop_last() =~= p.subrange(0, 6));
    assert(p.subrange(0, 6).drop_last() =~= p.subrange(0, 5));
    assert(p.subrange(0, 5).drop_last() =~= p.subrange(0, 4));
    assert(p.subrange(0, 4).drop_last() =~= p.subrange(0, 3));
    assert(p.subrange(0, 3).drop_last() =~= p.subrange(0, 2));
    assert(p.subrange(0, 2).drop_last() =~= p.subrange(0, 1));
    assert(p.subrange(0, 1).drop_last() =~= Seq::<BackendKind>::empty());
    assert(detected(files) =~= seq![k]);
}

/// A directory holding no recognized marker yields no technology.
pub proof fn lemma_no_marker(files: Seq<Seq<char>>)
    requires
        forall|j: BackendKind| !files.contains(marker_of(j)),
    ensures
        detected(files).len() == 0,
{
    reveal_with_fuel(present_kinds, 9);
    let p = priority();
    assert(p.drop_last() =~= p.subrange(0, 7));
    assert(p.subrange(0, 7).drop_last() =~= p.subrange(0, 6));
    assert(p.subrange(0, 6).drop_last() =~= p.subrange(0, 5));
    assert(p.subrange(0, 5).drop_last() =~= p.subrange(0, 4));
    assert(p.subrange(0, 4).drop_last() =~= p.subrange(0, 3));
    assert(p.subrange(0, 3).drop_last() =~= p.subrange(0, 2));
    assert(p.subrange(0, 2).drop_last() =~= p.subrange(0, 1));
    assert(p.subrange(0, 1).drop_last() =~= Seq::<BackendKind>::empty());
}

} // verus!
