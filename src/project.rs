use vstd::prelude::*;

use crate::backend::{backend_steps, check_builder, BackendKind, Builder};
use crate::chain::BuildChain;
use crate::command::{str_vec, strs, views, BuildError, Command, CommandView};
use crate::docker::{container_rerun, rerun_steps};

verus! {

/// Where a project's sources come from; an empty `url` means the project is
/// built in place.
pub struct Repository {
    pub url: String,
    pub branch: String,
}

/// A fetch of the newest revision inside the working copy at `path`. Its
/// failure is reported by the tool and does not stop the project.
pub open spec fn pull_step(path: Seq<char>) -> CommandView {
    CommandView { program: "git"@, args: seq!["pull"@], dir: path, required: false }
}

/// A shallow single-branch clone of `url` at `branch` into `path`. Its
/// failure is reported by the tool and does not stop the project.
pub open spec fn clone_step(url: Seq<char>, branch: Seq<char>, path: Seq<char>) -> CommandView {
    CommandView {
        program: "git"@,
        args: seq!["clone"@, "--single-branch"@, "--branch"@, branch, "--depth"@, "1"@, url, path],
        dir: Seq::empty(),
        required: false,
    }
}

/// The source-acquisition steps: a pull where a working copy exists, else a
/// clone where a repository is named, else nothing (build in place).
pub open spec fn source_steps(url: Seq<char>, branch: Seq<char>, path: Seq<char>, has_git: bool) -> Seq<
    CommandView,
> {
    if has_git {
        seq![pull_step(path)]
    } else if url.len() > 0 {
        seq![clone_step(url, branch, path)]
    } else {
        Seq::empty()
    }
}

/// A project without a working copy, without a repository and without a
/// directory has nothing to build from.
pub open spec fn source_missing(url: Seq<char>, dir_exists: bool, has_git: bool) -> bool {
    !has_git && url.len() == 0 && !dir_exists
}

impl Repository {
    pub fn new(url: String, branch: String) -> (r: Repository)
        ensures
            r.url == url,
            r.branch == branch,
    {
        Repository { url, branch }
    }

    /// Clones the repository into `path`.
    pub fn clone(&self, path: &str) -> (r: Command)
        ensures
            r@ == clone_step(self.url@, self.branch@, path@),
    {
        let a = str_vec(
            &[
                "clone",
                "--single-branch",
                "--branch",
                self.branch.as_str(),
                "--depth",
                "1",
                self.url.as_str(),
                path,
            ],
        );
        assert(strs(a@) =~= seq![
            "clone"@,
            "--single-branch"@,
            "--branch"@,
            self.branch@,
            "--depth"@,
            "1"@,
            self.url@,
            path@,
        ]);
        Command { program: String::from_str("git"), args: a, dir: String::new(), required: false }
    }

    /// Fetches the newest revision into the working copy at `path`.
    pub fn update(&self, path: &str) -> (r: Command)
        ensures
            r@ == pull_step(path@),
    {
        let a = str_vec(&["pull"]);
        assert(strs(a@) =~= seq!["pull"@]);
        Command { program: String::from_str("git"), args: a, dir: String::from_str(path), required: false }
    }
}

/// The steps of a sequence of builders, one builder after the other.
pub open spec fn chain_steps(bs: Seq<Builder>) -> Seq<CommandView>
    decreases bs.len(),
{
    if bs.len() == 0 {
        Seq::empty()
    } else {
        chain_steps(bs.drop_last()) + backend_steps(
            bs.last().kind,
            bs.last().path@,
            bs.last().name@,
            strs(bs.last().ports@),
        )
    }
}

pub open spec fn kinds(bs: Seq<Builder>) -> Seq<BackendKind> {
    bs.map_values(|b: Builder| b.kind)
}

pub open spec fn has_container(bs: Seq<Builder>) -> bool {
    kinds(bs).contains(BackendKind::Docker)
}

/// The message a project records when no technology was detected.
pub open spec fn nothing_to_build() -> Seq<char> {
    "nothing to build"@
}

/// The outcome of one project's build attempt.
pub struct ProjectOutcome {
    pub name: String,
    pub succeeded: bool,
    pub message: String,
}

/// One project: its directory, its name (also that of its image and
/// container), the ports it publishes, where its sources come from, the
/// technologies detected in it and the message of its last build attempt.
pub struct Project {
    pub path: String,
    pub name: String,
    pub ports: Vec<String>,
    pub repository: Repository,
    pub build_message: String,
    pub builder_vec: Vec<Builder>,
}

impl Project {
    /// A project that has not been built and has no technology detected yet.
    pub fn new(path: String, name: String, ports: Vec<String>, url: String, branch: String) -> (r:
        Project)
        ensures
            r.path == path,
            r.name == name,
            r.ports == ports,
            r.repository.url == url,
            r.repository.branch == branch,
            r.build_message@.len() == 0,
            r.builder_vec@.len() == 0,
    {
        Project {
            path,
            name,
            ports,
            repository: Repository::new(url, branch),
            build_message: String::new(),
            builder_vec: Vec::new(),
        }
    }

    /// The steps that bring the sources into the project directory, given
    /// whether that directory exists and whether it holds a working copy;
    /// an error when there is nothing to build from.
    pub fn get_source_code(&self, dir_exists: bool, has_git: bool) -> (r: Result<
        Vec<Command>,
        BuildError,
    >)
        ensures
            match r {
                Ok(steps) => !source_missing(self.repository.url@, dir_exists, has_git) && views(
                    steps@,
                ) == source_steps(
                    self.repository.url@,
                    self.repository.branch@,
                    self.path@,
                    has_git,
                ),
                Err(e) => source_missing(self.repository.url@, dir_exists, has_git) && e
                    is MissingSource,
            },
    {
        let mut r: Vec<Command> = Vec::new();
        if has_git {
            r.push(self.repository.update(self.path.as_str()));
        } else if !self.repository.url.as_str().is_empty() {
            r.push(self.repository.clone(self.path.as_str()));
        } else if !dir_exists {
            return Err(BuildError::MissingSource);
        }
        assert(views(r@) =~= source_steps(
            self.repository.url@,
            self.repository.branch@,
            self.path@,
            has_git,
        ));
        Ok(r)
    }

    /// Detects the technologies of the project directory, whose entries are
    /// named `files`, and keeps one builder per technology in priority order.
    pub fn init_builder(&mut self, files: &[String])
        ensures
            kinds(final(self).builder_vec@) == crate::backend::detected(strs(files@)),
            forall|i: int|
                0 <= i < final(self).builder_vec@.len() ==> {
                    let b = #[trigger] final(self).builder_vec@[i];
                    b.path@ == old(self).path@ && b.name@ == old(self).name@ && strs(b.ports@)
                        == strs(old(self).ports@)
                },
            final(self).path == old(self).path,
            final(self).name == old(self).name,
            final(self).ports == old(self).ports,
            final(self).repository == old(self).repository,
            final(self).build_message == old(self).build_message,
    {
        let found = check_builder(files);
        let mut bs: Vec<Builder> = Vec::new();
        let mut i: usize = 0;
        while i < found.len()
            invariant
                i <= found@.len(),
                kinds(bs@) =~= found@.subrange(0, i as int),
                forall|j: int|
                    0 <= j < bs@.len() ==> {
                        let b = #[trigger] bs@[j];
                        b.path@ == self.path@ && b.name@ == self.name@ && strs(b.ports@) == strs(
                            self.ports@,
                        )
                    },
            decreases found@.len() - i,
        {
            let ports = self.ports.clone();
            assert(strs(ports@) =~= strs(self.ports@));
            let ghost pre = bs@;
            bs.push(
                Builder {
                    kind: found[i],
                    path: self.path.clone(),
                    name: self.name.clone(),
                    ports,
                },
            );
            assert(kinds(bs@) =~= kinds(pre).push(found@[i as int]));
            i = i + 1;
        }
        assert(found@.subrange(0, i as int) =~= found@);
        self.builder_vec = bs;
    }

    /// Whether a container build file was detected.
    pub fn has_container(&self) -> (r: bool)
        ensures
            r == has_container(self.builder_vec@),
    {
        let mut i: usize = 0;
        while i < self.builder_vec.len()
            invariant
                i <= self.builder_vec@.len(),
                forall|j: int| 0 <= j < i ==> self.builder_vec@[j].kind != BackendKind::Docker,
            decreases self.builder_vec@.len() - i,
        {
            if self.builder_vec[i].kind == BackendKind::Docker {
                assert(kinds(self.builder_vec@)[i as int] == BackendKind::Docker);
                return true;
            }
            i = i + 1;
        }
        assert(!kinds(self.builder_vec@).contains(BackendKind::Docker)) by {
            assert forall|j: int| 0 <= j < kinds(self.builder_vec@).len() implies kinds(
                self.builder_vec@,
            )[j] != BackendKind::Docker by {}
        }
        false
    }

    /// Stops, removes and relaunches the project's container with its
    /// ports; nothing when no container build file was detected.
    pub fn deploy_to_docker(&self) -> (r: Vec<Command>)
        ensures
            views(r@) == if has_container(self.builder_vec@) {
                rerun_steps(self.name@, strs(self.ports@))
            } else {
                Seq::empty()
            },
    {
        if self.has_container() {
            container_rerun(self.name.as_str(), self.ports.as_slice())
        } else {
            let r: Vec<Command> = Vec::new();
            assert(views(r@) =~= Seq::<CommandView>::empty());
            r
        }
    }

    /// Every builder's steps in detection order, followed by the redeploy
    /// steps when `deploy` is set and a container build file was detected.
    pub fn build_plan(&self, deploy: bool) -> (r: Vec<Command>)
        ensures
            views(r@) == chain_steps(self.builder_vec@) + if deploy && has_container(
                self.builder_vec@,
            ) {
                rerun_steps(self.name@, strs(self.ports@))
            } else {
                Seq::empty()
            },
    {
        let mut r: Vec<Command> = Vec::new();
        let mut i: usize = 0;
        assert(self.builder_vec@.subrange(0, 0) =~= Seq::<Builder>::empty());
        while i < self.builder_vec.len()
            invariant
                i <= self.builder_vec@.len(),
                views(r@) =~= chain_steps(self.builder_vec@.subrange(0, i as int)),
            decreases self.builder_vec@.len() - i,
        {
            let steps = self.builder_vec[i].steps();
            let ghost before = views(r@);
            let mut j: usize = 0;
            while j < steps.len()
                invariant
                    j <= steps@.len(),
                    views(r@) =~= before + views(steps@).subrange(0, j as int),
                decreases steps@.len() - j,
            {
                let ghost pre = r@;
                r.push(steps[j].clone_command());
                assert(views(r@) =~= views(pre).push(steps@[j as int]@));
                j = j + 1;
            }
            assert(views(steps@).subrange(0, j as int) =~= views(steps@));
            assert(self.builder_vec@.subrange(0, i + 1).drop_last() =~= self.builder_vec@.subrange(
                0,
                i as int,
            ));
            i = i + 1;
        }
        assert(self.builder_vec@.subrange(0, i as int) =~= self.builder_vec@);
        if deploy {
            let mut extra = self.deploy_to_docker();
            let ghost before = views(r@);
            let ghost tail = views(extra@);
            r.append(&mut extra);
            assert(views(r@) =~= before + tail);
        }
        r
    }

    /// Records how the build chain of this project ended. A project with no
    /// technology detected has nothing to build, which is no failure; a
    /// chain stopped by a failing step records that step's error output;
    /// otherwise the project was built and its name is recorded.
    pub fn build(&mut self, chain: &BuildChain) -> (r: ProjectOutcome)
        requires
            chain@.wf(),
            chain@.done(),
        ensures
            r.name == old(self).name,
            old(self).builder_vec@.len() == 0 ==> r.succeeded && r.message@ == nothing_to_build(),
            old(self).builder_vec@.len() > 0 ==> match chain@.failure {
                Some(e) => !r.succeeded && r.message@ == e,
                None => r.succeeded && r.message@ == old(self).name@,
            },
            final(self).build_message@ == r.message@,
            final(self).path == old(self).path,
            final(self).name == old(self).name,
            final(self).ports == old(self).ports,
            final(self).repository == old(self).repository,
            final(self).builder_vec == old(self).builder_vec,
    {
        let (succeeded, message) = if self.builder_vec.len() == 0 {
            (true, String::from_str("nothing to build"))
        } else {
            match chain.failure() {
                Some(e) => (false, e),
                None => (true, self.name.clone()),
            }
        };
        self.build_message = message.clone();
        ProjectOutcome { name: self.name.clone(), succeeded, message }
    }
}

/// A project whose directory holds no recognized marker gets no builder,
/// and its build attempt then reports "nothing to build" as a success.
pub proof fn lemma_no_marker_nothing_to_build(files: Seq<Seq<char>>, builders: Seq<Builder>)
    requires
        forall|j: BackendKind| !files.contains(crate::backend::marker_of(j)),
        kinds(builders) == crate::backend::detected(files),
    ensures
        builders.len() == 0,
{
    crate::backend::lemma_no_marker(files);
    assert(kinds(builders).len() == builders.len());
}

} // verus!
