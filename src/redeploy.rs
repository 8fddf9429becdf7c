use vstd::prelude::*;

use crate::codec::{descriptor, encode, ContainerInfo, DockerCommand};
use crate::command::{push_str, strs, BuildError, Command, StepResult};
use crate::docker::{container_inspect, container_remove, container_stop, docker, docker_run_command};

verus! {

/// Where a redeploy of one container stands.
#[derive(Clone, Copy, PartialEq, Eq, Structural, Debug)]
pub enum Phase {
    /// Waiting for the inspection document.
    Inspecting,
    /// Waiting for the document to be read into a [`ContainerInfo`].
    Parsing,
    /// Waiting for the old container to stop.
    Stopping,
    /// Waiting for the old container to be removed.
    Removing,
    /// Waiting for the re-encoded command to launch the new container.
    Running,
    /// The new container runs.
    Applied,
    /// A step failed; `error` says which and why.
    Failed,
}

/// Redeploying one container from its own inspected configuration: inspect,
/// parse, encode, then stop and remove the old container and run the encoded
/// command. Any failure ends the flow in [`Phase::Failed`] and no further
/// step is issued.
pub struct Redeploy {
    pub name: String,
    pub phase: Phase,
    pub run_args: Vec<String>,
    pub error: Option<BuildError>,
}

/// The launch command of a re-encoded argument list (program name first).
pub open spec fn launch_of(encoded: Seq<Seq<char>>) -> crate::command::CommandView {
    docker(encoded.drop_first())
}

impl Redeploy {
    /// Starts a redeploy of container `name`; the command returned inspects it.
    pub fn new(name: &str) -> (r: (Redeploy, Command))
        ensures
            r.0.name@ == name@,
            r.0.phase == Phase::Inspecting,
            r.0.error is None,
            r.1@ == docker(seq!["inspect"@, name@]),
    {
        let cmd = container_inspect(name);
        (Redeploy { name: String::from_str(name), phase: Phase::Inspecting, run_args: Vec::new(), error: None }, cmd)
    }

    /// Takes the result of the inspection. On success the document is handed
    /// back to be read; on failure the flow fails with the error output.
    pub fn inspected(&mut self, result: StepResult) -> (r: Option<String>)
        requires
            old(self).phase == Phase::Inspecting,
            old(self).error is None,
        ensures
            final(self).name == old(self).name,
            match result {
                StepResult::Success(doc) => final(self).phase == Phase::Parsing && r == Some(doc)
                    && final(self).error is None,
                StepResult::Failure(e) => final(self).phase == Phase::Failed && r is None && match
                    final(self).error {
                    Some(BuildError::ToolInvocation(m)) => m@ == e@,
                    _ => false,
                },
            },
    {
        match result {
            StepResult::Success(doc) => {
                self.phase = Phase::Parsing;
                Some(doc)
            },
            StepResult::Failure(e) => {
                self.phase = Phase::Failed;
                self.error = Some(BuildError::ToolInvocation(e));
                None
            },
        }
    }

    /// Takes the document as read. On success the configuration is encoded
    /// and the command returned stops the old container; on failure the
    /// flow fails with the reader's diagnostic.
    pub fn parsed(&mut self, result: Result<ContainerInfo, String>) -> (r: Option<Command>)
        requires
            old(self).phase == Phase::Parsing,
            old(self).error is None,
        ensures
            final(self).name == old(self).name,
            match result {
                Ok(info) => final(self).phase == Phase::Stopping && strs(final(self).run_args@)
                    == encode(descriptor(info)) && final(self).error is None && match r {
                    Some(c) => c@ == docker(seq!["stop"@, old(self).name@]),
                    None => false,
                },
                Err(e) => final(self).phase == Phase::Failed && r is None && match final(self).error {
                    Some(BuildError::Parse(m)) => m@ == e@,
                    _ => false,
                },
            },
    {
        match result {
            Ok(info) => {
                let ghost d = descriptor(info);
                let encoded = DockerCommand::from(info).to_command();
                self.run_args = encoded;
                self.phase = Phase::Stopping;
                let one = self.name_list();
                let c = container_stop(one.as_slice());
                assert(seq!["stop"@] + strs(one@) =~= seq!["stop"@, self.name@]);
                Some(c)
            },
            Err(e) => {
                self.phase = Phase::Failed;
                self.error = Some(BuildError::Parse(e));
                None
            },
        }
    }

    fn name_list(&self) -> (r: Vec<String>)
        ensures
            strs(r@) == seq![self.name@],
    {
        let mut v: Vec<String> = Vec::new();
        v.push(self.name.clone());
        assert(strs(v@) =~= seq![self.name@]);
        v
    }

    /// Takes the result of the last command issued while stopping, removing
    /// or running. A failure ends the flow with the error output; a success
    /// issues the next command: remove after stop, the encoded launch after
    /// remove, and nothing once the new container runs.
    pub fn ran(&mut self, result: StepResult) -> (r: Option<Command>)
        requires
            old(self).phase == Phase::Stopping || old(self).phase == Phase::Removing
                || old(self).phase == Phase::Running,
            strs(old(self).run_args@).len() > 0,
        ensures
            final(self).name == old(self).name,
            final(self).run_args == old(self).run_args,
            match result {
                StepResult::Failure(e) => final(self).phase == Phase::Failed && r is None && match
                    final(self).error {
                    Some(BuildError::ToolInvocation(m)) => m@ == e@,
                    _ => false,
                },
                StepResult::Success(_) => final(self).error == old(self).error && if old(self).phase == Phase::Stopping {
                    final(self).phase == Phase::Removing && match r {
                        Some(c) => c@ == docker(seq!["rm"@, old(self).name@]),
                        None => false,
                    }
                } else if old(self).phase == Phase::Removing {
                    final(self).phase == Phase::Running && match r {
                        Some(c) => c@ == launch_of(strs(old(self).run_args@)),
                        None => false,
                    }
                } else {
                    final(self).phase == Phase::Applied && r is None
                },
            },
    {
        match result {
            StepResult::Failure(e) => {
                self.phase = Phase::Failed;
                self.error = Some(BuildError::ToolInvocation(e));
                None
            },
            StepResult::Success(_) => {
                if self.phase == Phase::Stopping {
                    self.phase = Phase::Removing;
                    let one = self.name_list();
                    let c = container_remove(one.as_slice());
                    assert(seq!["rm"@] + strs(one@) =~= seq!["rm"@, self.name@]);
                    Some(c)
                } else if self.phase == Phase::Removing {
                    self.phase = Phase::Running;
                    let n = self.run_args.len();
                    let mut rest: Vec<String> = Vec::new();
                    let mut i: usize = 1;
                    while i < n
                        invariant
                            1 <= i <= n,
                            n == self.run_args@.len(),
                            strs(rest@) =~= strs(self.run_args@).subrange(1, i as int),
                        decreases n - i,
                    {
                        push_str(&mut rest, self.run_args[i].as_str());
                        i = i + 1;
                    }
                    assert(strs(rest@) =~= strs(self.run_args@).drop_first());
                    let c = docker_run_command(rest.as_slice());
                    Some(c)
                } else {
                    self.phase = Phase::Applied;
                    None
                }
            },
        }
    }
}

} // verus!
