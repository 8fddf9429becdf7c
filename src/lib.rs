//! Build-and-deploy orchestration: technology detection, per-project build
//! chains, a container run-command codec and fixed container-engine command
//! templates. Every external process is described here as a plain
//! [`command::Command`] value; running it is left to the caller.

pub mod backend;
pub mod batch;
pub mod chain;
pub mod codec;
pub mod command;
pub mod docker;
pub mod images;
pub mod project;
pub mod redeploy;

pub use codec::{ContainerInfo, DockerCommand, Mount, PortBinding};
pub use command::{BuildError, Command, StepResult};
