//! Rendering of the command line that submits one command to a worker, either
//! directly or wrapped in a container run.

use vstd::prelude::*;
use crate::text::{join_words, joined, views};

verus! {

/// A named shell command, as the build graph hands it over.
#[derive(Debug, Clone, PartialEq, Eq)]
pub struct Command {
    pub name: String,
    /// The script's lines, in order.
    pub script: Vec<String>,
    /// The directory the script is run from.
    pub working_dir: String,
}

/// Credentials of the object store that artifacts are uploaded to.
#[derive(Debug, Clone, PartialEq, Eq)]
pub struct AwsCreds {
    pub key: String,
    pub key_id: String,
    pub bucket: String,
    pub key_base_path: String,
}

/// A container to run the worker in.
#[derive(Debug, Clone, PartialEq, Eq)]
pub struct DockerWorkspace {
    pub container_name: String,
    /// Where the workspace root is mounted inside the container.
    pub workspace_root: String,
    /// Further arguments for the container run.
    pub docker_args: Vec<String>,
}

/// The environment that a submitted command runs in.
#[derive(Debug, Clone, PartialEq, Eq)]
pub enum SealedWorkspace {
    /// Directly on the compute node.
    BareMetal,
    /// Inside a container.
    Docker(DockerWorkspace),
}

/// Where workers should call back, if the caller wants to say.
#[derive(Debug, Clone, PartialEq, Eq)]
pub struct ListenerInfo {
    pub hostname: String,
    pub port: u16,
}

/// The configuration of the cluster executor.
#[derive(Debug, Clone, PartialEq, Eq)]
pub struct SlurmConfig {
    pub sealed_workspace: Option<SealedWorkspace>,
    pub creds: Option<AwsCreds>,
    pub listener: Option<ListenerInfo>,
}

/// Why a configuration cannot be used.
#[derive(Debug, PartialEq, Eq, Clone, Copy, Structural)]
pub enum ConfigError {
    /// No sealed workspace variant was chosen.
    MissingSealedWorkspace,
    /// No executor was configured.
    MissingExecutor,
    /// An executor of another kind was configured.
    WrongExecutor,
}

/// The name of the submission script inside a command's directory.
pub fn sbatch_file() -> (name: &'static str)
    ensures
        name@ == "sbatch_command.sh"@,
{
    "sbatch_command.sh"
}

/// Where the worker binary lives inside a container.
pub fn worker_path() -> (path: &'static str)
    ensures
        path@ == "/tmp/smelt/smelt-worker"@,
{
    "/tmp/smelt/smelt-worker"
}

/// The directory of the command called `name` under `root`.
pub open spec fn target_root_of(root: Seq<char>, name: Seq<char>) -> Seq<char> {
    root + seq!['/'] + name
}

/// The directory of the command called `name` under `root`.
pub fn target_root(root: &str, name: &str) -> (dir: String)
    ensures
        dir@ == target_root_of(root@, name@),
{
    let mut dir = String::from_str(root);
    crate::text::push_char(&mut dir, '/');
    dir.append(name);
    dir
}

/// The flags that carry object-store credentials to the worker; none where
/// no credentials are configured.
pub open spec fn credential_flags(creds: Option<AwsCreds>) -> Seq<Seq<char>> {
    match creds {
        Some(c) => seq![
            "--aws-key"@,
            c.key@,
            "--aws-key-id"@,
            c.key_id@,
            "--aws-bucket"@,
            c.bucket@,
            "--s3-key-base-path"@,
            c.key_base_path@,
        ],
        None => Seq::empty(),
    }
}

/// The flags handed to the worker binary.
pub open spec fn worker_flags(
    command_path: Seq<char>,
    command_name: Seq<char>,
    trace_id: Seq<char>,
    server_addr: Seq<char>,
    creds: Option<AwsCreds>,
) -> Seq<Seq<char>> {
    seq![
        "--command-path"@,
        command_path,
        "--command-name"@,
        command_name,
        "--trace-id"@,
        trace_id,
        "--host"@,
        "http://"@ + server_addr,
    ] + credential_flags(creds)
}

/// The direct invocation of the worker binary, as one line.
pub open spec fn bare_metal_command(worker_bin: Seq<char>, flags: Seq<Seq<char>>) -> Seq<char> {
    worker_bin + seq![' '] + joined(flags, seq![' ']) + seq!['\n']
}

/// The container run that wraps the invocation of the worker binary.
pub open spec fn container_command(workspace: DockerWorkspace, flags: Seq<Seq<char>>) -> Seq<
    char,
> {
    "docker run "@ + joined(views(workspace.docker_args@), seq![' ']) + seq![' ']
        + workspace.container_name@ + seq![' '] + "/tmp/smelt/smelt-worker"@ + seq![' ']
        + joined(flags, seq![' '])
}

/// The submission command for `command` under the given configuration.
pub open spec fn slurm_command(
    command: Command,
    root: Seq<char>,
    worker_bin: Seq<char>,
    trace_id: Seq<char>,
    server_addr: Seq<char>,
    cfg: SlurmConfig,
) -> Seq<char> {
    match cfg.sealed_workspace {
        Some(SealedWorkspace::Docker(workspace)) => container_command(
            workspace,
            worker_flags(
                target_root_of(workspace.workspace_root@, command.name@),
                command.name@,
                trace_id,
                server_addr,
                cfg.creds,
            ),
        ),
        _ => bare_metal_command(
            worker_bin,
            worker_flags(
                target_root_of(root, command.name@),
                command.name@,
                trace_id,
                server_addr,
                cfg.creds,
            ),
        ),
    }
}

/// The flags that carry the configured credentials, if there are any.
pub fn aws_args(creds: &Option<AwsCreds>) -> (flags: Option<Vec<String>>)
    ensures
        flags is Some == creds is Some,
        flags matches Some(f) ==> views(f@) == credential_flags(*creds),
{
    match creds {
        Some(c) => {
            let mut flags: Vec<String> = Vec::new();
            flags.push(String::from_str("--aws-key"));
            flags.push(c.key.clone());
            flags.push(String::from_str("--aws-key-id"));
            flags.push(c.key_id.clone());
            flags.push(String::from_str("--aws-bucket"));
            flags.push(c.bucket.clone());
            flags.push(String::from_str("--s3-key-base-path"));
            flags.push(c.key_base_path.clone());
            assert(views(flags@) =~= credential_flags(*creds));
            Some(flags)
        },
        None => None,
    }
}

fn worker_args(
    command_path: String,
    command_name: &str,
    trace_id: &str,
    server_addr: &str,
    creds: &Option<AwsCreds>,
) -> (flags: Vec<String>)
    ensures
        views(flags@) == worker_flags(
            command_path@,
            command_name@,
            trace_id@,
            server_addr@,
            *creds,
        ),
{
    let mut flags: Vec<String> = Vec::new();
    flags.push(String::from_str("--command-path"));
    flags.push(command_path);
    flags.push(String::from_str("--command-name"));
    flags.push(String::from_str(command_name));
    flags.push(String::from_str("--trace-id"));
    flags.push(String::from_str(trace_id));
    flags.push(String::from_str("--host"));
    let mut host = String::from_str("http://");
    host.append(server_addr);
    flags.push(host);
    let ghost head = views(flags@);
    match aws_args(creds) {
        Some(mut extra) => {
            let ghost tail = views(extra@);
            flags.append(&mut extra);
            assert(views(flags@) =~= head + tail);
        },
        None => {
            assert(views(flags@) =~= head + Seq::<Seq<char>>::empty());
        },
    }
    assert(head =~= seq![
        "--command-path"@,
        command_path@,
        "--command-name"@,
        command_name@,
        "--trace-id"@,
        trace_id@,
        "--host"@,
        "http://"@ + server_addr@,
    ]);
    flags
}

/// Renders the command that submits `command`: the direct invocation of
/// `worker_bin` for a bare-metal workspace, the container run for a
/// containerized one. A configuration that names no workspace variant is an
/// error.
pub fn create_slurm_command(
    command: &Command,
    root: &str,
    worker_bin: &str,
    trace_id: &str,
    server_addr: &str,
    cfg: &SlurmConfig,
) -> (line: Result<String, ConfigError>)
    ensures
        cfg.sealed_workspace is None ==> line == Err::<String, ConfigError>(
            ConfigError::MissingSealedWorkspace,
        ),
        cfg.sealed_workspace is Some ==> line is Ok && line->Ok_0@ == slurm_command(
            *command,
            root@,
            worker_bin@,
            trace_id@,
            server_addr@,
            *cfg,
        ),
{
    match &cfg.sealed_workspace {
        None => Err(ConfigError::MissingSealedWorkspace),
        Some(SealedWorkspace::BareMetal) => {
            let flags = worker_args(
                target_root(root, command.name.as_str()),
                command.name.as_str(),
                trace_id,
                server_addr,
                &cfg.creds,
            );
            let mut line = String::from_str(worker_bin);
            crate::text::push_char(&mut line, ' ');
            line.append(join_words(&flags).as_str());
            crate::text::push_char(&mut line, '\n');
            Ok(line)
        },
        Some(SealedWorkspace::Docker(workspace)) => {
            let flags = worker_args(
                target_root(workspace.workspace_root.as_str(), command.name.as_str()),
                command.name.as_str(),
                trace_id,
                server_addr,
                &cfg.creds,
            );
            let mut line = String::from_str("docker run ");
            line.append(join_words(&workspace.docker_args).as_str());
            crate::text::push_char(&mut line, ' ');
            line.append(workspace.container_name.as_str());
            crate::text::push_char(&mut line, ' ');
            line.append(worker_path());
            crate::text::push_char(&mut line, ' ');
            line.append(join_words(&flags).as_str());
            Ok(line)
        },
    }
}

} // verus!
