//! What has to be on disk before a command is submitted: the paths of its
//! files and the text of its two scripts. Writing them is left to the caller.

use vstd::prelude::*;
use crate::submission::{
    create_slurm_command, sbatch_file, slurm_command, target_root, target_root_of, Command,
    ConfigError, SlurmConfig,
};
use crate::text::{push_char, views};

verus! {

/// The files of one execution of a command.
#[derive(Debug, Clone, PartialEq, Eq)]
pub struct WorkspacePaths {
    pub script_file: String,
    pub sbatch_file: String,
    pub stdout_file: String,
}

/// Everything to create for one execution, in the order in which it is
/// created: the directory, the script, the submission script, and the empty
/// file that captures standard output.
#[derive(Debug, Clone, PartialEq, Eq)]
pub struct WorkspacePlan {
    pub directory: String,
    pub paths: WorkspacePaths,
    pub script_text: String,
    pub sbatch_text: String,
}

/// The name of the script inside a command's directory.
pub fn script_file() -> (name: &'static str)
    ensures
        name@ == "script.sh"@,
{
    "script.sh"
}

/// The name of the file that captures a command's standard output.
pub fn stdout_file() -> (name: &'static str)
    ensures
        name@ == "command.out"@,
{
    "command.out"
}

/// The path of `file` inside `dir`.
pub open spec fn path_in(dir: Seq<char>, file: Seq<char>) -> Seq<char> {
    dir + seq!['/'] + file
}

fn join_path(dir: &str, file: &str) -> (path: String)
    ensures
        path@ == path_in(dir@, file@),
{
    let mut path = String::from_str(dir);
    push_char(&mut path, '/');
    path.append(file);
    path
}

/// The lines written one after another, each closed by a line feed.
pub open spec fn lines_text(lines: Seq<Seq<char>>) -> Seq<char>
    decreases lines.len(),
{
    if lines.len() == 0 {
        Seq::empty()
    } else {
        lines_text(lines.drop_last()) + lines.last() + seq!['\n']
    }
}

/// The text of the script that the worker runs: the two exported variables,
/// the change of directory, and the command's own lines.
pub open spec fn script_text_of(
    root: Seq<char>,
    command_name: Seq<char>,
    working_dir: Seq<char>,
    script: Seq<Seq<char>>,
) -> Seq<char> {
    "export SMELT_ROOT="@ + root + seq!['\n'] + "export TARGET_ROOT="@ + target_root_of(
        root,
        command_name,
    ) + seq!['\n'] + "cd "@ + working_dir + seq!['\n'] + lines_text(script)
}

/// The text of the submission script: the interpreter line, the submission
/// command on a line of its own, and a blank line.
pub open spec fn sbatch_text_of(submission: Seq<char>) -> Seq<char> {
    "#!/bin/bash"@ + seq!['\n'] + submission + seq!['\n', '\n']
}

/// The paths of the files of the command called `name` under `root`.
pub fn workspace_paths(root: &str, name: &str) -> (paths: WorkspacePaths)
    ensures
        paths.script_file@ == path_in(target_root_of(root@, name@), "script.sh"@),
        paths.sbatch_file@ == path_in(target_root_of(root@, name@), "sbatch_command.sh"@),
        paths.stdout_file@ == path_in(target_root_of(root@, name@), "command.out"@),
{
    let dir = target_root(root, name);
    WorkspacePaths {
        script_file: join_path(dir.as_str(), script_file()),
        sbatch_file: join_path(dir.as_str(), sbatch_file()),
        stdout_file: join_path(dir.as_str(), stdout_file()),
    }
}

/// Renders the script that the worker runs for `command`.
pub fn render_script(command: &Command, root: &str, command_working_dir: &str) -> (text: String)
    ensures
        text@ == script_text_of(root@, command.name@, command_working_dir@, views(command.script@)),
{
    let mut text = String::from_str("export SMELT_ROOT=");
    text.append(root);
    push_char(&mut text, '\n');
    text.append("export TARGET_ROOT=");
    text.append(target_root(root, command.name.as_str()).as_str());
    push_char(&mut text, '\n');
    text.append("cd ");
    text.append(command_working_dir);
    push_char(&mut text, '\n');
    let ghost head = text@;
    let mut i: usize = 0;
    while i < command.script.len()
        invariant
            i <= command.script.len(),
            text@ == head + lines_text(views(command.script@).take(i as int)),
        decreases command.script.len() - i,
    {
        text.append(command.script[i].as_str());
        push_char(&mut text, '\n');
        proof {
            let all = views(command.script@);
            assert(all.take(i + 1).drop_last() =~= all.take(i as int));
            assert(all.take(i + 1).last() == command.script@[i as int]@);
            assert(text@ =~= head + lines_text(all.take(i + 1)));
        }
        i += 1;
    }
    assert(views(command.script@).take(command.script.len() as int) =~= views(command.script@));
    text
}

/// Renders the submission script around the submission command.
pub fn render_sbatch(submission: &str) -> (text: String)
    ensures
        text@ == sbatch_text_of(submission@),
{
    let mut text = String::from_str("#!/bin/bash");
    push_char(&mut text, '\n');
    text.append(submission);
    push_char(&mut text, '\n');
    push_char(&mut text, '\n');
    assert(text@ =~= sbatch_text_of(submission@));
    text
}

/// Plans the workspace of one execution of `command`: where its directory
/// and files go and what the two scripts hold. Fails, before anything is
/// planned, on a configuration that names no workspace variant.
pub fn prepare_slurm_workspace(
    command: &Command,
    root: &str,
    command_working_dir: &str,
    worker_bin: &str,
    trace_id: &str,
    server_addr: &str,
    cfg: &SlurmConfig,
) -> (plan: Result<WorkspacePlan, ConfigError>)
    ensures
        cfg.sealed_workspace is None ==> plan == Err::<WorkspacePlan, ConfigError>(
            ConfigError::MissingSealedWorkspace,
        ),
        cfg.sealed_workspace is Some ==> plan is Ok && {
            let p = plan->Ok_0;
            &&& p.directory@ == target_root_of(root@, command.name@)
            &&& p.paths.script_file@ == path_in(p.directory@, "script.sh"@)
            &&& p.paths.sbatch_file@ == path_in(p.directory@, "sbatch_command.sh"@)
            &&& p.paths.stdout_file@ == path_in(p.directory@, "command.out"@)
            &&& p.script_text@ == script_text_of(
                root@,
                command.name@,
                command_working_dir@,
                views(command.script@),
            )
            &&& p.sbatch_text@ == sbatch_text_of(
                slurm_command(*command, root@, worker_bin@, trace_id@, server_addr@, *cfg),
            )
        },
{
    match create_slurm_command(command, root, worker_bin, trace_id, server_addr, cfg) {
        Err(e) => Err(e),
        Ok(submission) => Ok(
            WorkspacePlan {
                directory: target_root(root, command.name.as_str()),
                paths: workspace_paths(root, command.name.as_str()),
                script_text: render_script(command, root, command_working_dir),
                sbatch_text: render_sbatch(submission.as_str()),
            },
        ),
    }
}

} // verus!
