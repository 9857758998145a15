use smelt_remote::executor::{get_bin, listener_request, slurm_config, InitExecutor};
use smelt_remote::submission::{
    aws_args, create_slurm_command, sbatch_file, target_root, worker_path, AwsCreds, Command,
    ConfigError, DockerWorkspace, ListenerInfo, SealedWorkspace, SlurmConfig,
};
use smelt_remote::workspace::{
    prepare_slurm_workspace, render_sbatch, render_script, script_file, stdout_file,
    workspace_paths,
};

fn build_command() -> Command {
    Command {
        name: "build".to_string(),
        script: vec!["echo hello".to_string(), "make all".to_string()],
        working_dir: "/src/project".to_string(),
    }
}

fn creds() -> AwsCreds {
    AwsCreds {
        key: "SECRET-REDACTED".to_string(),
        key_id: "id1".to_string(),
        bucket: "artifacts".to_string(),
        key_base_path: "runs/1".to_string(),
    }
}

fn bare_metal(creds: Option<AwsCreds>) -> SlurmConfig {
    SlurmConfig { sealed_workspace: Some(SealedWorkspace::BareMetal), creds, listener: None }
}

fn docker(creds: Option<AwsCreds>, docker_args: Vec<String>) -> SlurmConfig {
    SlurmConfig {
        sealed_workspace: Some(SealedWorkspace::Docker(DockerWorkspace {
            container_name: "builder:latest".to_string(),
            workspace_root: "/workspace".to_string(),
            docker_args,
        })),
        creds,
        listener: None,
    }
}

#[test]
fn file_names_are_fixed() {
    assert_eq!(sbatch_file(), "sbatch_command.sh");
    assert_eq!(script_file(), "script.sh");
    assert_eq!(stdout_file(), "command.out");
    assert_eq!(worker_path(), "/tmp/smelt/smelt-worker");
    assert_eq!(target_root("/root", "build"), "/root/build");
    assert_eq!(get_bin("/root"), "/root/workerguy");
}

#[test]
fn bare_metal_command_line() {
    let line = create_slurm_command(
        &build_command(),
        "/root",
        "/root/workerguy",
        "t1",
        "login:4000",
        &bare_metal(None),
    );
    assert_eq!(
        line,
        Ok("/root/workerguy --command-path /root/build --command-name build --trace-id t1 --host http://login:4000\n".to_string())
    );
}

#[test]
fn bare_metal_command_line_with_credentials() {
    let line = create_slurm_command(
        &build_command(),
        "/root",
        "/root/workerguy",
        "t1",
        "login:4000",
        &bare_metal(Some(creds())),
    );
    assert_eq!(
        line,
        Ok("/root/workerguy --command-path /root/build --command-name build --trace-id t1 --host http://login:4000 --aws-key SECRET-REDACTED --aws-key-id id1 --aws-bucket artifacts --s3-key-base-path runs/1\n".to_string())
    );
}

#[test]
fn container_command_line() {
    let line = create_slurm_command(
        &build_command(),
        "/root",
        "/root/workerguy",
        "t1",
        "login:4000",
        &docker(None, vec!["--rm".to_string(), "-v /root:/workspace".to_string()]),
    );
    assert_eq!(
        line,
        Ok("docker run --rm -v /root:/workspace builder:latest /tmp/smelt/smelt-worker --command-path /workspace/build --command-name build --trace-id t1 --host http://login:4000".to_string())
    );
}

#[test]
fn container_command_line_without_extra_arguments() {
    let line = create_slurm_command(
        &build_command(),
        "/root",
        "/root/workerguy",
        "t1",
        "login:4000",
        &docker(Some(creds()), Vec::new()),
    );
    assert_eq!(
        line,
        Ok("docker run  builder:latest /tmp/smelt/smelt-worker --command-path /workspace/build --command-name build --trace-id t1 --host http://login:4000 --aws-key SECRET-REDACTED --aws-key-id id1 --aws-bucket artifacts --s3-key-base-path runs/1".to_string())
    );
}

#[test]
fn missing_workspace_variant_is_an_error() {
    let cfg = SlurmConfig { sealed_workspace: None, creds: None, listener: None };
    assert_eq!(
        create_slurm_command(&build_command(), "/root", "/root/workerguy", "t1", "h:1", &cfg),
        Err(ConfigError::MissingSealedWorkspace)
    );
    assert_eq!(
        prepare_slurm_workspace(&build_command(), "/root", "/src", "/root/workerguy", "t1", "h:1", &cfg),
        Err(ConfigError::MissingSealedWorkspace)
    );
}

#[test]
fn credential_flags() {
    assert_eq!(aws_args(&None), None);
    assert_eq!(
        aws_args(&Some(creds())),
        Some(vec![
            "--aws-key".to_string(),
            "SECRET-REDACTED".to_string(),
            "--aws-key-id".to_string(),
            "id1".to_string(),
            "--aws-bucket".to_string(),
            "artifacts".to_string(),
            "--s3-key-base-path".to_string(),
            "runs/1".to_string(),
        ])
    );
}

#[test]
fn script_text() {
    assert_eq!(
        render_script(&build_command(), "/root", "/src/project"),
        "export SMELT_ROOT=/root\nexport TARGET_ROOT=/root/build\ncd /src/project\necho hello\nmake all\n"
    );
    let empty = Command { name: "noop".to_string(), script: Vec::new(), working_dir: "/".to_string() };
    assert_eq!(
        render_script(&empty, "/r", "/"),
        "export SMELT_ROOT=/r\nexport TARGET_ROOT=/r/noop\ncd /\n"
    );
}

#[test]
fn submission_script_text() {
    assert_eq!(render_sbatch("worker --flag"), "#!/bin/bash\nworker --flag\n\n");
}

#[test]
fn paths_follow_root_and_command_name() {
    let paths = workspace_paths("/root", "build");
    assert_eq!(paths.script_file, "/root/build/script.sh");
    assert_eq!(paths.sbatch_file, "/root/build/sbatch_command.sh");
    assert_eq!(paths.stdout_file, "/root/build/command.out");
}

#[test]
fn workspace_plan_for_bare_metal() {
    let plan = prepare_slurm_workspace(
        &build_command(),
        "/root",
        "/src/project",
        "/root/workerguy",
        "t1",
        "login:4000",
        &bare_metal(None),
    )
    .unwrap();
    assert_eq!(plan.directory, "/root/build");
    assert_eq!(plan.paths, workspace_paths("/root", "build"));
    assert_eq!(
        plan.script_text,
        "export SMELT_ROOT=/root\nexport TARGET_ROOT=/root/build\ncd /src/project\necho hello\nmake all\n"
    );
    assert_eq!(
        plan.sbatch_text,
        "#!/bin/bash\n/root/workerguy --command-path /root/build --command-name build --trace-id t1 --host http://login:4000\n\n\n"
    );
}

#[test]
fn executor_configuration() {
    assert_eq!(slurm_config(None), Err(ConfigError::MissingExecutor));
    assert_eq!(slurm_config(Some(InitExecutor::Local)), Err(ConfigError::WrongExecutor));
    assert_eq!(slurm_config(Some(InitExecutor::Docker)), Err(ConfigError::WrongExecutor));
    assert_eq!(slurm_config(Some(InitExecutor::Slurm(bare_metal(None)))), Ok(bare_metal(None)));
}

#[test]
fn listener_request_defaults() {
    assert_eq!(listener_request(&None), (None, 0));
    assert_eq!(
        listener_request(&Some(ListenerInfo { hostname: "login".to_string(), port: 4000 })),
        (Some("login".to_string()), 4000)
    );
    assert_eq!(
        listener_request(&Some(ListenerInfo { hostname: String::new(), port: 4000 })),
        (None, 4000)
    );
}
