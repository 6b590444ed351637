use terraform_wrapper::commands::{StateCommand, WorkspaceCommand};
use terraform_wrapper::TerraformCommand;

#[test]
fn state_list_args() {
    let cmd = StateCommand::list();
    assert_eq!(cmd.args(), vec!["state", "list"]);
}

#[test]
fn state_show_args() {
    let cmd = StateCommand::show("null_resource.example");
    assert_eq!(cmd.args(), vec!["state", "show", "null_resource.example"]);
}

#[test]
fn mv_args() {
    let cmd = StateCommand::mv("null_resource.old", "null_resource.new");
    assert_eq!(
        cmd.args(),
        vec!["state", "mv", "null_resource.old", "null_resource.new"]
    );
}

#[test]
fn mv_dry_run_args() {
    let cmd = StateCommand::mv("null_resource.old", "null_resource.new").dry_run();
    assert_eq!(
        cmd.args(),
        vec![
            "state",
            "mv",
            "-dry-run",
            "null_resource.old",
            "null_resource.new"
        ]
    );
}

#[test]
fn mv_lock_args() {
    let cmd = StateCommand::mv("null_resource.old", "null_resource.new")
        .lock(false)
        .lock_timeout("10s");
    assert_eq!(
        cmd.args(),
        vec![
            "state",
            "mv",
            "-lock=false",
            "-lock-timeout=10s",
            "null_resource.old",
            "null_resource.new"
        ]
    );
}

#[test]
fn rm_args() {
    let cmd = StateCommand::rm(vec![
        "null_resource.a".to_string(),
        "null_resource.b".to_string(),
    ]);
    assert_eq!(
        cmd.args(),
        vec!["state", "rm", "null_resource.a", "null_resource.b"]
    );
}

#[test]
fn rm_dry_run_args() {
    let cmd = StateCommand::rm(vec!["null_resource.a".to_string()]).dry_run();
    assert_eq!(
        cmd.args(),
        vec!["state", "rm", "-dry-run", "null_resource.a"]
    );
}

#[test]
fn pull_args() {
    let cmd = StateCommand::pull();
    assert_eq!(cmd.args(), vec!["state", "pull"]);
}

#[test]
fn push_args() {
    let cmd = StateCommand::push();
    assert_eq!(cmd.args(), vec!["state", "push"]);
}

#[test]
fn replace_provider_args() {
    let cmd = StateCommand::replace_provider(
        "registry.terraform.io/hashicorp/aws",
        "registry.terraform.io/acme/aws",
    );
    assert_eq!(
        cmd.args(),
        vec![
            "state",
            "replace-provider",
            "registry.terraform.io/hashicorp/aws",
            "registry.terraform.io/acme/aws"
        ]
    );
}

#[test]
fn replace_provider_auto_approve_args() {
    let cmd = StateCommand::replace_provider(
        "registry.terraform.io/hashicorp/aws",
        "registry.terraform.io/acme/aws",
    )
    .auto_approve()
    .lock(false);
    assert_eq!(
        cmd.args(),
        vec![
            "state",
            "replace-provider",
            "-auto-approve",
            "-lock=false",
            "registry.terraform.io/hashicorp/aws",
            "registry.terraform.io/acme/aws"
        ]
    );
}

#[test]
fn list_ignores_mv_rm_flags() {
    let cmd = StateCommand::list()
        .dry_run()
        .lock(false)
        .lock_timeout("10s");
    assert_eq!(cmd.args(), vec!["state", "list"]);
}

#[test]
fn workspace_list_args() {
    let cmd = WorkspaceCommand::list();
    assert_eq!(cmd.args(), vec!["workspace", "list"]);
}

#[test]
fn workspace_show_args() {
    let cmd = WorkspaceCommand::show();
    assert_eq!(cmd.args(), vec!["workspace", "show"]);
}

#[test]
fn new_args() {
    let cmd = WorkspaceCommand::new_workspace("staging");
    assert_eq!(cmd.args(), vec!["workspace", "new", "staging"]);
}

#[test]
fn select_args() {
    let cmd = WorkspaceCommand::select("production");
    assert_eq!(cmd.args(), vec!["workspace", "select", "production"]);
}

#[test]
fn delete_args() {
    let cmd = WorkspaceCommand::delete("staging");
    assert_eq!(cmd.args(), vec!["workspace", "delete", "staging"]);
}

#[test]
fn delete_force_args() {
    let cmd = WorkspaceCommand::delete("staging").force();
    assert_eq!(cmd.args(), vec!["workspace", "delete", "-force", "staging"]);
}
