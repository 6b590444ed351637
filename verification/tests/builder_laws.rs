use terraform_wrapper::commands::{ApplyCommand, InitCommand, PlanCommand, StateCommand};
use terraform_wrapper::TerraformCommand;

#[test]
fn backend_config_files_follow_every_setting() {
    let cmd = InitCommand::new().backend_config_file("a.hcl").backend_config("k", "v");
    assert_eq!(cmd.args(), vec!["init", "-backend-config=k=v", "-backend-config=a.hcl"]);
}

#[test]
fn backend_config_keeps_repeated_keys() {
    let cmd = InitCommand::new().backend_config("k", "1").backend_config("k", "2");
    assert_eq!(cmd.args(), vec!["init", "-backend-config=k=1", "-backend-config=k=2"]);
}

#[test]
fn state_lock_ignored_by_list() {
    let cmd = StateCommand::list().dry_run().lock(false).lock_timeout("10s");
    assert_eq!(cmd.args(), vec!["state", "list"]);
}

#[test]
fn state_lock_last_value_wins() {
    let cmd = StateCommand::mv("a.b", "c.d").lock(true).lock(false);
    assert_eq!(cmd.args(), vec!["state", "mv", "-lock=false", "a.b", "c.d"]);
    let cmd = StateCommand::replace_provider("x/old", "x/new").lock(false);
    assert_eq!(cmd.args(), vec!["state", "replace-provider", "-lock=false", "x/old", "x/new"]);
}

#[test]
fn plan_targets_accumulate() {
    let cmd = PlanCommand::new().target("module.vpc").target("module.rds");
    assert_eq!(cmd.args(), vec!["plan", "-target=module.vpc", "-target=module.rds"]);
}

#[test]
fn plan_refresh_only_is_idempotent() {
    let once = PlanCommand::new().refresh_only().json();
    let twice = PlanCommand::new().refresh_only().refresh_only().json();
    assert_eq!(once.args(), vec!["plan", "-refresh-only", "-json"]);
    assert_eq!(twice.args(), once.args());
}

#[test]
fn apply_vars_accumulate_unmerged() {
    let cmd = ApplyCommand::new().var("a", "1").var("a", "2");
    assert_eq!(cmd.args(), vec!["apply", "-var=a=1", "-var=a=2"]);
}

#[test]
fn apply_parallelism_last_wins() {
    let cmd = ApplyCommand::new().parallelism(4).parallelism(10).json();
    assert_eq!(cmd.args(), vec!["apply", "-parallelism=10", "-json"]);
}
