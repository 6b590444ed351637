use terraform_wrapper::commands::{
    FmtCommand, ForceUnlockCommand, GetCommand, GraphCommand, ImportCommand, InitCommand,
    ModulesCommand, TestCommand,
};
use terraform_wrapper::TerraformCommand;

#[test]
fn fmt_default_args() {
    let cmd = FmtCommand::new();
    assert_eq!(cmd.args(), vec!["fmt"]);
}

#[test]
fn check_and_diff() {
    let cmd = FmtCommand::new().check().diff();
    let args = cmd.args();
    assert!(args.contains(&"-check".to_string()));
    assert!(args.contains(&"-diff".to_string()));
}

#[test]
fn recursive() {
    let cmd = FmtCommand::new().recursive();
    assert!(cmd.args().contains(&"-recursive".to_string()));
}

#[test]
fn write_false() {
    let cmd = FmtCommand::new().write(false);
    assert!(cmd.args().contains(&"-write=false".to_string()));
}

#[test]
fn force_unlock_default_args() {
    let cmd = ForceUnlockCommand::new("abc-123");
    assert_eq!(cmd.args(), vec!["force-unlock", "abc-123"]);
}

#[test]
fn with_force() {
    let cmd = ForceUnlockCommand::new("abc-123").force();
    assert_eq!(cmd.args(), vec!["force-unlock", "-force", "abc-123"]);
}

#[test]
fn lock_id_at_end() {
    let cmd = ForceUnlockCommand::new("abc-123").force().arg("-no-color");
    let args = cmd.args();
    assert_eq!(args.last().unwrap(), "abc-123");
}

#[test]
fn get_default_args() {
    let cmd = GetCommand::new();
    assert_eq!(cmd.args(), vec!["get"]);
}

#[test]
fn with_update() {
    let cmd = GetCommand::new().update();
    assert_eq!(cmd.args(), vec!["get", "-update"]);
}

#[test]
fn with_no_color() {
    let cmd = GetCommand::new().no_color();
    assert_eq!(cmd.args(), vec!["get", "-no-color"]);
}

#[test]
fn get_all_options() {
    let cmd = GetCommand::new().update().no_color();
    let args = cmd.args();
    assert_eq!(args[0], "get");
    assert!(args.contains(&"-update".to_string()));
    assert!(args.contains(&"-no-color".to_string()));
}

#[test]
fn graph_default_args() {
    let cmd = GraphCommand::new();
    assert_eq!(cmd.args(), vec!["graph"]);
}

#[test]
fn draw_cycles() {
    let cmd = GraphCommand::new().draw_cycles();
    assert_eq!(cmd.args(), vec!["graph", "-draw-cycles"]);
}

#[test]
fn graph_type() {
    let cmd = GraphCommand::new().graph_type("plan-destroy");
    assert_eq!(cmd.args(), vec!["graph", "-type=plan-destroy"]);
}

#[test]
fn plan_file() {
    let cmd = GraphCommand::new().plan_file("tfplan");
    assert_eq!(cmd.args(), vec!["graph", "-plan=tfplan"]);
}

#[test]
fn graph_all_options() {
    let cmd = GraphCommand::new()
        .graph_type("apply")
        .plan_file("tfplan")
        .draw_cycles();
    let args = cmd.args();
    assert_eq!(args[0], "graph");
    assert!(args.contains(&"-type=apply".to_string()));
    assert!(args.contains(&"-plan=tfplan".to_string()));
    assert!(args.contains(&"-draw-cycles".to_string()));
}

#[test]
fn basic_args() {
    let cmd = ImportCommand::new("aws_instance.web", "i-123");
    assert_eq!(cmd.args(), vec!["import", "aws_instance.web", "i-123"]);
}

#[test]
fn with_vars() {
    let cmd = ImportCommand::new("aws_instance.web", "i-123").var("region", "us-west-2");
    let args = cmd.args();
    assert!(args.contains(&"-var=region=us-west-2".to_string()));
    // Positional args still at end
    let len = args.len();
    assert_eq!(args[len - 2], "aws_instance.web");
    assert_eq!(args[len - 1], "i-123");
}

#[test]
fn import_with_lock_options() {
    let cmd = ImportCommand::new("aws_instance.web", "i-123")
        .lock(false)
        .lock_timeout("10s");
    let args = cmd.args();
    assert!(args.contains(&"-lock=false".to_string()));
    assert!(args.contains(&"-lock-timeout=10s".to_string()));
}

#[test]
fn init_default_args() {
    let cmd = InitCommand::new();
    assert_eq!(cmd.args(), vec!["init"]);
}

#[test]
fn init_all_options() {
    let cmd = InitCommand::new()
        .backend(false)
        .backend_config("key", "value")
        .backend_config_file("backend.hcl")
        .from_module("./staging")
        .get(false)
        .upgrade()
        .reconfigure()
        .plugin_dir("/plugins")
        .lockfile("readonly")
        .lock(false)
        .lock_timeout("10s")
        .json();
    let args = cmd.args();
    assert!(args.contains(&"-backend=false".to_string()));
    assert!(args.contains(&"-backend-config=key=value".to_string()));
    assert!(args.contains(&"-backend-config=backend.hcl".to_string()));
    assert!(args.contains(&"-from-module=./staging".to_string()));
    assert!(args.contains(&"-get=false".to_string()));
    assert!(args.contains(&"-upgrade".to_string()));
    assert!(args.contains(&"-reconfigure".to_string()));
    assert!(args.contains(&"-plugin-dir=/plugins".to_string()));
    assert!(args.contains(&"-lockfile=readonly".to_string()));
    assert!(args.contains(&"-lock=false".to_string()));
    assert!(args.contains(&"-lock-timeout=10s".to_string()));
    assert!(args.contains(&"-json".to_string()));
}

#[test]
fn backend_disabled() {
    let cmd = InitCommand::new().backend(false);
    assert!(cmd.args().contains(&"-backend=false".to_string()));
}

#[test]
fn from_module_source() {
    let cmd = InitCommand::new().from_module("./staging");
    assert!(cmd.args().contains(&"-from-module=./staging".to_string()));
}

#[test]
fn get_disabled() {
    let cmd = InitCommand::new().get(false);
    assert!(cmd.args().contains(&"-get=false".to_string()));
}

#[test]
fn lockfile_readonly() {
    let cmd = InitCommand::new().lockfile("readonly");
    assert!(cmd.args().contains(&"-lockfile=readonly".to_string()));
}

#[test]
fn json_output() {
    let cmd = InitCommand::new().json();
    assert!(cmd.args().contains(&"-json".to_string()));
}

#[test]
fn init_raw_arg_escape_hatch() {
    let cmd = InitCommand::new().arg("-no-color");
    let args = cmd.args();
    assert!(args.contains(&"-no-color".to_string()));
}

#[test]
fn modules_default_args() {
    let cmd = ModulesCommand::new();
    assert_eq!(cmd.args(), vec!["modules"]);
}

#[test]
fn with_json() {
    let cmd = ModulesCommand::new().json();
    assert_eq!(cmd.args(), vec!["modules", "-json"]);
}

#[test]
fn test_default_args() {
    let cmd = TestCommand::new();
    assert_eq!(cmd.args(), vec!["test"]);
}

#[test]
fn with_filter() {
    let cmd = TestCommand::new().filter("my_test");
    assert_eq!(cmd.args(), vec!["test", "-filter=my_test"]);
}

#[test]
fn with_json_and_verbose() {
    let cmd = TestCommand::new().json().verbose();
    let args = cmd.args();
    assert_eq!(args[0], "test");
    assert!(args.contains(&"-json".to_string()));
    assert!(args.contains(&"-verbose".to_string()));
}

#[test]
fn with_test_directory() {
    let cmd = TestCommand::new().test_directory("integration");
    assert_eq!(cmd.args(), vec!["test", "-test-directory=integration"]);
}

#[test]
fn test_all_options() {
    let cmd = TestCommand::new()
        .filter("vpc_test")
        .json()
        .test_directory("e2e")
        .verbose();
    let args = cmd.args();
    assert_eq!(args[0], "test");
    assert!(args.contains(&"-filter=vpc_test".to_string()));
    assert!(args.contains(&"-json".to_string()));
    assert!(args.contains(&"-test-directory=e2e".to_string()));
    assert!(args.contains(&"-verbose".to_string()));
}
