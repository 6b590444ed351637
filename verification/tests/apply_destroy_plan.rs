use terraform_wrapper::commands::{ApplyCommand, DestroyCommand, PlanCommand, RefreshCommand};
use terraform_wrapper::TerraformCommand;

#[test]
fn apply_default_args() {
    let cmd = ApplyCommand::new();
    assert_eq!(cmd.args(), vec!["apply"]);
}

#[test]
fn auto_approve_with_vars() {
    let cmd = ApplyCommand::new()
        .auto_approve()
        .var("region", "us-west-2")
        .var_file("prod.tfvars");
    let args = cmd.args();
    assert_eq!(args[0], "apply");
    assert!(args.contains(&"-auto-approve".to_string()));
    assert!(args.contains(&"-var=region=us-west-2".to_string()));
    assert!(args.contains(&"-var-file=prod.tfvars".to_string()));
}

#[test]
fn apply_plan_file_at_end() {
    let cmd = ApplyCommand::new().auto_approve().plan_file("tfplan");
    let args = cmd.args();
    assert_eq!(args.last().unwrap(), "tfplan");
}

#[test]
fn parallelism_and_json() {
    let cmd = ApplyCommand::new().parallelism(10).json();
    let args = cmd.args();
    assert!(args.contains(&"-parallelism=10".to_string()));
    assert!(args.contains(&"-json".to_string()));
}

#[test]
fn destroy_default_args() {
    let cmd = DestroyCommand::new();
    assert_eq!(cmd.args(), vec!["destroy"]);
}

#[test]
fn auto_approve_with_targets() {
    let cmd = DestroyCommand::new()
        .auto_approve()
        .target("module.vpc")
        .var("region", "us-west-2")
        .json();
    let args = cmd.args();
    assert_eq!(args[0], "destroy");
    assert!(args.contains(&"-auto-approve".to_string()));
    assert!(args.contains(&"-target=module.vpc".to_string()));
    assert!(args.contains(&"-var=region=us-west-2".to_string()));
    assert!(args.contains(&"-json".to_string()));
}

#[test]
fn plan_default_args() {
    let cmd = PlanCommand::new();
    assert_eq!(cmd.args(), vec!["plan"]);
}

#[test]
fn full_options() {
    let cmd = PlanCommand::new()
        .var("region", "us-west-2")
        .var_file("prod.tfvars")
        .out("tfplan")
        .target("module.vpc")
        .replace("aws_instance.web")
        .destroy()
        .parallelism(10)
        .json();
    let args = cmd.args();
    assert_eq!(args[0], "plan");
    assert!(args.contains(&"-var=region=us-west-2".to_string()));
    assert!(args.contains(&"-var-file=prod.tfvars".to_string()));
    assert!(args.contains(&"-out=tfplan".to_string()));
    assert!(args.contains(&"-target=module.vpc".to_string()));
    assert!(args.contains(&"-replace=aws_instance.web".to_string()));
    assert!(args.contains(&"-destroy".to_string()));
    assert!(args.contains(&"-parallelism=10".to_string()));
    assert!(args.contains(&"-json".to_string()));
}

#[test]
fn multiple_targets() {
    let cmd = PlanCommand::new().target("module.vpc").target("module.rds");
    let args = cmd.args();
    assert!(args.contains(&"-target=module.vpc".to_string()));
    assert!(args.contains(&"-target=module.rds".to_string()));
}

#[test]
fn refresh_default_args() {
    let cmd = RefreshCommand::new();
    assert_eq!(cmd.args(), vec!["refresh"]);
}

#[test]
fn with_vars_and_targets() {
    let cmd = RefreshCommand::new()
        .var("region", "us-west-2")
        .target("module.vpc")
        .json();
    let args = cmd.args();
    assert_eq!(args[0], "refresh");
    assert!(args.contains(&"-var=region=us-west-2".to_string()));
    assert!(args.contains(&"-target=module.vpc".to_string()));
    assert!(args.contains(&"-json".to_string()));
}

#[test]
fn refresh_with_lock_options() {
    let cmd = RefreshCommand::new()
        .lock(false)
        .lock_timeout("10s")
        .parallelism(5);
    let args = cmd.args();
    assert!(args.contains(&"-lock=false".to_string()));
    assert!(args.contains(&"-lock-timeout=10s".to_string()));
    assert!(args.contains(&"-parallelism=5".to_string()));
}
