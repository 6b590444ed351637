use std::time::Duration;

use terraform_wrapper::commands::output::{OutputResult, OutputResultKind};
use terraform_wrapper::commands::show::ShowResultKind;
use terraform_wrapper::commands::{
    ApplyCommand, FmtCommand, OutputCommand, PlanCommand, ShowCommand, StateCommand,
    ValidateCommand, WorkspaceCommand,
};
use terraform_wrapper::exec::{command_result, CommandOutput};
use terraform_wrapper::{Error, Terraform, TerraformCommand};

fn client() -> Terraform {
    Terraform::builder()
        .build_with(None, Some("/usr/bin/terraform".to_string()))
        .unwrap()
}

#[test]
fn binary_resolution_prefers_explicit_path() {
    let tf = Terraform::builder()
        .binary("/opt/tofu")
        .build_with(Some("/env/terraform".to_string()), Some("/usr/bin/terraform".to_string()))
        .unwrap();
    let inv = tf.invocation(&vec!["version".to_string()]);
    assert_eq!(inv.program, "/opt/tofu");
}

#[test]
fn binary_resolution_uses_environment_before_path() {
    let tf = Terraform::builder()
        .build_with(Some("/env/terraform".to_string()), Some("/usr/bin/terraform".to_string()))
        .unwrap();
    assert_eq!(tf.invocation(&vec![]).program, "/env/terraform");
}

#[test]
fn binary_resolution_falls_back_to_path() {
    assert_eq!(client().invocation(&vec![]).program, "/usr/bin/terraform");
}

#[test]
fn binary_not_found() {
    let r = Terraform::builder().build_with(None, None);
    assert!(matches!(r, Err(Error::NotFound)));
}

#[test]
fn default_client_disables_color_and_input() {
    let tf = client();
    assert!(tf.input_disabled());
    let inv = tf.invocation(&vec!["workspace".to_string(), "show".to_string()]);
    assert_eq!(inv.args, vec!["workspace", "-no-color", "show"]);
}

#[test]
fn color_and_input_can_be_enabled() {
    let tf = Terraform::builder()
        .color(true)
        .input(true)
        .build_with(None, Some("terraform".to_string()))
        .unwrap();
    assert!(!tf.input_disabled());
    let inv = tf.invocation(&vec!["plan".to_string()]);
    assert_eq!(inv.args, vec!["plan"]);
}

#[test]
fn working_dir_goes_first_as_chdir() {
    let tf = Terraform::builder()
        .working_dir("/tmp/infra")
        .build_with(None, Some("terraform".to_string()))
        .unwrap();
    let inv = tf.invocation(&vec!["init".to_string(), "-upgrade".to_string()]);
    assert_eq!(inv.args, vec!["-chdir=/tmp/infra", "init", "-no-color", "-upgrade"]);
}

#[test]
fn with_working_dir_changes_only_the_directory() {
    let tf = Terraform::builder()
        .working_dir("./network")
        .env("AWS_REGION", "us-west-2")
        .build_with(None, Some("terraform".to_string()))
        .unwrap();
    let compute = tf.with_working_dir("./compute");
    let a = tf.invocation(&vec!["plan".to_string()]);
    let b = compute.invocation(&vec!["plan".to_string()]);
    assert_eq!(a.args[0], "-chdir=./network");
    assert_eq!(b.args[0], "-chdir=./compute");
    assert_eq!(a.args[1..], b.args[1..]);
    assert_eq!(a.env, b.env);
    assert_eq!(a.program, b.program);
}

#[test]
fn env_later_value_replaces_earlier() {
    let tf = Terraform::builder()
        .env("AWS_REGION", "us-east-1")
        .env("OTHER", "x")
        .env("AWS_REGION", "us-west-2")
        .build_with(None, Some("terraform".to_string()))
        .unwrap();
    let inv = tf.invocation(&vec![]);
    assert_eq!(
        inv.env,
        vec![
            ("AWS_REGION".to_string(), "us-west-2".to_string()),
            ("OTHER".to_string(), "x".to_string())
        ]
    );
}

#[test]
fn env_var_sets_tf_var_prefix() {
    let tf = Terraform::builder()
        .env_var("instance_type", "t3.medium")
        .build_with(None, Some("terraform".to_string()))
        .unwrap();
    assert_eq!(
        tf.invocation(&vec![]).env,
        vec![("TF_VAR_instance_type".to_string(), "t3.medium".to_string())]
    );
}

#[test]
fn timeouts_reach_the_invocation() {
    let tf = Terraform::builder()
        .timeout_secs(300)
        .build_with(None, Some("terraform".to_string()))
        .unwrap();
    assert_eq!(tf.invocation(&vec![]).timeout, Some(Duration::from_secs(300)));
    let tf = Terraform::builder()
        .timeout(Duration::from_millis(1500))
        .build_with(None, Some("terraform".to_string()))
        .unwrap();
    assert_eq!(tf.invocation(&vec![]).timeout, Some(Duration::from_millis(1500)));
    assert_eq!(client().invocation(&vec![]).timeout, None);
}

#[test]
fn prepare_args_injects_input_false_after_subcommand() {
    let tf = client();
    let args = ApplyCommand::new().auto_approve().prepare_args(&tf);
    assert_eq!(args, vec!["apply", "-input=false", "-auto-approve"]);
}

#[test]
fn prepare_args_leaves_commands_without_input_alone() {
    let tf = client();
    assert_eq!(WorkspaceCommand::list().prepare_args(&tf), vec!["workspace", "list"]);
    assert_eq!(StateCommand::list().prepare_args(&tf), vec!["state", "list"]);
}

#[test]
fn prepare_args_respects_enabled_input() {
    let tf = Terraform::builder()
        .input(true)
        .build_with(None, Some("terraform".to_string()))
        .unwrap();
    assert_eq!(ApplyCommand::new().prepare_args(&tf), vec!["apply"]);
}

#[test]
fn plan_prepare_args_injects_input_false() {
    let tf = client();
    let cmd = PlanCommand::new().out("tfplan");
    assert!(cmd.supports_input());
    assert_eq!(cmd.prepare_args(&tf), vec!["plan", "-input=false", "-out=tfplan"]);
}

#[test]
fn accepted_exit_codes() {
    assert_eq!(PlanCommand::new().accepted_exit_codes(), vec![0, 2]);
    assert_eq!(FmtCommand::new().accepted_exit_codes(), vec![0, 3]);
    assert_eq!(ValidateCommand::new().accepted_exit_codes(), vec![0, 1]);
}

#[test]
fn command_result_success_on_allowed_code() {
    let args = vec!["plan".to_string()];
    let out = command_result(&args, &[0, 2], "changes".to_string(), String::new(), Some(2)).unwrap();
    assert_eq!(out.exit_code, 2);
    assert!(out.success);
    assert_eq!(out.stdout, "changes");
}

#[test]
fn command_result_failure_names_subcommand() {
    let args = vec!["init".to_string(), "-upgrade".to_string()];
    let r = command_result(&args, &[0], "out".to_string(), "boom".to_string(), Some(1));
    match r {
        Err(Error::CommandFailed { command, exit_code, stdout, stderr }) => {
            assert_eq!(command, "init");
            assert_eq!(exit_code, 1);
            assert_eq!(stdout, "out");
            assert_eq!(stderr, "boom");
        }
        other => panic!("unexpected result: {other:?}"),
    }
}

#[test]
fn command_result_signal_is_minus_one() {
    let r = command_result(&vec![], &[0], String::new(), String::new(), None);
    match r {
        Err(Error::CommandFailed { command, exit_code, .. }) => {
            assert_eq!(command, "");
            assert_eq!(exit_code, -1);
        }
        other => panic!("unexpected result: {other:?}"),
    }
}

#[test]
fn io_errors_map_to_not_found_or_io() {
    let not_found = std::io::Error::from(std::io::ErrorKind::NotFound);
    assert!(matches!(Error::from_io(not_found), Error::NotFound));
    let denied = std::io::Error::new(std::io::ErrorKind::PermissionDenied, "denied");
    match Error::from_io(denied) {
        Error::Io { message, .. } => assert_eq!(message, "denied"),
        other => panic!("unexpected error: {other:?}"),
    }
    let denied = std::io::Error::new(std::io::ErrorKind::PermissionDenied, "denied");
    match Error::from_process_failure("failed to execute terraform", denied) {
        Error::Io { message, .. } => assert_eq!(message, "failed to execute terraform: denied"),
        other => panic!("unexpected error: {other:?}"),
    }
    let missing = std::io::Error::from(std::io::ErrorKind::NotFound);
    assert!(matches!(
        Error::from_process_failure("failed to spawn terraform", missing),
        Error::NotFound
    ));
}

#[test]
fn stdout_lines_split_like_str_lines() {
    let out = CommandOutput {
        stdout: "a\r\nb\n\nc\r".to_string(),
        stderr: String::new(),
        exit_code: 0,
        success: true,
    };
    assert_eq!(out.stdout_lines(), vec!["a", "b", "", "c\r"]);
}

#[test]
fn display_trims_unicode_whitespace() {
    let out = CommandOutput {
        stdout: "\u{3000}\t value\u{a0}\n".to_string(),
        stderr: String::new(),
        exit_code: 0,
        success: true,
    };
    assert_eq!(out.to_string(), "value");
}

#[test]
fn raw_output_is_trimmed_at_the_end_only() {
    let out = CommandOutput {
        stdout: "  10.0.1.5 \n".to_string(),
        stderr: String::new(),
        exit_code: 0,
        success: true,
    };
    match OutputResult::from_raw_output(&out) {
        OutputResult::Raw(v) => assert_eq!(v, "  10.0.1.5"),
        other => panic!("unexpected result: {other:?}"),
    }
}

#[test]
fn output_result_kinds() {
    assert_eq!(OutputCommand::new().result_kind(), OutputResultKind::Plain);
    assert_eq!(OutputCommand::new().json().result_kind(), OutputResultKind::All);
    assert_eq!(OutputCommand::new().json().name("ip").result_kind(), OutputResultKind::Single);
    assert_eq!(OutputCommand::new().json().name("ip").raw().result_kind(), OutputResultKind::Raw);
}

#[test]
fn show_result_kinds() {
    assert_eq!(ShowCommand::new().result_kind(), ShowResultKind::State);
    assert_eq!(ShowCommand::new().plan_file("tfplan").result_kind(), ShowResultKind::Plan);
    assert_eq!(ShowCommand::new().no_json().plan_file("tfplan").result_kind(), ShowResultKind::Plain);
}

#[test]
fn counts_are_written_in_decimal() {
    assert!(ApplyCommand::new().parallelism(0).args().contains(&"-parallelism=0".to_string()));
    assert!(ApplyCommand::new()
        .parallelism(u32::MAX)
        .args()
        .contains(&"-parallelism=4294967295".to_string()));
}

#[test]
fn apply_full_order() {
    let args = ApplyCommand::new()
        .plan_file("tfplan")
        .arg("-refresh=false")
        .json()
        .parallelism(3)
        .lock_timeout("5s")
        .lock(true)
        .replace("a.b")
        .target("c.d")
        .var_file("x.tfvars")
        .var("k", "v")
        .auto_approve()
        .args();
    assert_eq!(
        args,
        vec![
            "apply",
            "-auto-approve",
            "-var=k=v",
            "-var-file=x.tfvars",
            "-target=c.d",
            "-replace=a.b",
            "-lock=true",
            "-lock-timeout=5s",
            "-parallelism=3",
            "-json",
            "-refresh=false",
            "tfplan"
        ]
    );
}

#[test]
fn global_args_follow_the_subcommand() {
    let tf = Terraform::builder()
        .working_dir("/tmp/infra")
        .build_with(None, Some("terraform".to_string()))
        .unwrap();
    let args = PlanCommand::new().out("tfplan").prepare_args(&tf);
    let inv = tf.invocation(&args);
    assert_eq!(inv.args, vec!["-chdir=/tmp/infra", "plan", "-no-color", "-input=false", "-out=tfplan"]);
    assert_eq!(tf.invocation(&vec![]).args, vec!["-chdir=/tmp/infra", "-no-color"]);
}
