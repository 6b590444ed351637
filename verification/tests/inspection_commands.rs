use terraform_wrapper::commands::output::OutputResult;
use terraform_wrapper::commands::{
    OutputCommand, ProvidersCommand, RawCommand, ShowCommand, ValidateCommand, VersionCommand,
};
use terraform_wrapper::exec::CommandOutput;
use terraform_wrapper::TerraformCommand;

#[test]
fn output_default_args() {
    let cmd = OutputCommand::new();
    assert_eq!(cmd.args(), vec!["output"]);
}

#[test]
fn json_all_outputs() {
    let cmd = OutputCommand::new().json();
    assert_eq!(cmd.args(), vec!["output", "-json"]);
}

#[test]
fn raw_named_output() {
    let cmd = OutputCommand::new().name("public_ip").raw();
    let args = cmd.args();
    assert_eq!(args, vec!["output", "-raw", "public_ip"]);
}

#[test]
fn json_named_output() {
    let cmd = OutputCommand::new().name("vpc_id").json();
    let args = cmd.args();
    assert_eq!(args, vec!["output", "-json", "vpc_id"]);
}

#[test]
fn name_at_end() {
    let cmd = OutputCommand::new().name("endpoint").arg("-no-color");
    let args = cmd.args();
    // Name should be the last positional argument
    assert_eq!(args.last().unwrap(), "endpoint");
}

#[test]
fn display_raw() {
    let result = OutputResult::Raw("10.0.1.5".to_string());
    assert_eq!(result.plain_text().unwrap(), "10.0.1.5");
}

#[test]
fn display_plain() {
    let output = CommandOutput {
        stdout: "some output\n".to_string(),
        stderr: String::new(),
        exit_code: 0,
        success: true,
    };
    let result = OutputResult::Plain(output);
    assert_eq!(result.plain_text().unwrap(), "some output");
}

#[test]
fn providers_default_args() {
    let cmd = ProvidersCommand::new();
    assert_eq!(cmd.args(), vec!["providers"]);
}

#[test]
fn lock_args() {
    let cmd = ProvidersCommand::lock();
    assert_eq!(cmd.args(), vec!["providers", "lock"]);
}

#[test]
fn lock_with_platforms() {
    let cmd = ProvidersCommand::lock()
        .platform("linux_amd64")
        .platform("darwin_arm64");
    let args = cmd.args();
    assert_eq!(args[0], "providers");
    assert_eq!(args[1], "lock");
    assert!(args.contains(&"-platform=linux_amd64".to_string()));
    assert!(args.contains(&"-platform=darwin_arm64".to_string()));
}

#[test]
fn mirror_args() {
    let cmd = ProvidersCommand::mirror("/tmp/providers");
    assert_eq!(cmd.args(), vec!["providers", "mirror", "/tmp/providers"]);
}

#[test]
fn mirror_with_platform() {
    let cmd = ProvidersCommand::mirror("/tmp/providers").platform("linux_amd64");
    assert_eq!(
        cmd.args(),
        vec![
            "providers",
            "mirror",
            "-platform=linux_amd64",
            "/tmp/providers"
        ]
    );
}

#[test]
fn schema_args() {
    let cmd = ProvidersCommand::schema();
    assert_eq!(cmd.args(), vec!["providers", "schema", "-json"]);
}

#[test]
fn subcommand_only() {
    let cmd = RawCommand::new("console");
    assert_eq!(cmd.args(), vec!["console"]);
}

#[test]
fn with_single_arg() {
    let cmd = RawCommand::new("taint").arg("aws_instance.example");
    assert_eq!(cmd.args(), vec!["taint", "aws_instance.example"]);
}

#[test]
fn with_multiple_args() {
    let cmd = RawCommand::new("untaint").with_args(&["-lock=false", "aws_instance.example"]);
    assert_eq!(
        cmd.args(),
        vec!["untaint", "-lock=false", "aws_instance.example"]
    );
}

#[test]
fn show_default_args_include_json() {
    let cmd = ShowCommand::new();
    assert_eq!(cmd.args(), vec!["show", "-json"]);
}

#[test]
fn show_plan_file_at_end() {
    let cmd = ShowCommand::new().plan_file("tfplan");
    assert_eq!(cmd.args(), vec!["show", "-json", "tfplan"]);
}

#[test]
fn show_no_json_args() {
    let cmd = ShowCommand::new().no_json();
    assert_eq!(cmd.args(), vec!["show"]);
}

#[test]
fn no_json_with_plan_file() {
    let cmd = ShowCommand::new().no_json().plan_file("tfplan");
    assert_eq!(cmd.args(), vec!["show", "tfplan"]);
}

#[test]
fn validate_default_args_include_json() {
    let cmd = ValidateCommand::new();
    assert_eq!(cmd.args(), vec!["validate", "-json"]);
}

#[test]
fn validate_no_json_args() {
    let cmd = ValidateCommand::new().no_json();
    assert_eq!(cmd.args(), vec!["validate"]);
}

#[test]
fn validate_raw_arg_escape_hatch() {
    let cmd = ValidateCommand::new().arg("-test-directory=tests");
    let args = cmd.args();
    assert!(args.contains(&"-test-directory=tests".to_string()));
}

#[test]
fn version_default_args_include_json() {
    let cmd = VersionCommand::new();
    assert_eq!(cmd.args(), vec!["version", "-json"]);
}

#[test]
fn version_no_json_args() {
    let cmd = VersionCommand::new().no_json();
    assert_eq!(cmd.args(), vec!["version"]);
}
