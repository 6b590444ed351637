use terraform_wrapper::exec::CommandOutput;

#[test]
fn display_command_output_trims_whitespace() {
    let output = CommandOutput {
        stdout: "  hello world  \n".to_string(),
        stderr: String::new(),
        exit_code: 0,
        success: true,
    };
    assert_eq!(output.to_string(), "hello world");
}

#[test]
fn display_command_output_empty() {
    let output = CommandOutput {
        stdout: String::new(),
        stderr: String::new(),
        exit_code: 0,
        success: true,
    };
    assert_eq!(output.to_string(), "");
}

#[test]
fn display_command_output_multiline() {
    let output = CommandOutput {
        stdout: "line1\nline2\nline3\n".to_string(),
        stderr: String::new(),
        exit_code: 0,
        success: true,
    };
    assert_eq!(output.to_string(), "line1\nline2\nline3");
}
