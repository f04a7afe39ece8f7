use git_profiles::gateway::{
    get_current_email, read_args, tool_name, write_args, write_succeeded, ConfigKey, GatewayError,
    Invocation,
};

fn exited(success: bool, stdout: &[u8]) -> Invocation {
    Invocation::Exited { success, stdout: stdout.to_vec() }
}

#[test]
fn tool_is_git() {
    assert_eq!(tool_name(), "git");
}

#[test]
fn keys_have_their_configuration_names() {
    assert_eq!(ConfigKey::Email.as_str(), "user.email");
    assert_eq!(ConfigKey::Name.as_str(), "user.name");
}

#[test]
fn read_args_ask_for_the_global_value() {
    assert_eq!(read_args(ConfigKey::Email), vec!["config", "--global", "--get", "user.email"]);
    assert_eq!(read_args(ConfigKey::Name), vec!["config", "--global", "--get", "user.name"]);
}

#[test]
fn write_args_set_the_global_value() {
    assert_eq!(
        write_args(ConfigKey::Email, "bob@x.com"),
        vec!["config", "--global", "user.email", "bob@x.com"]
    );
    assert_eq!(write_args(ConfigKey::Name, "Bob B"), vec!["config", "--global", "user.name", "Bob B"]);
}

#[test]
fn current_email_is_the_trimmed_output() {
    assert_eq!(get_current_email(exited(true, b"bob@x.com\n")), Ok("bob@x.com".to_string()));
    assert_eq!(get_current_email(exited(true, b"  bob@x.com\r\n")), Ok("bob@x.com".to_string()));
    assert_eq!(get_current_email(exited(true, b"")), Ok(String::new()));
    assert_eq!(
        get_current_email(exited(true, "andr\u{e9}@x.com\n".as_bytes())),
        Ok("andr\u{e9}@x.com".to_string())
    );
}

#[test]
fn current_email_is_empty_when_the_tool_exits_with_failure() {
    assert_eq!(get_current_email(exited(false, b"")), Ok(String::new()));
    assert_eq!(get_current_email(exited(false, b"noise\n")), Ok(String::new()));
    assert_eq!(get_current_email(exited(false, &[0xff])), Ok(String::new()));
}

#[test]
fn current_email_fails_when_the_tool_does_not_start() {
    assert_eq!(get_current_email(Invocation::NotStarted), Err(GatewayError::ReadFailed));
}

#[test]
fn current_email_fails_on_output_that_is_not_utf8() {
    assert_eq!(get_current_email(exited(true, &[0x62, 0xff, 0x0a])), Err(GatewayError::UnreadableOutput));
    assert_eq!(get_current_email(exited(true, &[0xc3])), Err(GatewayError::UnreadableOutput));
    assert_eq!(get_current_email(exited(true, &[0xed, 0xa0, 0x80])), Err(GatewayError::UnreadableOutput));
}

#[test]
fn a_write_takes_effect_only_on_a_successful_exit() {
    assert!(write_succeeded(&exited(true, b"")));
    assert!(!write_succeeded(&exited(false, b"")));
    assert!(!write_succeeded(&Invocation::NotStarted));
}

#[test]
fn gateway_errors_have_diagnostics() {
    assert_eq!(GatewayError::ReadFailed.message(), "Error getting the email");
    assert_eq!(GatewayError::UnreadableOutput.message(), "Error reading the email");
    assert_eq!(GatewayError::WriteFailed(ConfigKey::Email).message(), "Error setting the email");
    assert_eq!(GatewayError::WriteFailed(ConfigKey::Name).message(), "Error setting the name");
}
