//! The identity that Git holds in its global configuration: which commands
//! read and write it, and what their outcome means.
//!
//! Nothing here starts a process. The caller runs the tool with the
//! arguments given here and hands back what came of it.

use vstd::prelude::*;
use vstd::utf8::{valid_utf8, decode_utf8};
use crate::text::{trim, trimmed};

verus! {

/// One of the two configuration values that make up the identity.
#[derive(Debug, Clone, Copy, PartialEq, Eq, Structural)]
pub enum ConfigKey {
    Email,
    Name,
}

/// Why the identity could not be read or written.
#[derive(Debug, Clone, Copy, PartialEq, Eq, Structural)]
pub enum GatewayError {
    /// The tool could not be started to read the e-mail address.
    ReadFailed,
    /// The tool answered with bytes that are not UTF-8.
    UnreadableOutput,
    /// The tool could not be started, or exited with a failure, when it was
    /// to write this value.
    WriteFailed(ConfigKey),
}

/// What came of running the tool once.
#[derive(Debug, Clone, PartialEq, Eq)]
pub enum Invocation {
    /// The tool could not be started.
    NotStarted,
    /// The tool ran and exited, with success or not, and wrote `stdout` to its
    /// standard output.
    Exited { success: bool, stdout: Vec<u8> },
}

/// The name of a key in Git's configuration.
pub open spec fn key_text(key: ConfigKey) -> Seq<char> {
    match key {
        ConfigKey::Email => "user.email"@,
        ConfigKey::Name => "user.name"@,
    }
}

/// The text of each argument, in order.
pub open spec fn arg_texts(args: Seq<String>) -> Seq<Seq<char>> {
    args.map_values(|a: String| a@)
}

/// The arguments that make the tool print the global value of `key`.
pub open spec fn read_arg_texts(key: ConfigKey) -> Seq<Seq<char>> {
    seq!["config"@, "--global"@, "--get"@, key_text(key)]
}

/// The arguments that make the tool set the global value of `key` to `value`.
pub open spec fn write_arg_texts(key: ConfigKey, value: Seq<char>) -> Seq<Seq<char>> {
    seq!["config"@, "--global"@, key_text(key), value]
}

/// The diagnostic that goes with an error.
pub open spec fn gateway_error_text(error: GatewayError) -> Seq<char> {
    match error {
        GatewayError::ReadFailed => "Error getting the email"@,
        GatewayError::UnreadableOutput => "Error reading the email"@,
        GatewayError::WriteFailed(ConfigKey::Email) => "Error setting the email"@,
        GatewayError::WriteFailed(ConfigKey::Name) => "Error setting the name"@,
    }
}

/// The e-mail address that the outcome of a read stands for: the output
/// without surrounding whitespace where the tool succeeded, the empty text
/// where it exited with a failure, as it does when no address is set.
pub open spec fn email_of_outcome(outcome: Invocation) -> Result<Seq<char>, GatewayError> {
    match outcome {
        Invocation::NotStarted => Err(GatewayError::ReadFailed),
        Invocation::Exited { success, stdout } => {
            if !success {
                Ok(Seq::<char>::empty())
            } else if valid_utf8(stdout@) {
                Ok(trimmed(decode_utf8(stdout@)))
            } else {
                Err(GatewayError::UnreadableOutput)
            }
        },
    }
}

/// A write took effect where the tool ran and exited with success.
pub open spec fn write_took_effect(outcome: Invocation) -> bool {
    outcome matches Invocation::Exited { success, .. } && success
}

/// `String::from_utf8` of std: the text that `bytes` encode where they are
/// valid UTF-8, and nothing where they are not.
#[verifier::external_body]
fn decode(bytes: Vec<u8>) -> (r: Option<String>)
    ensures
        r is Some <==> valid_utf8(bytes@),
        r matches Some(s) ==> s@ == decode_utf8(bytes@),
{
    String::from_utf8(bytes).ok()
}

impl ConfigKey {
    /// The name of this key in Git's configuration.
    pub fn as_str(&self) -> (s: &'static str)
        ensures
            s@ == key_text(*self),
    {
        match self {
            ConfigKey::Email => "user.email",
            ConfigKey::Name => "user.name",
        }
    }
}

impl GatewayError {
    /// The diagnostic that goes with this error.
    pub fn message(&self) -> (s: String)
        ensures
            s@ == gateway_error_text(*self),
    {
        match self {
            GatewayError::ReadFailed => "Error getting the email".to_owned(),
            GatewayError::UnreadableOutput => "Error reading the email".to_owned(),
            GatewayError::WriteFailed(ConfigKey::Email) => "Error setting the email".to_owned(),
            GatewayError::WriteFailed(ConfigKey::Name) => "Error setting the name".to_owned(),
        }
    }
}

/// The name of the program to run.
pub fn tool_name() -> (s: &'static str)
    ensures
        s@ == "git"@,
{
    "git"
}

/// The arguments that make the tool print the global value of `key`.
pub fn read_args(key: ConfigKey) -> (args: Vec<String>)
    ensures
        arg_texts(args@) == read_arg_texts(key),
{
    let mut args: Vec<String> = Vec::new();
    args.push("config".to_owned());
    args.push("--global".to_owned());
    args.push("--get".to_owned());
    args.push(key.as_str().to_owned());
    assert(arg_texts(args@) =~= read_arg_texts(key));
    args
}

/// The arguments that make the tool set the global value of `key` to `value`.
pub fn write_args(key: ConfigKey, value: &str) -> (args: Vec<String>)
    ensures
        arg_texts(args@) == write_arg_texts(key, value@),
{
    let mut args: Vec<String> = Vec::new();
    args.push("config".to_owned());
    args.push("--global".to_owned());
    args.push(key.as_str().to_owned());
    args.push(value.to_owned());
    assert(arg_texts(args@) =~= write_arg_texts(key, value@));
    args
}

/// The current e-mail address, from the outcome of running the tool with
/// `read_args(ConfigKey::Email)`.
pub fn get_current_email(outcome: Invocation) -> (r: Result<String, GatewayError>)
    ensures
        match email_of_outcome(outcome) {
            Ok(email) => r matches Ok(s) && s@ == email,
            Err(e) => r matches Err(f) && f == e,
        },
{
    match outcome {
        Invocation::NotStarted => Err(GatewayError::ReadFailed),
        Invocation::Exited { success, stdout } => {
            if !success {
                return Ok(String::new());
            }
            match decode(stdout) {
                Some(text) => Ok(trim(text.as_str())),
                None => Err(GatewayError::UnreadableOutput),
            }
        },
    }
}

/// Whether a write took effect: the tool ran and exited with success.
pub fn write_succeeded(outcome: &Invocation) -> (b: bool)
    ensures
        b == write_took_effect(*outcome),
{
    match outcome {
        Invocation::NotStarted => false,
        Invocation::Exited { success, .. } => *success,
    }
}

} // verus!
