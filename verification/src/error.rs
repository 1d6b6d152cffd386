//! What can go wrong in a run.

use vstd::prelude::*;
use vstd::string::StringExecFns;
use crate::text::{decimal, push_decimal};

verus! {

/// A failure that ends the run.
#[derive(Debug)]
pub enum RunError {
    /// The hook input held fewer than three fields.
    Input { given: String },
    /// The process environment names no repository directory.
    Environment,
    /// The ref name holds no `/`, so it names no branch.
    Resolution { refname: String },
    /// The list of changed files could not be computed.
    Diff { command: String },
    /// A step of checking out or removing the workspace failed.
    Workspace { path: String },
    /// A pipeline definition could not be read.
    DefinitionParse { detail: String },
    /// An environment file could not be read.
    EnvFile { path: String },
    /// The output file of a pipeline could not be created.
    Channel { detail: String },
    /// A template could not be rendered.
    Template { template: String },
    /// A command ended with a code other than zero (`code`), or could not
    /// be run to its end at all (no code).
    CommandFailed { code: Option<i32> },
    /// A request was answered with a status of 400 or above (`status` and
    /// the response body), or was not answered at all (no status, and the
    /// reason).
    Http { status: Option<u16>, body: String },
    /// The driver reported something that the run was not waiting for.
    Protocol,
}

/// A failure as contracts see it.
pub ghost enum Failure {
    Input { given: Seq<char> },
    Environment,
    Resolution { refname: Seq<char> },
    Diff { command: Seq<char> },
    Workspace { path: Seq<char> },
    DefinitionParse { detail: Seq<char> },
    EnvFile { path: Seq<char> },
    Channel { detail: Seq<char> },
    Template { template: Seq<char> },
    CommandFailed { code: Option<i32> },
    Http { status: Option<u16>, body: Seq<char> },
    Protocol,
}

impl View for RunError {
    type V = Failure;

    open spec fn view(&self) -> Failure {
        match *self {
            RunError::Input { given } => Failure::Input { given: given@ },
            RunError::Environment => Failure::Environment,
            RunError::Resolution { refname } => Failure::Resolution { refname: refname@ },
            RunError::Diff { command } => Failure::Diff { command: command@ },
            RunError::Workspace { path } => Failure::Workspace { path: path@ },
            RunError::DefinitionParse { detail } => Failure::DefinitionParse { detail: detail@ },
            RunError::EnvFile { path } => Failure::EnvFile { path: path@ },
            RunError::Channel { detail } => Failure::Channel { detail: detail@ },
            RunError::Template { template } => Failure::Template { template: template@ },
            RunError::CommandFailed { code } => Failure::CommandFailed { code },
            RunError::Http { status, body } => Failure::Http { status, body: body@ },
            RunError::Protocol => Failure::Protocol,
        }
    }
}

/// The view of an optional failure.
pub open spec fn failure_of(e: Option<RunError>) -> Option<Failure> {
    match e {
        Some(e) => Some(e@),
        None => None,
    }
}

impl RunError {
    /// A copy of the failure.
    pub fn duplicate(&self) -> (copy: RunError)
        ensures
            copy@ == self@,
    {
        match self {
            RunError::Input { given } => RunError::Input { given: given.clone() },
            RunError::Environment => RunError::Environment,
            RunError::Resolution { refname } => RunError::Resolution { refname: refname.clone() },
            RunError::Diff { command } => RunError::Diff { command: command.clone() },
            RunError::Workspace { path } => RunError::Workspace { path: path.clone() },
            RunError::DefinitionParse { detail } => RunError::DefinitionParse {
                detail: detail.clone(),
            },
            RunError::EnvFile { path } => RunError::EnvFile { path: path.clone() },
            RunError::Channel { detail } => RunError::Channel { detail: detail.clone() },
            RunError::Template { template } => RunError::Template { template: template.clone() },
            RunError::CommandFailed { code } => RunError::CommandFailed { code: *code },
            RunError::Http { status, body } => RunError::Http {
                status: *status,
                body: body.clone(),
            },
            RunError::Protocol => RunError::Protocol,
        }
    }
}

/// The decimal representation of `n`, with a minus sign where it is
/// negative.
pub open spec fn signed_decimal(n: int) -> Seq<char> {
    if n < 0 {
        seq!['-'] + decimal((-n) as nat)
    } else {
        decimal(n as nat)
    }
}

/// What a failure says of itself.
pub open spec fn message_text(failure: Failure) -> Seq<char> {
    match failure {
        Failure::Input { given } => "Expect stdin in format: <oldrev> <newrev> <ref>, but given: "@
            + given,
        Failure::Environment => "env GIT_DIR not found, it should be run from bare repo"@,
        Failure::Resolution { refname } => "No branch resolved from refname '"@ + refname + "'"@,
        Failure::Diff { command } => "Command error: "@ + command,
        Failure::Workspace { path } => "Failed to checkout and update work dir at "@ + path,
        Failure::DefinitionParse { detail } => "Failed to parse pipeline file "@ + detail,
        Failure::EnvFile { path } => "Failed to read env file "@ + path,
        Failure::Channel { detail } => "Failed to create output env file: "@ + detail,
        Failure::Template { template } => "Failed to render template "@ + template,
        Failure::CommandFailed { code } => match code {
            Some(code) => "Command failed with exit code "@ + signed_decimal(code as int),
            None => "Command failed without exit code"@,
        },
        Failure::Http { status, body } => match status {
            Some(status) => decimal(status as nat) + ": "@ + body,
            None => "Request failed: "@ + body,
        },
        Failure::Protocol => "Unexpected report from the driver"@,
    }
}

impl RunError {
    /// What the failure says of itself.
    pub fn message(&self) -> (text: String)
        ensures
            text@ == message_text(self@),
    {
        match self {
            RunError::Input { given } => {
                let mut text =
                    "Expect stdin in format: <oldrev> <newrev> <ref>, but given: ".to_owned();
                text.append(given.as_str());
                text
            },
            RunError::Environment => {
                "env GIT_DIR not found, it should be run from bare repo".to_owned()
            },
            RunError::Resolution { refname } => {
                let mut text = "No branch resolved from refname '".to_owned();
                text.append(refname.as_str());
                text.append("'");
                text
            },
            RunError::Diff { command } => {
                let mut text = "Command error: ".to_owned();
                text.append(command.as_str());
                text
            },
            RunError::Workspace { path } => {
                let mut text = "Failed to checkout and update work dir at ".to_owned();
                text.append(path.as_str());
                text
            },
            RunError::DefinitionParse { detail } => {
                let mut text = "Failed to parse pipeline file ".to_owned();
                text.append(detail.as_str());
                text
            },
            RunError::EnvFile { path } => {
                let mut text = "Failed to read env file ".to_owned();
                text.append(path.as_str());
                text
            },
            RunError::Channel { detail } => {
                let mut text = "Failed to create output env file: ".to_owned();
                text.append(detail.as_str());
                text
            },
            RunError::Template { template } => {
                let mut text = "Failed to render template ".to_owned();
                text.append(template.as_str());
                text
            },
            RunError::CommandFailed { code } => match code {
                Some(code) => {
                    let mut text = "Command failed with exit code ".to_owned();
                    let code: i64 = *code as i64;
                    if code < 0 {
                        text.push('-');
                        push_decimal(&mut text, (-code) as u128);
                    } else {
                        push_decimal(&mut text, code as u128);
                    }
                    text
                },
                None => "Command failed without exit code".to_owned(),
            },
            RunError::Http { status, body } => match status {
                Some(status) => {
                    let mut text = String::new();
                    push_decimal(&mut text, *status as u128);
                    text.append(": ");
                    text.append(body.as_str());
                    text
                },
                None => {
                    let mut text = "Request failed: ".to_owned();
                    text.append(body.as_str());
                    text
                },
            },
            RunError::Protocol => "Unexpected report from the driver".to_owned(),
        }
    }
}

} // verus!
