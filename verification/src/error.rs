//! The failure taxonomy of a run and the exact message each failure carries.

use vstd::prelude::*;

use crate::text::contains_seq;
use crate::text::dec_rep;
use crate::text::lemma_contains_at;
use crate::text::u16_to_string;

verus! {

/// Everything that can end a run early.
pub enum Error {
    /// The required credential is absent from the environment.
    MissingCredential,
    /// The scaffold directory could not be created.
    DirCreate { name: String, cause: String },
    /// The seed file could not be written.
    SeedWrite { cause: String },
    /// A VCS subprocess could not be launched at all.
    VcsLaunch { command: String, cause: String },
    /// A VCS subprocess ran and exited non-zero; `stderr` is what it printed.
    VcsFailure { command: String, stderr: String },
    /// The creation request could not be sent or its reply not received.
    Transport { cause: String },
    /// The API answered with a non-success status.
    ApiRejected { status: u16, body: String },
    /// The success reply did not hold a clone URL.
    ResponseParse { cause: String },
}

/// The mathematical image of an [`Error`].
pub enum ErrorModel {
    MissingCredential,
    DirCreate { name: Seq<char>, cause: Seq<char> },
    SeedWrite { cause: Seq<char> },
    VcsLaunch { command: Seq<char>, cause: Seq<char> },
    VcsFailure { command: Seq<char>, stderr: Seq<char> },
    Transport { cause: Seq<char> },
    ApiRejected { status: u16, body: Seq<char> },
    ResponseParse { cause: Seq<char> },
}

impl View for Error {
    type V = ErrorModel;

    open spec fn view(&self) -> ErrorModel {
        match self {
            Error::MissingCredential => ErrorModel::MissingCredential,
            Error::DirCreate { name, cause } => ErrorModel::DirCreate {
                name: name@,
                cause: cause@,
            },
            Error::SeedWrite { cause } => ErrorModel::SeedWrite { cause: cause@ },
            Error::VcsLaunch { command, cause } => ErrorModel::VcsLaunch {
                command: command@,
                cause: cause@,
            },
            Error::VcsFailure { command, stderr } => ErrorModel::VcsFailure {
                command: command@,
                stderr: stderr@,
            },
            Error::Transport { cause } => ErrorModel::Transport { cause: cause@ },
            Error::ApiRejected { status, body } => ErrorModel::ApiRejected {
                status: *status,
                body: body@,
            },
            Error::ResponseParse { cause } => ErrorModel::ResponseParse { cause: cause@ },
        }
    }
}

/// The human-readable report of a failure, one fixed shape per variant.
pub open spec fn message_spec(e: ErrorModel) -> Seq<char> {
    match e {
        ErrorModel::MissingCredential => "GITHUB_TOKEN is not set in the environment"@,
        ErrorModel::DirCreate { name, cause } => "creating directory "@ + name + ": "@ + cause,
        ErrorModel::SeedWrite { cause } => "writing README.md: "@ + cause,
        ErrorModel::VcsLaunch { command, cause } => "running "@ + command + ": "@ + cause,
        ErrorModel::VcsFailure { command, stderr } => command + " failed: "@ + stderr,
        ErrorModel::Transport { cause } => "GitHub API request failed: "@ + cause,
        ErrorModel::ApiRejected { status, body } => "GitHub repo creation failed: "@ + dec_rep(
            status as nat,
        ) + " "@ + body,
        ErrorModel::ResponseParse { cause } => "parsing GitHub API response: "@ + cause,
    }
}

impl Error {
    /// Renders the failure report, exactly as `message_spec` describes.
    pub fn message(&self) -> (r: String)
        ensures
            r@ == message_spec(self@),
    {
        match self {
            Error::MissingCredential => String::from_str(
                "GITHUB_TOKEN is not set in the environment",
            ),
            Error::DirCreate { name, cause } => {
                let mut r = String::from_str("creating directory ");
                r.append(name.as_str());
                r.append(": ");
                r.append(cause.as_str());
                proof {
                    assert(r@ =~= message_spec(self@));
                }
                r
            },
            Error::SeedWrite { cause } => {
                let mut r = String::from_str("writing README.md: ");
                r.append(cause.as_str());
                r
            },
            Error::VcsLaunch { command, cause } => {
                let mut r = String::from_str("running ");
                r.append(command.as_str());
                r.append(": ");
                r.append(cause.as_str());
                proof {
                    assert(r@ =~= message_spec(self@));
                }
                r
            },
            Error::VcsFailure { command, stderr } => {
                let mut r = command.clone();
                r.append(" failed: ");
                r.append(stderr.as_str());
                proof {
                    assert(r@ =~= message_spec(self@));
                }
                r
            },
            Error::Transport { cause } => {
                let mut r = String::from_str("GitHub API request failed: ");
                r.append(cause.as_str());
                r
            },
            Error::ApiRejected { status, body } => {
                let mut r = String::from_str("GitHub repo creation failed: ");
                let status_text = u16_to_string(*status);
                r.append(status_text.as_str());
                r.append(" ");
                r.append(body.as_str());
                proof {
                    assert(r@ =~= message_spec(self@));
                }
                r
            },
            Error::ResponseParse { cause } => {
                let mut r = String::from_str("parsing GitHub API response: ");
                r.append(cause.as_str());
                r
            },
        }
    }
}

/// An API rejection is reported with the literal status code and the literal
/// response body inside the message.
pub proof fn lemma_api_rejection_message(status: u16, body: Seq<char>)
    ensures
        contains_seq(
            message_spec(ErrorModel::ApiRejected { status, body }),
            dec_rep(status as nat),
        ),
        contains_seq(message_spec(ErrorModel::ApiRejected { status, body }), body),
{
    let msg = message_spec(ErrorModel::ApiRejected { status, body });
    let prefix = "GitHub repo creation failed: "@;
    let status_text = dec_rep(status as nat);
    let i = prefix.len() as int;
    assert(msg.subrange(i, i + status_text.len() as int) =~= status_text);
    lemma_contains_at(msg, status_text, i);
    let j = msg.len() - body.len();
    assert(msg.subrange(j, j + body.len() as int) =~= body);
    lemma_contains_at(msg, body, j);
}

/// A subprocess failure is reported with the subprocess's captured standard
/// error inside the message.
pub proof fn lemma_vcs_failure_message(command: Seq<char>, stderr: Seq<char>)
    ensures
        contains_seq(message_spec(ErrorModel::VcsFailure { command, stderr }), stderr),
{
    let msg = message_spec(ErrorModel::VcsFailure { command, stderr });
    let j = msg.len() - stderr.len();
    assert(msg.subrange(j, j + stderr.len() as int) =~= stderr);
    lemma_contains_at(msg, stderr, j);
}

} // verus!
