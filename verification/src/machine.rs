//! The run as a state machine.
//!
//! A run walks a fixed line of states, left to right, one edge per
//! side-effecting step; any step's failure moves it to the terminal failed
//! state. The machine decides everything — which step comes next, with which
//! strings, and how a failure is recorded — while an unverified driver merely
//! performs the step each action names and reports what happened as an event.

use vstd::prelude::*;

use crate::error::message_spec;
use crate::error::Error;
use crate::error::ErrorModel;
use crate::error::lemma_vcs_failure_message;
use crate::request::accept_header;
use crate::request::auth_header_spec;
use crate::request::auth_header_value;
use crate::request::creation_endpoint;
use crate::request::creation_endpoint_spec;
use crate::request::request_body;
use crate::request::request_body_spec;
use crate::request::user_agent;
use crate::scaffold::seed_content;
use crate::scaffold::seed_content_spec;
use crate::text::contains_seq;

verus! {

/// What a run was asked to do: the repository's name, its visibility, and the
/// optional organization owner.
pub struct Options {
    pub repo_name: String,
    pub private: bool,
    pub org: Option<String>,
}

/// The mathematical image of [`Options`].
pub struct OptionsModel {
    pub repo_name: Seq<char>,
    pub private: bool,
    pub org: Option<Seq<char>>,
}

impl View for Options {
    type V = OptionsModel;

    open spec fn view(&self) -> OptionsModel {
        OptionsModel {
            repo_name: self.repo_name@,
            private: self.private,
            org: self.org.deep_view(),
        }
    }
}

/// Where a run stands. The states follow the run's one line: scaffold, local
/// VCS steps, remote creation, remote VCS steps; `Done` and `Failed` are the
/// two terminal states.
pub enum State {
    Start,
    DirCreated,
    ReadmeWritten,
    VcsInitialized,
    Staged,
    Committed,
    ResponseReceived { body: String },
    RemoteCreated { ssh_url: String },
    RemoteConfigured { ssh_url: String },
    BranchRenamed { ssh_url: String },
    Done { remote_url: String },
    Failed { error: Error },
}

/// The mathematical image of a [`State`].
pub enum StateModel {
    Start,
    DirCreated,
    ReadmeWritten,
    VcsInitialized,
    Staged,
    Committed,
    ResponseReceived { body: Seq<char> },
    RemoteCreated { ssh_url: Seq<char> },
    RemoteConfigured { ssh_url: Seq<char> },
    BranchRenamed { ssh_url: Seq<char> },
    Done { remote_url: Seq<char> },
    Failed { error: ErrorModel },
}

impl View for State {
    type V = StateModel;

    open spec fn view(&self) -> StateModel {
        match self {
            State::Start => StateModel::Start,
            State::DirCreated => StateModel::DirCreated,
            State::ReadmeWritten => StateModel::ReadmeWritten,
            State::VcsInitialized => StateModel::VcsInitialized,
            State::Staged => StateModel::Staged,
            State::Committed => StateModel::Committed,
            State::ResponseReceived { body } => StateModel::ResponseReceived { body: body@ },
            State::RemoteCreated { ssh_url } => StateModel::RemoteCreated { ssh_url: ssh_url@ },
            State::RemoteConfigured { ssh_url } => StateModel::RemoteConfigured {
                ssh_url: ssh_url@,
            },
            State::BranchRenamed { ssh_url } => StateModel::BranchRenamed { ssh_url: ssh_url@ },
            State::Done { remote_url } => StateModel::Done { remote_url: remote_url@ },
            State::Failed { error } => StateModel::Failed { error: error@ },
        }
    }
}

/// What the driver reports back after performing an action.
pub enum Event {
    DirOk,
    DirErr { cause: String },
    SeedOk,
    SeedErr { cause: String },
    VcsOk,
    VcsLaunchErr { cause: String },
    VcsErr { stderr: String },
    ApiResponded { status: u16, body: String },
    ApiTransportErr { cause: String },
    ParsedOk { ssh_url: String },
    ParseErr { cause: String },
}

/// The mathematical image of an [`Event`].
pub enum EventModel {
    DirOk,
    DirErr { cause: Seq<char> },
    SeedOk,
    SeedErr { cause: Seq<char> },
    VcsOk,
    VcsLaunchErr { cause: Seq<char> },
    VcsErr { stderr: Seq<char> },
    ApiResponded { status: u16, body: Seq<char> },
    ApiTransportErr { cause: Seq<char> },
    ParsedOk { ssh_url: Seq<char> },
    ParseErr { cause: Seq<char> },
}

impl View for Event {
    type V = EventModel;

    open spec fn view(&self) -> EventModel {
        match self {
            Event::DirOk => EventModel::DirOk,
            Event::DirErr { cause } => EventModel::DirErr { cause: cause@ },
            Event::SeedOk => EventModel::SeedOk,
            Event::SeedErr { cause } => EventModel::SeedErr { cause: cause@ },
            Event::VcsOk => EventModel::VcsOk,
            Event::VcsLaunchErr { cause } => EventModel::VcsLaunchErr { cause: cause@ },
            Event::VcsErr { stderr } => EventModel::VcsErr { stderr: stderr@ },
            Event::ApiResponded { status, body } => EventModel::ApiResponded {
                status: *status,
                body: body@,
            },
            Event::ApiTransportErr { cause } => EventModel::ApiTransportErr { cause: cause@ },
            Event::ParsedOk { ssh_url } => EventModel::ParsedOk { ssh_url: ssh_url@ },
            Event::ParseErr { cause } => EventModel::ParseErr { cause: cause@ },
        }
    }
}

/// The side-effecting step the driver is to perform next.
pub enum Action {
    /// Create the scaffold directory (idempotently).
    CreateDir { name: String },
    /// Write the seed file with this exact content into the directory.
    WriteSeed { dir: String, content: String },
    /// Run the VCS executable with these arguments, in the directory.
    RunVcs { dir: String, args: Vec<String> },
    /// Send the creation request: one POST with this body and these headers.
    CallApi { url: String, body: String, auth: String, accept: String, user_agent: String },
    /// Extract the clone URL from this success response body.
    ParseBody { body: String },
}

/// The mathematical image of an [`Action`].
pub enum ActionModel {
    CreateDir { name: Seq<char> },
    WriteSeed { dir: Seq<char>, content: Seq<char> },
    RunVcs { dir: Seq<char>, args: Seq<Seq<char>> },
    CallApi {
        url: Seq<char>,
        body: Seq<char>,
        auth: Seq<char>,
        accept: Seq<char>,
        user_agent: Seq<char>,
    },
    ParseBody { body: Seq<char> },
}

impl View for Action {
    type V = ActionModel;

    open spec fn view(&self) -> ActionModel {
        match self {
            Action::CreateDir { name } => ActionModel::CreateDir { name: name@ },
            Action::WriteSeed { dir, content } => ActionModel::WriteSeed {
                dir: dir@,
                content: content@,
            },
            Action::RunVcs { dir, args } => ActionModel::RunVcs {
                dir: dir@,
                args: args.deep_view(),
            },
            Action::CallApi { url, body, auth, accept, user_agent } => ActionModel::CallApi {
                url: url@,
                body: body@,
                auth: auth@,
                accept: accept@,
                user_agent: user_agent@,
            },
            Action::ParseBody { body } => ActionModel::ParseBody { body: body@ },
        }
    }
}

/// The view of an optional action, for stating what `next_action` returns.
pub open spec fn opt_action_view(r: Option<Action>) -> Option<ActionModel> {
    match r {
        Some(a) => Some(a@),
        None => None,
    }
}

/// A status the API counts as success.
pub open spec fn is_success_status(status: u16) -> bool {
    200 <= status < 300
}

/// The states in which the run waits for a VCS subprocess to finish.
pub open spec fn awaits_vcs(s: StateModel) -> bool {
    ||| s is ReadmeWritten
    ||| s is VcsInitialized
    ||| s is Staged
    ||| s is RemoteCreated
    ||| s is RemoteConfigured
    ||| s is BranchRenamed
}

/// The command line shown in reports about the VCS subprocess a state waits
/// for; empty for states that wait for none.
pub open spec fn vcs_command_display(s: StateModel) -> Seq<char> {
    match s {
        StateModel::ReadmeWritten => "git init"@,
        StateModel::VcsInitialized => "git add ."@,
        StateModel::Staged => "git commit -m Initial commit"@,
        StateModel::RemoteCreated { ssh_url } => "git remote add origin "@ + ssh_url,
        StateModel::RemoteConfigured { .. } => "git branch -M main"@,
        StateModel::BranchRenamed { .. } => "git push -u origin main"@,
        _ => Seq::empty(),
    }
}

/// The whole transition relation: what state follows `s` when the driver
/// reports `e`. An event that no edge of `s` expects leaves the state as it
/// is; in particular both terminal states absorb every event.
pub open spec fn next_state(opts: OptionsModel, s: StateModel, e: EventModel) -> StateModel {
    match e {
        EventModel::DirOk => if s is Start {
            StateModel::DirCreated
        } else {
            s
        },
        EventModel::DirErr { cause } => if s is Start {
            StateModel::Failed {
                error: ErrorModel::DirCreate { name: opts.repo_name, cause },
            }
        } else {
            s
        },
        EventModel::SeedOk => if s is DirCreated {
            StateModel::ReadmeWritten
        } else {
            s
        },
        EventModel::SeedErr { cause } => if s is DirCreated {
            StateModel::Failed { error: ErrorModel::SeedWrite { cause } }
        } else {
            s
        },
        EventModel::VcsOk => match s {
            StateModel::ReadmeWritten => StateModel::VcsInitialized,
            StateModel::VcsInitialized => StateModel::Staged,
            StateModel::Staged => StateModel::Committed,
            StateModel::RemoteCreated { ssh_url } => StateModel::RemoteConfigured { ssh_url },
            StateModel::RemoteConfigured { ssh_url } => StateModel::BranchRenamed { ssh_url },
            StateModel::BranchRenamed { ssh_url } => StateModel::Done { remote_url: ssh_url },
            _ => s,
        },
        EventModel::VcsErr { stderr } => if awaits_vcs(s) {
            StateModel::Failed {
                error: ErrorModel::VcsFailure { command: vcs_command_display(s), stderr },
            }
        } else {
            s
        },
        EventModel::VcsLaunchErr { cause } => if awaits_vcs(s) {
            StateModel::Failed {
                error: ErrorModel::VcsLaunch { command: vcs_command_display(s), cause },
            }
        } else {
            s
        },
        EventModel::ApiResponded { status, body } => if s is Committed {
            if is_success_status(status) {
                StateModel::ResponseReceived { body }
            } else {
                StateModel::Failed { error: ErrorModel::ApiRejected { status, body } }
            }
        } else {
            s
        },
        EventModel::ApiTransportErr { cause } => if s is Committed {
            StateModel::Failed { error: ErrorModel::Transport { cause } }
        } else {
            s
        },
        EventModel::ParsedOk { ssh_url } => if s is ResponseReceived {
            StateModel::RemoteCreated { ssh_url }
        } else {
            s
        },
        EventModel::ParseErr { cause } => if s is ResponseReceived {
            StateModel::Failed { error: ErrorModel::ResponseParse { cause } }
        } else {
            s
        },
    }
}

/// The action each state asks of the driver; the terminal states ask nothing.
pub open spec fn action_of(opts: OptionsModel, auth: Seq<char>, s: StateModel) -> Option<
    ActionModel,
> {
    match s {
        StateModel::Start => Some(ActionModel::CreateDir { name: opts.repo_name }),
        StateModel::DirCreated => Some(
            ActionModel::WriteSeed {
                dir: opts.repo_name,
                content: seed_content_spec(opts.repo_name),
            },
        ),
        StateModel::ReadmeWritten => Some(
            ActionModel::RunVcs { dir: opts.repo_name, args: seq!["init"@] },
        ),
        StateModel::VcsInitialized => Some(
            ActionModel::RunVcs { dir: opts.repo_name, args: seq!["add"@, "."@] },
        ),
        StateModel::Staged => Some(
            ActionModel::RunVcs {
                dir: opts.repo_name,
                args: seq!["commit"@, "-m"@, "Initial commit"@],
            },
        ),
        StateModel::Committed => Some(
            ActionModel::CallApi {
                url: creation_endpoint_spec(opts.org),
                body: request_body_spec(opts.repo_name, opts.private),
                auth,
                accept: "application/vnd.github+json"@,
                user_agent: "gh-repo-create-cli"@,
            },
        ),
        StateModel::ResponseReceived { body } => Some(ActionModel::ParseBody { body }),
        StateModel::RemoteCreated { ssh_url } => Some(
            ActionModel::RunVcs {
                dir: opts.repo_name,
                args: seq!["remote"@, "add"@, "origin"@, ssh_url],
            },
        ),
        StateModel::RemoteConfigured { .. } => Some(
            ActionModel::RunVcs { dir: opts.repo_name, args: seq!["branch"@, "-M"@, "main"@] },
        ),
        StateModel::BranchRenamed { .. } => Some(
            ActionModel::RunVcs {
                dir: opts.repo_name,
                args: seq!["push"@, "-u"@, "origin"@, "main"@],
            },
        ),
        StateModel::Done { .. } => None,
        StateModel::Failed { .. } => None,
    }
}

/// The state a run begins in: failed at once when the credential is absent,
/// otherwise at the start of the line.
pub open spec fn initial_state(token: Option<Seq<char>>) -> StateModel {
    match token {
        None => StateModel::Failed { error: ErrorModel::MissingCredential },
        Some(_) => StateModel::Start,
    }
}

fn awaits_vcs_exec(s: &State) -> (b: bool)
    ensures
        b == awaits_vcs(s@),
{
    match s {
        State::ReadmeWritten => true,
        State::VcsInitialized => true,
        State::Staged => true,
        State::RemoteCreated { .. } => true,
        State::RemoteConfigured { .. } => true,
        State::BranchRenamed { .. } => true,
        _ => false,
    }
}

fn vcs_command_string(s: &State) -> (r: String)
    ensures
        r@ == vcs_command_display(s@),
{
    match s {
        State::ReadmeWritten => String::from_str("git init"),
        State::VcsInitialized => String::from_str("git add ."),
        State::Staged => String::from_str("git commit -m Initial commit"),
        State::RemoteCreated { ssh_url } => {
            let mut r = String::from_str("git remote add origin ");
            r.append(ssh_url.as_str());
            r
        },
        State::RemoteConfigured { .. } => String::from_str("git branch -M main"),
        State::BranchRenamed { .. } => String::from_str("git push -u origin main"),
        _ => String::new(),
    }
}

fn transition(options: &Options, s: State, e: Event) -> (r: State)
    ensures
        r@ == next_state(options@, s@, e@),
{
    match e {
        Event::DirOk => match s {
            State::Start => State::DirCreated,
            other => other,
        },
        Event::DirErr { cause } => match s {
            State::Start => State::Failed {
                error: Error::DirCreate { name: options.repo_name.clone(), cause },
            },
            other => other,
        },
        Event::SeedOk => match s {
            State::DirCreated => State::ReadmeWritten,
            other => other,
        },
        Event::SeedErr { cause } => match s {
            State::DirCreated => State::Failed { error: Error::SeedWrite { cause } },
            other => other,
        },
        Event::VcsOk => match s {
            State::ReadmeWritten => State::VcsInitialized,
            State::VcsInitialized => State::Staged,
            State::Staged => State::Committed,
            State::RemoteCreated { ssh_url } => State::RemoteConfigured { ssh_url },
            State::RemoteConfigured { ssh_url } => State::BranchRenamed { ssh_url },
            State::BranchRenamed { ssh_url } => State::Done { remote_url: ssh_url },
            other => other,
        },
        Event::VcsErr { stderr } => {
            if awaits_vcs_exec(&s) {
                let command = vcs_command_string(&s);
                State::Failed { error: Error::VcsFailure { command, stderr } }
            } else {
                s
            }
        },
        Event::VcsLaunchErr { cause } => {
            if awaits_vcs_exec(&s) {
                let command = vcs_command_string(&s);
                State::Failed { error: Error::VcsLaunch { command, cause } }
            } else {
                s
            }
        },
        Event::ApiResponded { status, body } => match s {
            State::Committed => {
                if 200 <= status && status < 300 {
                    State::ResponseReceived { body }
                } else {
                    State::Failed { error: Error::ApiRejected { status, body } }
                }
            },
            other => other,
        },
        Event::ApiTransportErr { cause } => match s {
            State::Committed => State::Failed { error: Error::Transport { cause } },
            other => other,
        },
        Event::ParsedOk { ssh_url } => match s {
            State::ResponseReceived { .. } => State::RemoteCreated { ssh_url },
            other => other,
        },
        Event::ParseErr { cause } => match s {
            State::ResponseReceived { .. } => State::Failed {
                error: Error::ResponseParse { cause },
            },
            other => other,
        },
    }
}

fn push_arg(args: &mut Vec<String>, a: &str)
    ensures
        final(args).deep_view() == old(args).deep_view().push(a@),
{
    args.push(String::from_str(a));
    proof {
        assert(final(args).deep_view() =~= old(args).deep_view().push(a@));
    }
}

/// One whole run: the options it was asked for, the authorization header
/// value built from the credential, and where it stands.
pub struct Runner {
    options: Options,
    auth: String,
    state: State,
}

/// The mathematical image of a [`Runner`].
pub struct RunnerModel {
    pub options: OptionsModel,
    pub auth: Seq<char>,
    pub state: StateModel,
}

impl View for Runner {
    type V = RunnerModel;

    closed spec fn view(&self) -> RunnerModel {
        RunnerModel { options: self.options@, auth: self.auth@, state: self.state@ }
    }
}

impl Runner {
    /// Begins a run. The credential is the only validation gate: absent, the
    /// run is failed before any action is issued.
    pub fn new(options: Options, token: Option<String>) -> (r: Runner)
        ensures
            r@.options == options@,
            r@.state == initial_state(token.deep_view()),
            token matches Some(t) ==> r@.auth == auth_header_spec(t@),
    {
        match token {
            None => Runner {
                options,
                auth: String::new(),
                state: State::Failed { error: Error::MissingCredential },
            },
            Some(t) => Runner { options, auth: auth_header_value(t.as_str()), state: State::Start },
        }
    }

    /// The step the driver is to perform next; `None` once the run has ended,
    /// in success or failure.
    pub fn next_action(&self) -> (r: Option<Action>)
        ensures
            opt_action_view(r) == action_of(self@.options, self@.auth, self@.state),
    {
        match &self.state {
            State::Start => Some(Action::CreateDir { name: self.options.repo_name.clone() }),
            State::DirCreated => Some(
                Action::WriteSeed {
                    dir: self.options.repo_name.clone(),
                    content: seed_content(self.options.repo_name.as_str()),
                },
            ),
            State::ReadmeWritten => {
                let mut args: Vec<String> = Vec::new();
                push_arg(&mut args, "init");
                proof {
                    assert(args.deep_view() =~= seq!["init"@]);
                }
                Some(Action::RunVcs { dir: self.options.repo_name.clone(), args })
            },
            State::VcsInitialized => {
                let mut args: Vec<String> = Vec::new();
                push_arg(&mut args, "add");
                push_arg(&mut args, ".");
                proof {
                    assert(args.deep_view() =~= seq!["add"@, "."@]);
                }
                Some(Action::RunVcs { dir: self.options.repo_name.clone(), args })
            },
            State::Staged => {
                let mut args: Vec<String> = Vec::new();
                push_arg(&mut args, "commit");
                push_arg(&mut args, "-m");
                push_arg(&mut args, "Initial commit");
                proof {
                    assert(args.deep_view() =~= seq!["commit"@, "-m"@, "Initial commit"@]);
                }
                Some(Action::RunVcs { dir: self.options.repo_name.clone(), args })
            },
            State::Committed => Some(
                Action::CallApi {
                    url: creation_endpoint(&self.options.org),
                    body: request_body(self.options.repo_name.as_str(), self.options.private),
                    auth: self.auth.clone(),
                    accept: String::from_str(accept_header()),
                    user_agent: String::from_str(user_agent()),
                },
            ),
            State::ResponseReceived { body } => Some(Action::ParseBody { body: body.clone() }),
            State::RemoteCreated { ssh_url } => {
                let mut args: Vec<String> = Vec::new();
                push_arg(&mut args, "remote");
                push_arg(&mut args, "add");
                push_arg(&mut args, "origin");
                push_arg(&mut args, ssh_url.as_str());
                proof {
                    assert(args.deep_view() =~= seq!["remote"@, "add"@, "origin"@, ssh_url@]);
                }
                Some(Action::RunVcs { dir: self.options.repo_name.clone(), args })
            },
            State::RemoteConfigured { .. } => {
                let mut args: Vec<String> = Vec::new();
                push_arg(&mut args, "branch");
                push_arg(&mut args, "-M");
                push_arg(&mut args, "main");
                proof {
                    assert(args.deep_view() =~= seq!["branch"@, "-M"@, "main"@]);
                }
                Some(Action::RunVcs { dir: self.options.repo_name.clone(), args })
            },
            State::BranchRenamed { .. } => {
                let mut args: Vec<String> = Vec::new();
                push_arg(&mut args, "push");
                push_arg(&mut args, "-u");
                push_arg(&mut args, "origin");
                push_arg(&mut args, "main");
                proof {
                    assert(args.deep_view() =~= seq!["push"@, "-u"@, "origin"@, "main"@]);
                }
                Some(Action::RunVcs { dir: self.options.repo_name.clone(), args })
            },
            State::Done { .. } => None,
            State::Failed { .. } => None,
        }
    }

    /// Moves the run along one edge: the driver reports what the last action
    /// came to, and the machine takes the state the transition relation gives.
    pub fn on_event(&mut self, e: Event)
        ensures
            final(self)@.options == old(self)@.options,
            final(self)@.auth == old(self)@.auth,
            final(self)@.state == next_state(old(self)@.options, old(self)@.state, e@),
    {
        let mut s = State::Start;
        core::mem::swap(&mut s, &mut self.state);
        self.state = transition(&self.options, s, e);
    }

    /// Whether the run has ended, in success or failure.
    pub fn finished(&self) -> (b: bool)
        ensures
            b == (self@.state is Done || self@.state is Failed),
    {
        match &self.state {
            State::Done { .. } => true,
            State::Failed { .. } => true,
            _ => false,
        }
    }

    /// Whether the run has failed.
    pub fn is_failed(&self) -> (b: bool)
        ensures
            b == (self@.state is Failed),
    {
        match &self.state {
            State::Failed { .. } => true,
            _ => false,
        }
    }

    /// The run's result: the remote's clone URL on success, the failure on
    /// failure, nothing while the run is still under way.
    pub fn outcome(self) -> (r: Option<Result<String, Error>>)
        ensures
            match self@.state {
                StateModel::Done { remote_url } => (r matches Some(Ok(u)) && u@ == remote_url),
                StateModel::Failed { error } => (r matches Some(Err(err)) && err@ == error),
                _ => r is None,
            },
    {
        match self.state {
            State::Done { remote_url } => Some(Ok(remote_url)),
            State::Failed { error } => Some(Err(error)),
            _ => None,
        }
    }
}

/// With the credential absent the run begins failed; a failed run issues no
/// action and no event moves it, so no directory, file, subprocess or network
/// call is ever asked for.
pub proof fn lemma_missing_credential_inert(opts: OptionsModel, auth: Seq<char>, e: EventModel)
    ensures
        initial_state(None) == (StateModel::Failed { error: ErrorModel::MissingCredential }),
        action_of(opts, auth, initial_state(None)) is None,
        next_state(opts, initial_state(None), e) == initial_state(None),
{
}

/// Both terminal states are inert: they ask for no action and absorb every
/// event.
pub proof fn lemma_terminal_states_inert(opts: OptionsModel, auth: Seq<char>, s: StateModel, e: EventModel)
    requires
        s is Done || s is Failed,
    ensures
        action_of(opts, auth, s) is None,
        next_state(opts, s, e) == s,
{
}

/// A VCS subprocess's failure halts the run: the machine moves to the failed
/// state, the report carries the subprocess's captured standard error, and no
/// further step — in particular no network call — is ever asked for.
pub proof fn lemma_vcs_failure_halts(
    opts: OptionsModel,
    auth: Seq<char>,
    s: StateModel,
    stderr: Seq<char>,
)
    requires
        awaits_vcs(s),
    ensures
        next_state(opts, s, EventModel::VcsErr { stderr }) == (StateModel::Failed {
            error: ErrorModel::VcsFailure { command: vcs_command_display(s), stderr },
        }),
        action_of(opts, auth, next_state(opts, s, EventModel::VcsErr { stderr })) is None,
        contains_seq(
            message_spec(ErrorModel::VcsFailure { command: vcs_command_display(s), stderr }),
            stderr,
        ),
        forall|e2: EventModel| #[trigger] next_state(
            opts,
            next_state(opts, s, EventModel::VcsErr { stderr }),
            e2,
        ) == next_state(opts, s, EventModel::VcsErr { stderr }),
{
    lemma_vcs_failure_message(vcs_command_display(s), stderr);
}

/// The run's one line, end to end: from the start, a created directory, a
/// written seed file, three successful local VCS steps, a successful creation
/// call whose body parses to a clone URL, and three successful remote VCS
/// steps end the run in `Done` carrying exactly that URL.
pub proof fn lemma_success_run(
    opts: OptionsModel,
    status: u16,
    body: Seq<char>,
    ssh_url: Seq<char>,
)
    requires
        is_success_status(status),
    ensures
        ({
            let s1 = next_state(opts, StateModel::Start, EventModel::DirOk);
            let s2 = next_state(opts, s1, EventModel::SeedOk);
            let s3 = next_state(opts, s2, EventModel::VcsOk);
            let s4 = next_state(opts, s3, EventModel::VcsOk);
            let s5 = next_state(opts, s4, EventModel::VcsOk);
            let s6 = next_state(opts, s5, EventModel::ApiResponded { status, body });
            let s7 = next_state(opts, s6, EventModel::ParsedOk { ssh_url });
            let s8 = next_state(opts, s7, EventModel::VcsOk);
            let s9 = next_state(opts, s8, EventModel::VcsOk);
            let s10 = next_state(opts, s9, EventModel::VcsOk);
            s10 == StateModel::Done { remote_url: ssh_url }
        }),
{
}

/// How far along the run's one line a state stands.
pub open spec fn rank(s: StateModel) -> nat {
    match s {
        StateModel::Start => 0,
        StateModel::DirCreated => 1,
        StateModel::ReadmeWritten => 2,
        StateModel::VcsInitialized => 3,
        StateModel::Staged => 4,
        StateModel::Committed => 5,
        StateModel::ResponseReceived { .. } => 6,
        StateModel::RemoteCreated { .. } => 7,
        StateModel::RemoteConfigured { .. } => 8,
        StateModel::BranchRenamed { .. } => 9,
        StateModel::Done { .. } => 10,
        StateModel::Failed { .. } => 11,
    }
}

/// The run only ever moves forward: every transition either stays put, moves
/// one state further right along the line, or fails — there are no back-edges
/// and no retries.
pub proof fn lemma_no_back_edges(opts: OptionsModel, s: StateModel, e: EventModel)
    ensures
        next_state(opts, s, e) == s || rank(next_state(opts, s, e)) == rank(s) + 1 || next_state(
            opts,
            s,
            e,
        ) is Failed,
{
}

} // verus!
