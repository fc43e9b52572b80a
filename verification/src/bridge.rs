//! The bridge as a state machine: from the session and the event that answers
//! the last action to the next session and the next action.
//!
//! One request runs through these phases, in this order and never at once:
//! the interpreter is asked for its version; the environment's directory is
//! looked for; where it is missing it is created and the dependencies are
//! installed; the inference program is run; its output is read. The caller
//! performs each action and hands back what happened. An event that does not
//! answer the action that is outstanding changes nothing.
//!
//! An environment that is found needs no activation command: every command is
//! started on its own, so there is no shell whose state could be prepared.

use crate::command::BridgeConfig;
use crate::command::BridgeConfigView;
use crate::command::CommandLine;
use crate::command::CommandLineView;
use crate::command::InferenceRequest;
use crate::command::ResourcePaths;
use crate::command::ResourcePathsView;
use crate::error::BridgeError;
use crate::error::BridgeErrorView;
use crate::error::EnvironmentError;
use crate::error::EnvironmentErrorView;
use crate::extract::read_output;
use crate::extract::reading;
use crate::extract::Prediction;
use crate::text::is_substring;
use crate::text::lossy_text;
use crate::text::mentions;
use crate::text::text_of_bytes_lossy;
use vstd::prelude::*;

verus! {

/// What is known of the runtime environment.
#[derive(Debug, Clone, PartialEq, Eq)]
pub struct EnvironmentState {
    /// What the interpreter answered to the version query; empty until then.
    pub interpreter_version: String,
    /// Whether the environment's directory exists.
    pub venv_present: bool,
    /// Whether the dependencies count as installed. In a directory that was
    /// found they do: its presence is the only sign there is.
    pub dependencies_installed: bool,
}

pub struct EnvironmentStateView {
    pub interpreter_version: Seq<char>,
    pub venv_present: bool,
    pub dependencies_installed: bool,
}

impl View for EnvironmentState {
    type V = EnvironmentStateView;

    open spec fn view(&self) -> EnvironmentStateView {
        EnvironmentStateView {
            interpreter_version: self.interpreter_version@,
            venv_present: self.venv_present,
            dependencies_installed: self.dependencies_installed,
        }
    }
}

/// What one run of a process left behind.
#[derive(Debug, Clone, PartialEq, Eq)]
pub struct ProcessResult {
    /// The exit code; none where the process was ended by a signal.
    pub exit_status: Option<i32>,
    pub stdout: Vec<u8>,
    pub stderr: Vec<u8>,
}

pub struct ProcessResultView {
    pub exit_status: Option<i32>,
    pub stdout: Seq<u8>,
    pub stderr: Seq<u8>,
}

impl ProcessResultView {
    /// The process reported success: it exited with status 0.
    pub open spec fn succeeded(self) -> bool {
        self.exit_status == Some(0i32)
    }
}

impl View for ProcessResult {
    type V = ProcessResultView;

    open spec fn view(&self) -> ProcessResultView {
        ProcessResultView {
            exit_status: self.exit_status,
            stdout: self.stdout@,
            stderr: self.stderr@,
        }
    }
}

impl ProcessResult {
    /// Whether the process exited with status 0.
    pub fn succeeded(&self) -> (yes: bool)
        ensures
            yes == self@.succeeded(),
    {
        match self.exit_status {
            Some(code) => code == 0,
            None => false,
        }
    }
}

/// What the caller reports back after an action.
#[derive(Debug, Clone, PartialEq, Eq)]
pub enum Event {
    /// The process ran and exited.
    Exited(ProcessResult),
    /// The process could not be started.
    LaunchFailed { message: String },
    /// The directory was looked for.
    DirectoryProbed { present: bool },
}

pub enum EventView {
    Exited(ProcessResultView),
    LaunchFailed { message: Seq<char> },
    DirectoryProbed { present: bool },
}

impl View for Event {
    type V = EventView;

    open spec fn view(&self) -> EventView {
        match *self {
            Event::Exited(result) => EventView::Exited(result@),
            Event::LaunchFailed { message } => EventView::LaunchFailed { message: message@ },
            Event::DirectoryProbed { present } => EventView::DirectoryProbed { present },
        }
    }
}

/// What the caller is to do next.
#[derive(Debug, Clone, PartialEq, Eq)]
pub enum Action {
    /// Run the command, wait for it to exit, and report `Exited` or
    /// `LaunchFailed`.
    Run(CommandLine),
    /// Look whether the directory exists, and report `DirectoryProbed`.
    ProbeDirectory(String),
    /// The request is done: hand the prediction to the front end.
    Succeed(Prediction),
    /// The request is done: hand the failure to the front end.
    Fail(BridgeError),
    /// The event answered nothing. There is nothing to do.
    Nothing,
}

pub enum ActionView {
    Run(CommandLineView),
    ProbeDirectory(Seq<char>),
    Succeed(Seq<char>),
    Fail(BridgeErrorView),
    Nothing,
}

impl View for Action {
    type V = ActionView;

    open spec fn view(&self) -> ActionView {
        match *self {
            Action::Run(command) => ActionView::Run(command@),
            Action::ProbeDirectory(directory) => ActionView::ProbeDirectory(directory@),
            Action::Succeed(prediction) => ActionView::Succeed(prediction@),
            Action::Fail(error) => ActionView::Fail(error@),
            Action::Nothing => ActionView::Nothing,
        }
    }
}

impl ActionView {
    /// The action ends the request.
    pub open spec fn is_final(self) -> bool {
        self is Succeed || self is Fail
    }
}

/// How far a request has come. Each phase but the last waits for the answer
/// to one action.
#[derive(Debug, Clone, Copy, PartialEq, Eq, Structural)]
pub enum Phase {
    /// The version query is running.
    VerifyingInterpreter,
    /// The environment's directory is being looked for.
    ProbingEnvironment,
    /// The environment is being created.
    CreatingEnvironment,
    /// The dependencies are being installed.
    InstallingDependencies,
    /// The environment is ready and the inference program is running.
    Inferring,
    /// The request has ended, in a prediction or in a failure.
    Finished,
}

/// The state of one request.
#[derive(Debug, Clone, PartialEq, Eq)]
pub struct Session {
    pub phase: Phase,
    pub environment: EnvironmentState,
}

pub struct SessionView {
    pub phase: Phase,
    pub environment: EnvironmentStateView,
}

impl View for Session {
    type V = SessionView;

    open spec fn view(&self) -> SessionView {
        SessionView { phase: self.phase, environment: self.environment@ }
    }
}

/// A session and the action that it waits on.
#[derive(Debug, Clone, PartialEq, Eq)]
pub struct Step {
    pub session: Session,
    pub action: Action,
}

pub struct StepView {
    pub session: SessionView,
    pub action: ActionView,
}

impl View for Step {
    type V = StepView;

    open spec fn view(&self) -> StepView {
        StepView { session: self.session@, action: self.action@ }
    }
}

/// What a request is made of: the settings, the inference program's files and
/// the image. None of it changes while the request runs.
#[derive(Debug, Clone, PartialEq, Eq)]
pub struct Bridge {
    pub config: BridgeConfig,
    pub paths: ResourcePaths,
    pub request: InferenceRequest,
}

pub struct BridgeView {
    pub config: BridgeConfigView,
    pub paths: ResourcePathsView,
    pub request: Seq<char>,
}

impl View for Bridge {
    type V = BridgeView;

    open spec fn view(&self) -> BridgeView {
        BridgeView { config: self.config@, paths: self.paths@, request: self.request@ }
    }
}

/// The session `session` in phase `phase`.
pub open spec fn in_phase(session: SessionView, phase: Phase) -> SessionView {
    SessionView { phase, environment: session.environment }
}

/// The step that ends the request in `error`.
pub open spec fn failing(session: SessionView, error: BridgeErrorView) -> StepView {
    StepView { session: in_phase(session, Phase::Finished), action: ActionView::Fail(error) }
}

/// The step that leaves everything as it is.
pub open spec fn ignoring(session: SessionView) -> StepView {
    StepView { session, action: ActionView::Nothing }
}

/// What the inference program's run comes to: a failure where it did not exit
/// with status 0, else what the extractor reads from its output.
pub open spec fn outcome(result: ProcessResultView) -> Result<Seq<char>, BridgeErrorView> {
    if !result.succeeded() {
        Err(
            BridgeErrorView::Execution {
                exit_status: result.exit_status,
                stderr: lossy_text(result.stderr),
            },
        )
    } else {
        match reading(result.stdout) {
            Ok(token) => Ok(token),
            Err(error) => Err(BridgeErrorView::Parse(error)),
        }
    }
}

impl BridgeView {
    /// The command that runs the inference program for this request.
    pub open spec fn inference_command(self) -> CommandLineView {
        self.config.request_command(self.paths, self.request)
    }

    /// A request begins with the version query; nothing is known yet.
    pub open spec fn start(self) -> StepView {
        StepView {
            session: SessionView {
                phase: Phase::VerifyingInterpreter,
                environment: EnvironmentStateView {
                    interpreter_version: Seq::<char>::empty(),
                    venv_present: false,
                    dependencies_installed: false,
                },
            },
            action: ActionView::Run(self.config.version_query()),
        }
    }

    /// The interpreter must start. What it printed is then read as text, with
    /// U+FFFD for what is no text, and checked; its exit status is not looked
    /// at.
    pub open spec fn on_version_reply(self, session: SessionView, event: EventView) -> StepView {
        match event {
            EventView::LaunchFailed { message } => failing(
                session,
                BridgeErrorView::Environment(EnvironmentErrorView::InterpreterMissing { message }),
            ),
            EventView::Exited(result) => self.on_version_text(
                session,
                lossy_text(result.stdout),
            ),
            EventView::DirectoryProbed { .. } => ignoring(session),
        }
    }

    /// The interpreter's answer must mention the required version somewhere:
    /// a substring match, no comparison of version numbers. The answer is kept
    /// as the interpreter's version either way.
    pub open spec fn on_version_text(self, session: SessionView, reported: Seq<char>) -> StepView {
        let known = SessionView {
            phase: session.phase,
            environment: EnvironmentStateView {
                interpreter_version: reported,
                venv_present: session.environment.venv_present,
                dependencies_installed: session.environment.dependencies_installed,
            },
        };
        if is_substring(self.config.required_version, reported) {
            StepView {
                session: in_phase(known, Phase::ProbingEnvironment),
                action: ActionView::ProbeDirectory(self.config.environment_dir),
            }
        } else {
            failing(
                known,
                BridgeErrorView::Environment(
                    EnvironmentErrorView::VersionMismatch {
                        required: self.config.required_version,
                        reported,
                    },
                ),
            )
        }
    }

    /// A directory that is there is taken as a complete environment, and the
    /// inference program is run. One that is missing is created first.
    pub open spec fn on_probe_reply(self, session: SessionView, event: EventView) -> StepView {
        match event {
            EventView::DirectoryProbed { present } => {
                let known = SessionView {
                    phase: session.phase,
                    environment: EnvironmentStateView {
                        interpreter_version: session.environment.interpreter_version,
                        venv_present: present,
                        dependencies_installed: present,
                    },
                };
                if present {
                    StepView {
                        session: in_phase(known, Phase::Inferring),
                        action: ActionView::Run(self.inference_command()),
                    }
                } else {
                    StepView {
                        session: in_phase(known, Phase::CreatingEnvironment),
                        action: ActionView::Run(self.config.creation_command()),
                    }
                }
            },
            _ => ignoring(session),
        }
    }

    /// Creation must exit with status 0; then the dependencies are installed.
    pub open spec fn on_creation_reply(self, session: SessionView, event: EventView) -> StepView {
        match event {
            EventView::LaunchFailed { message } => failing(
                session,
                BridgeErrorView::Environment(
                    EnvironmentErrorView::CreationFailed { diagnostics: message },
                ),
            ),
            EventView::Exited(result) => {
                if result.succeeded() {
                    StepView {
                        session: SessionView {
                            phase: Phase::InstallingDependencies,
                            environment: EnvironmentStateView {
                                interpreter_version: session.environment.interpreter_version,
                                venv_present: true,
                                dependencies_installed: session.environment.dependencies_installed,
                            },
                        },
                        action: ActionView::Run(self.config.installation_command()),
                    }
                } else {
                    failing(
                        session,
                        BridgeErrorView::Environment(
                            EnvironmentErrorView::CreationFailed {
                                diagnostics: lossy_text(result.stderr),
                            },
                        ),
                    )
                }
            },
            EventView::DirectoryProbed { .. } => ignoring(session),
        }
    }

    /// Installation must exit with status 0; then the inference program is
    /// run.
    pub open spec fn on_installation_reply(
        self,
        session: SessionView,
        event: EventView,
    ) -> StepView {
        match event {
            EventView::LaunchFailed { message } => failing(
                session,
                BridgeErrorView::Environment(
                    EnvironmentErrorView::InstallationFailed { diagnostics: message },
                ),
            ),
            EventView::Exited(result) => {
                if result.succeeded() {
                    StepView {
                        session: SessionView {
                            phase: Phase::Inferring,
                            environment: EnvironmentStateView {
                                interpreter_version: session.environment.interpreter_version,
                                venv_present: session.environment.venv_present,
                                dependencies_installed: true,
                            },
                        },
                        action: ActionView::Run(self.inference_command()),
                    }
                } else {
                    failing(
                        session,
                        BridgeErrorView::Environment(
                            EnvironmentErrorView::InstallationFailed {
                                diagnostics: lossy_text(result.stderr),
                            },
                        ),
                    )
                }
            },
            EventView::DirectoryProbed { .. } => ignoring(session),
        }
    }

    /// A program that could not be started is a launch error, and its output
    /// is never read. One that ran ends the request in its `outcome`.
    pub open spec fn on_inference_reply(self, session: SessionView, event: EventView) -> StepView {
        match event {
            EventView::LaunchFailed { message } => failing(
                session,
                BridgeErrorView::Launch { message },
            ),
            EventView::Exited(result) => match outcome(result) {
                Ok(token) => StepView {
                    session: in_phase(session, Phase::Finished),
                    action: ActionView::Succeed(token),
                },
                Err(error) => failing(session, error),
            },
            EventView::DirectoryProbed { .. } => ignoring(session),
        }
    }

    /// The step that answers `event` in `session`.
    pub open spec fn next(self, session: SessionView, event: EventView) -> StepView {
        match session.phase {
            Phase::VerifyingInterpreter => self.on_version_reply(session, event),
            Phase::ProbingEnvironment => self.on_probe_reply(session, event),
            Phase::CreatingEnvironment => self.on_creation_reply(session, event),
            Phase::InstallingDependencies => self.on_installation_reply(session, event),
            Phase::Inferring => self.on_inference_reply(session, event),
            Phase::Finished => ignoring(session),
        }
    }
}

/// The view of what a run came to.
pub open spec fn outcome_view(result: Result<Prediction, BridgeError>) -> Result<
    Seq<char>,
    BridgeErrorView,
> {
    match result {
        Ok(prediction) => Ok(prediction@),
        Err(error) => Err(error@),
    }
}

/// What the inference program's run comes to. A run that did not exit with
/// status 0 is a failure, whatever it printed, and the failure carries what
/// the program wrote to its error stream. The output of a run that did is
/// handed to the extractor.
pub fn interpret(result: &ProcessResult) -> (read: Result<Prediction, BridgeError>)
    ensures
        outcome_view(read) == outcome(result@),
        read matches Ok(prediction) ==> prediction.wf(),
{
    if !result.succeeded() {
        return Err(
            BridgeError::Execution {
                exit_status: result.exit_status,
                stderr: text_of_bytes_lossy(result.stderr.as_slice()),
            },
        );
    }
    match read_output(result.stdout.as_slice()) {
        Ok(prediction) => Ok(prediction),
        Err(error) => Err(BridgeError::Parse(error)),
    }
}

fn fail(session: Session, error: BridgeError) -> (step: Step)
    ensures
        step@ == failing(session@, error@),
{
    Step {
        session: Session { phase: Phase::Finished, environment: session.environment },
        action: Action::Fail(error),
    }
}

fn ignore(session: Session) -> (step: Step)
    ensures
        step@ == ignoring(session@),
{
    Step { session, action: Action::Nothing }
}

impl Bridge {
    /// Begins a request: the first action is the version query.
    pub fn start(&self) -> (step: Step)
        ensures
            step@ == self@.start(),
    {
        Step {
            session: Session {
                phase: Phase::VerifyingInterpreter,
                environment: EnvironmentState {
                    interpreter_version: String::new(),
                    venv_present: false,
                    dependencies_installed: false,
                },
            },
            action: Action::Run(self.config.version_query()),
        }
    }

    fn on_version_reply(&self, session: Session, event: Event) -> (step: Step)
        ensures
            step@ == self@.on_version_reply(session@, event@),
    {
        match event {
            Event::LaunchFailed { message } => fail(
                session,
                BridgeError::Environment(EnvironmentError::InterpreterMissing { message }),
            ),
            Event::Exited(result) => self.on_version_text(
                session,
                text_of_bytes_lossy(result.stdout.as_slice()),
            ),
            Event::DirectoryProbed { .. } => ignore(session),
        }
    }

    /// Checks the interpreter's answer to the version query: where it
    /// mentions the required version, the environment's directory is looked
    /// for next; where it does not, the request ends in a version mismatch.
    pub fn on_version_text(&self, session: Session, reported: String) -> (step: Step)
        ensures
            step@ == self@.on_version_text(session@, reported@),
    {
        if mentions(reported.as_str(), self.config.required_version.as_str()) {
            Step {
                session: Session {
                    phase: Phase::ProbingEnvironment,
                    environment: EnvironmentState {
                        interpreter_version: reported,
                        venv_present: session.environment.venv_present,
                        dependencies_installed: session.environment.dependencies_installed,
                    },
                },
                action: Action::ProbeDirectory(self.config.environment_dir.clone()),
            }
        } else {
            let known = Session {
                phase: session.phase,
                environment: EnvironmentState {
                    interpreter_version: reported.clone(),
                    venv_present: session.environment.venv_present,
                    dependencies_installed: session.environment.dependencies_installed,
                },
            };
            fail(
                known,
                BridgeError::Environment(
                    EnvironmentError::VersionMismatch {
                        required: self.config.required_version.clone(),
                        reported,
                    },
                ),
            )
        }
    }

    fn on_probe_reply(&self, session: Session, event: Event) -> (step: Step)
        ensures
            step@ == self@.on_probe_reply(session@, event@),
    {
        match event {
            Event::DirectoryProbed { present } => {
                let environment = EnvironmentState {
                    interpreter_version: session.environment.interpreter_version,
                    venv_present: present,
                    dependencies_installed: present,
                };
                if present {
                    Step {
                        session: Session { phase: Phase::Inferring, environment },
                        action: Action::Run(
                            self.config.request_command(&self.paths, &self.request),
                        ),
                    }
                } else {
                    Step {
                        session: Session { phase: Phase::CreatingEnvironment, environment },
                        action: Action::Run(self.config.creation_command()),
                    }
                }
            },
            _ => ignore(session),
        }
    }

    fn on_creation_reply(&self, session: Session, event: Event) -> (step: Step)
        ensures
            step@ == self@.on_creation_reply(session@, event@),
    {
        match event {
            Event::LaunchFailed { message } => fail(
                session,
                BridgeError::Environment(EnvironmentError::CreationFailed { diagnostics: message }),
            ),
            Event::Exited(result) => {
                if result.succeeded() {
                    Step {
                        session: Session {
                            phase: Phase::InstallingDependencies,
                            environment: EnvironmentState {
                                interpreter_version: session.environment.interpreter_version,
                                venv_present: true,
                                dependencies_installed: session.environment.dependencies_installed,
                            },
                        },
                        action: Action::Run(self.config.installation_command()),
                    }
                } else {
                    fail(
                        session,
                        BridgeError::Environment(
                            EnvironmentError::CreationFailed {
                                diagnostics: text_of_bytes_lossy(result.stderr.as_slice()),
                            },
                        ),
                    )
                }
            },
            Event::DirectoryProbed { .. } => ignore(session),
        }
    }

    fn on_installation_reply(&self, session: Session, event: Event) -> (step: Step)
        ensures
            step@ == self@.on_installation_reply(session@, event@),
    {
        match event {
            Event::LaunchFailed { message } => fail(
                session,
                BridgeError::Environment(
                    EnvironmentError::InstallationFailed { diagnostics: message },
                ),
            ),
            Event::Exited(result) => {
                if result.succeeded() {
                    Step {
                        session: Session {
                            phase: Phase::Inferring,
                            environment: EnvironmentState {
                                interpreter_version: session.environment.interpreter_version,
                                venv_present: session.environment.venv_present,
                                dependencies_installed: true,
                            },
                        },
                        action: Action::Run(
                            self.config.request_command(&self.paths, &self.request),
                        ),
                    }
                } else {
                    fail(
                        session,
                        BridgeError::Environment(
                            EnvironmentError::InstallationFailed {
                                diagnostics: text_of_bytes_lossy(result.stderr.as_slice()),
                            },
                        ),
                    )
                }
            },
            Event::DirectoryProbed { .. } => ignore(session),
        }
    }

    fn on_inference_reply(&self, session: Session, event: Event) -> (step: Step)
        ensures
            step@ == self@.on_inference_reply(session@, event@),
    {
        match event {
            Event::LaunchFailed { message } => fail(session, BridgeError::Launch { message }),
            Event::Exited(result) => match interpret(&result) {
                Ok(prediction) => Step {
                    session: Session { phase: Phase::Finished, environment: session.environment },
                    action: Action::Succeed(prediction),
                },
                Err(error) => fail(session, error),
            },
            Event::DirectoryProbed { .. } => ignore(session),
        }
    }

    /// Answers `event`: the session that follows and the action to perform.
    ///
    /// The event is taken as the answer to the action that the session waits
    /// on. Where it is of another kind, and in a request that has ended, the
    /// session stays as it is and there is nothing to do.
    pub fn step(&self, session: Session, event: Event) -> (step: Step)
        ensures
            step@ == self@.next(session@, event@),
    {
        match session.phase {
            Phase::VerifyingInterpreter => self.on_version_reply(session, event),
            Phase::ProbingEnvironment => self.on_probe_reply(session, event),
            Phase::CreatingEnvironment => self.on_creation_reply(session, event),
            Phase::InstallingDependencies => self.on_installation_reply(session, event),
            Phase::Inferring => self.on_inference_reply(session, event),
            Phase::Finished => ignore(session),
        }
    }
}

} // verus!
