//! What holds of every request, whatever the caller reports: the laws of the
//! bridge's state machine, over whole sequences of events.

use crate::bridge::ActionView;
use crate::bridge::BridgeView;
use crate::bridge::EventView;
use crate::bridge::Phase;
use crate::bridge::ProcessResultView;
use crate::bridge::SessionView;
use crate::text::is_substring;
use crate::text::lossy_text;
use vstd::prelude::*;

verus! {

impl BridgeView {
    /// The session that `events`, answered one after the other, lead to from
    /// `session`.
    pub open spec fn session_after(
        self,
        session: SessionView,
        events: Seq<EventView>,
    ) -> SessionView
        decreases events.len(),
    {
        if events.len() == 0 {
            session
        } else {
            self.next(self.session_after(session, events.drop_last()), events.last()).session
        }
    }

    /// The session of a request that began and was then told `events`.
    pub open spec fn run(self, events: Seq<EventView>) -> SessionView {
        self.session_after(self.start().session, events)
    }

    /// The action that the request answers `events[at]` with.
    pub open spec fn action_at(self, events: Seq<EventView>, at: int) -> ActionView {
        self.next(self.run(events.take(at)), events[at]).action
    }

    /// The action that a session waits on; none where the request has ended.
    pub open spec fn awaited(self, session: SessionView) -> Option<ActionView> {
        match session.phase {
            Phase::VerifyingInterpreter => Some(ActionView::Run(self.config.version_query())),
            Phase::ProbingEnvironment => Some(
                ActionView::ProbeDirectory(self.config.environment_dir),
            ),
            Phase::CreatingEnvironment => Some(ActionView::Run(self.config.creation_command())),
            Phase::InstallingDependencies => Some(
                ActionView::Run(self.config.installation_command()),
            ),
            Phase::Inferring => Some(ActionView::Run(self.inference_command())),
            Phase::Finished => None,
        }
    }

    /// What a session has had to see to be where it is: past the version
    /// query the interpreter's answer mentions the required version; the
    /// dependencies are installed only into an environment that is there; the
    /// inference program runs only with both in place.
    pub open spec fn settled(self, session: SessionView) -> bool {
        let environment = session.environment;
        &&& session.phase != Phase::VerifyingInterpreter && session.phase != Phase::Finished
            ==> is_substring(self.config.required_version, environment.interpreter_version)
        &&& session.phase == Phase::InstallingDependencies ==> environment.venv_present
        &&& session.phase == Phase::Inferring ==> environment.venv_present
            && environment.dependencies_installed
    }
}

/// The session after one more event is the step from the session before it.
pub proof fn lemma_run_unfolds(bridge: BridgeView, events: Seq<EventView>, at: int)
    requires
        0 <= at < events.len(),
    ensures
        bridge.run(events.take(at + 1)) == bridge.next(
            bridge.run(events.take(at)),
            events[at],
        ).session,
{
    let longer = events.take(at + 1);
    assert(longer.drop_last() =~= events.take(at));
    assert(longer.last() == events[at]);
}

/// Each action tells the caller what the new session waits on, ends the
/// request, or is nothing: no step hands out a command that belongs to
/// another phase.
pub proof fn law_action_belongs_to_phase(
    bridge: BridgeView,
    session: SessionView,
    event: EventView,
)
    ensures
        ({
            let step = bridge.next(session, event);
            ||| step.action is Nothing && step.session == session
            ||| step.action.is_final() && step.session.phase == Phase::Finished
            ||| bridge.awaited(step.session) == Some(step.action)
        }),
{
}

/// A request that has ended stays ended: every later event is answered with
/// nothing.
pub proof fn law_finished_stays_finished(bridge: BridgeView, events: Seq<EventView>, at: int)
    requires
        0 <= at <= events.len(),
        bridge.run(events.take(at)).phase == Phase::Finished,
    ensures
        bridge.run(events) == bridge.run(events.take(at)),
        forall|later: int| at <= later < events.len() ==> bridge.action_at(events, later) is Nothing,
    decreases events.len() - at,
{
    if at == events.len() {
        assert(events.take(at) =~= events);
    } else {
        lemma_run_unfolds(bridge, events, at);
        law_finished_stays_finished(bridge, events, at + 1);
    }
}

/// A request has one outcome: after the action that ends it, in a prediction
/// or in a failure, nothing more is handed out.
pub proof fn law_one_outcome(bridge: BridgeView, events: Seq<EventView>, at: int, later: int)
    requires
        0 <= at < later < events.len(),
        bridge.action_at(events, at).is_final(),
    ensures
        bridge.action_at(events, later) is Nothing,
{
    law_action_belongs_to_phase(bridge, bridge.run(events.take(at)), events[at]);
    lemma_run_unfolds(bridge, events, at);
    law_finished_stays_finished(bridge, events, at + 1);
}

proof fn lemma_next_keeps_settled(bridge: BridgeView, session: SessionView, event: EventView)
    requires
        bridge.settled(session),
    ensures
        bridge.settled(bridge.next(session, event).session),
{
}

/// The inference program is run only in an environment that is ready. In
/// every request, whatever the events: a session that is inferring has seen an
/// answer of the interpreter that mentions the required version, and has the
/// environment present and the dependencies installed.
pub proof fn law_inference_needs_ready_environment(bridge: BridgeView, events: Seq<EventView>)
    ensures
        bridge.settled(bridge.run(events)),
    decreases events.len(),
{
    if events.len() > 0 {
        law_inference_needs_ready_environment(bridge, events.drop_last());
        lemma_next_keeps_settled(bridge, bridge.run(events.drop_last()), events.last());
    }
}

/// Every report on the directory in `events` says that it is there.
pub open spec fn directory_always_found(events: Seq<EventView>) -> bool {
    forall|i: int|
        0 <= i < events.len() ==> (#[trigger] events[i] matches EventView::DirectoryProbed {
            present,
        } ==> present)
}

/// Where the environment's directory is found, nothing is created and nothing
/// is installed: a request that is only ever told that the directory is there
/// never comes to create the environment nor to install the dependencies.
pub proof fn law_found_environment_is_not_installed_again(
    bridge: BridgeView,
    events: Seq<EventView>,
    at: int,
)
    requires
        directory_always_found(events),
        0 <= at <= events.len(),
    ensures
        bridge.run(events.take(at)).phase != Phase::CreatingEnvironment,
        bridge.run(events.take(at)).phase != Phase::InstallingDependencies,
    decreases at,
{
    if at > 0 {
        law_found_environment_is_not_installed_again(bridge, events, at - 1);
        lemma_run_unfolds(bridge, events, at - 1);
        assert(events[at - 1] matches EventView::DirectoryProbed { present } ==> present);
    }
}

/// Provisioning twice is provisioning once. Take a first request that came as
/// far as running the inference program, and a second one, with the same
/// settings, on the system as the first left it: the interpreter answers as
/// before and the directory is there. Then the second request is ready after
/// these two answers, with the same environment state as the first, and has
/// neither created the environment nor installed anything on its way.
pub proof fn law_provisioning_is_idempotent(
    first: BridgeView,
    first_events: Seq<EventView>,
    second: BridgeView,
    version_reply: ProcessResultView,
)
    requires
        second.config == first.config,
        first.run(first_events).phase == Phase::Inferring,
        lossy_text(version_reply.stdout) == first.run(
            first_events,
        ).environment.interpreter_version,
    ensures
        ({
            let second_events = seq![
                EventView::Exited(version_reply),
                EventView::DirectoryProbed { present: true },
            ];
            &&& second.run(second_events.take(0)).phase == Phase::VerifyingInterpreter
            &&& second.run(second_events.take(1)).phase == Phase::ProbingEnvironment
            &&& second.run(second_events).phase == Phase::Inferring
            &&& second.run(second_events).environment == first.run(first_events).environment
        }),
{
    let second_events = seq![
        EventView::Exited(version_reply),
        EventView::DirectoryProbed { present: true },
    ];
    law_inference_needs_ready_environment(first, first_events);
    assert(second_events.take(0) =~= Seq::<EventView>::empty());
    lemma_run_unfolds(second, second_events, 0);
    lemma_run_unfolds(second, second_events, 1);
    assert(second_events.take(2) =~= second_events);
}

} // verus!
