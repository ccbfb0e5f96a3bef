//! The control loop's decisions.
//!
//! The dispatcher is either idle or has one run in progress. For every
//! command it says what is to be done, in order: kill the run in progress,
//! start a new one, write an event. Whoever drives it does these things and
//! reports back when a start failed or a run ended.

use crate::claude::{invocation_for, ClaudeProcess, Invocation, InvocationView, ProcessError};
use crate::protocol::{
    events_view, ChatParams, ChatParamsView, ContinueParamsView, Event, EventView, Request,
    RequestView,
};
use crate::session::{SessionManager, SessionStateView};
use crate::text::{clone_opt, clone_strings, opt_view};
use crate::translator::{line_step, StreamTranslator};
use vstd::prelude::*;
use vstd::string::*;

verus! {

/// One thing for the driver to do.
#[derive(Debug, Clone, PartialEq, Eq)]
pub enum Action {
    /// Kill the agent process that is running and drop its forwarder.
    Kill,
    /// Start the agent as described.
    Spawn(Invocation),
    /// Write this event to the host.
    Emit(Event),
}

pub ghost enum ActionView {
    Kill,
    Spawn(InvocationView),
    Emit(EventView),
}

impl View for Action {
    type V = ActionView;

    open spec fn view(&self) -> ActionView {
        match self {
            Action::Kill => ActionView::Kill,
            Action::Spawn(invocation) => ActionView::Spawn(invocation@),
            Action::Emit(event) => ActionView::Emit(event@),
        }
    }
}

/// The views of a sequence of actions, in order.
pub open spec fn actions_view(actions: Seq<Action>) -> Seq<ActionView> {
    actions.map_values(|a: Action| a@)
}

/// The dispatcher as a value: the program it runs as the agent, the
/// session, and the run in progress if any.
pub ghost struct DispatcherView {
    pub program: Seq<char>,
    pub session: SessionStateView,
    pub running: Option<InvocationView>,
}

/// What a command does: the actions it asks for and the dispatcher after it.
pub ghost struct Outcome {
    pub actions: Seq<ActionView>,
    pub after: DispatcherView,
}

/// The parameters of a run that resumes a session without new input.
pub open spec fn resume_params(cwd: Option<Seq<char>>) -> ChatParamsView {
    ChatParamsView {
        prompt: Seq::empty(),
        cwd,
        context: None,
        model: None,
        allowed_tools: None,
        append_system_prompt: None,
        permission_mode: None,
    }
}

/// The parameters of a run that continues the tracked session.
pub open spec fn continue_params(prompt: Seq<char>, context: Option<Seq<char>>) -> ChatParamsView {
    ChatParamsView {
        prompt,
        cwd: None,
        context,
        model: None,
        allowed_tools: None,
        append_system_prompt: None,
        permission_mode: None,
    }
}

impl DispatcherView {
    /// The session after the run in progress, if any, has been aborted.
    pub open spec fn retired_session(self) -> SessionStateView {
        if self.running is Some {
            self.session.deactivated()
        } else {
            self.session
        }
    }

    /// The actions that retire the run in progress, if any.
    pub open spec fn retire_actions(self) -> Seq<ActionView> {
        if self.running is Some {
            seq![ActionView::Kill]
        } else {
            Seq::empty()
        }
    }

    /// Retires the run in progress and starts a new one.
    pub open spec fn start(self, p: ChatParamsView, resume: Option<Seq<char>>) -> Outcome {
        let invocation = invocation_for(self.program, p, resume);
        Outcome {
            actions: self.retire_actions().push(ActionView::Spawn(invocation)),
            after: DispatcherView {
                session: self.retired_session(),
                running: Some(invocation),
                ..self
            },
        }
    }

    /// What the dispatcher does with a command.
    pub open spec fn handle(self, request: RequestView) -> Outcome {
        match request {
            RequestView::Chat(p) => self.start(p, None),
            RequestView::Resume(p) => self.start(resume_params(p.cwd), Some(p.session_id)),
            RequestView::Continue(p) => match self.session.session_id {
                Some(id) => self.start(continue_params(p.prompt, p.context), Some(id)),
                None => Outcome {
                    actions: seq![
                        ActionView::Emit(
                            EventView::Error { message: "No active session to continue"@ },
                        ),
                    ],
                    after: self,
                },
            },
            RequestView::Abort => if self.running is Some {
                Outcome {
                    actions: seq![ActionView::Kill, ActionView::Emit(EventView::Done)],
                    after: DispatcherView {
                        session: self.session.deactivated(),
                        running: None,
                        ..self
                    },
                }
            } else {
                Outcome { actions: Seq::empty(), after: self }
            },
            RequestView::Status => Outcome {
                actions: seq![
                    ActionView::Emit(
                        EventView::Status {
                            active: self.session.active,
                            session_id: self.session.session_id,
                        },
                    ),
                ],
                after: self,
            },
        }
    }
}

/// The event that reports a command that could not be decoded.
pub open spec fn invalid_request(detail: Seq<char>) -> EventView {
    EventView::Error { message: "Invalid request: "@ + detail }
}

/// `Continue` without a known session gives exactly one event, an error,
/// and nothing else: no run is retired, none is started, and the dispatcher
/// stays as it is.
pub proof fn lemma_continue_needs_a_session(d: DispatcherView, p: ContinueParamsView)
    requires
        d.session.session_id is None,
    ensures
        d.handle(RequestView::Continue(p)).after == d,
        d.handle(RequestView::Continue(p)).actions.len() == 1,
        d.handle(RequestView::Continue(p)).actions[0] matches ActionView::Emit(e) && e is Error,
{
}

/// `Abort` while idle gives nothing and changes nothing. `Abort` while a
/// run is in progress kills it and gives exactly one event, `Done`; after
/// it no run is in progress and the session is inactive.
pub proof fn lemma_abort(d: DispatcherView)
    ensures
        d.running is None ==> d.handle(RequestView::Abort).actions.len() == 0 && d.handle(
            RequestView::Abort,
        ).after == d,
        d.running is Some ==> d.handle(RequestView::Abort).actions == seq![
            ActionView::Kill,
            ActionView::Emit(EventView::Done),
        ],
        d.handle(RequestView::Abort).after.running is None,
        d.running is Some ==> !d.handle(RequestView::Abort).after.session.active,
        d.handle(RequestView::Abort).after.session.session_id == d.session.session_id,
{
}

/// Whatever the command, at most one run is in progress afterwards, and a
/// run that was in progress before a new one starts is killed first.
pub proof fn lemma_old_run_is_retired_first(d: DispatcherView, request: RequestView)
    requires
        d.running is Some,
    ensures
        ({
            let actions = d.handle(request).actions;
            forall|i: int|
                0 <= i < actions.len() && #[trigger] actions[i] is Spawn ==> i == 1 && actions[0]
                    is Kill
        }),
{
}

/// The events that the dispatcher itself asks to be written are plain:
/// their lines hold exactly one newline.
pub proof fn lemma_own_events_plain(d: DispatcherView, request: RequestView)
    ensures
        ({
            let actions = d.handle(request).actions;
            forall|i: int|
                0 <= i < actions.len() ==> (#[trigger] actions[i] matches ActionView::Emit(e)
                    ==> e.plain())
        }),
{
}

fn push_action(actions: &mut Vec<Action>, a: Action)
    ensures
        actions_view(final(actions)@) == actions_view(old(actions)@).push(a@),
{
    actions.push(a);
    assert(actions_view(actions@) =~= actions_view(old(actions)@).push(a@));
}

fn no_actions() -> (res: Vec<Action>)
    ensures
        actions_view(res@) == Seq::<ActionView>::empty(),
{
    let res: Vec<Action> = Vec::new();
    assert(actions_view(res@) =~= Seq::<ActionView>::empty());
    res
}

fn clone_invocation(invocation: &Invocation) -> (res: Invocation)
    ensures
        res@ == invocation@,
{
    Invocation {
        program: invocation.program.clone(),
        args: clone_strings(&invocation.args),
        cwd: clone_opt(&invocation.cwd),
        input: clone_opt(&invocation.input),
    }
}

/// The top-level state: the session and the slot for the one run that may
/// be in progress.
#[derive(Debug)]
pub struct Dispatcher {
    program: String,
    session: SessionManager,
    process: Option<ClaudeProcess>,
}

impl View for Dispatcher {
    type V = DispatcherView;

    closed spec fn view(&self) -> DispatcherView {
        DispatcherView {
            program: self.program@,
            session: self.session@,
            running: match self.process {
                Some(p) => Some(p@.invocation),
                None => None,
            },
        }
    }
}

impl Dispatcher {
    /// An idle dispatcher that knows no session and will run `program` as
    /// the agent.
    pub fn new(program: String) -> (res: Self)
        ensures
            res@ == (DispatcherView {
                program: program@,
                session: SessionStateView::initial(),
                running: None,
            }),
    {
        Self { program, session: SessionManager::new(), process: None }
    }

    /// Whether a run is in progress.
    pub fn is_running(&self) -> (res: bool)
        ensures
            res == (self@.running is Some),
    {
        self.process.is_some()
    }

    /// The session, to read.
    pub fn session(&self) -> (res: &SessionManager)
        ensures
            res@ == self@.session,
    {
        &self.session
    }

    /// Hands one line of the agent's standard output to the run's
    /// translator, which updates the session.
    pub fn stdout_line(&mut self, translator: &mut StreamTranslator, line: &str) -> (res: Vec<
        Event,
    >)
        ensures
            events_view(res@) == line_step(old(translator)@, old(self)@.session, line@).events,
            final(translator)@ == line_step(old(translator)@, old(self)@.session, line@).text,
            final(self)@ == (DispatcherView {
                session: line_step(old(translator)@, old(self)@.session, line@).session,
                ..old(self)@
            }),
            forall|i: int| 0 <= i < res@.len() ==> (#[trigger] res@[i])@.plain(),
    {
        translator.handle_stdout_line(&mut self.session, line)
    }

    /// The agent's standard output has ended: no run is active any more.
    pub fn stdout_closed(&mut self, translator: &StreamTranslator)
        ensures
            final(self)@ == (DispatcherView {
                session: old(self)@.session.deactivated(),
                ..old(self)@
            }),
    {
        translator.handle_stdout_closed(&mut self.session);
    }

    /// Aborts the run in progress, if any, and empties the slot.
    fn retire(&mut self, actions: &mut Vec<Action>)
        ensures
            actions_view(final(actions)@) == actions_view(old(actions)@) + old(
                self,
            )@.retire_actions(),
            final(self)@ == (DispatcherView {
                session: old(self)@.retired_session(),
                running: None,
                ..old(self)@
            }),
    {
        let slot = self.process.take();
        match slot {
            Some(mut process) => {
                process.abort(&mut self.session);
                push_action(actions, Action::Kill);
            },
            None => {},
        }
        assert(actions_view(actions@) =~= actions_view(old(actions)@) + old(
            self,
        )@.retire_actions());
    }

    /// Retires the run in progress and prepares the next one.
    fn start(&mut self, params: &ChatParams, resume_session: Option<String>) -> (res: Vec<Action>)
        ensures
            actions_view(res@) == old(self)@.start(params@, opt_view(resume_session)).actions,
            final(self)@ == old(self)@.start(params@, opt_view(resume_session)).after,
    {
        let mut actions = no_actions();
        self.retire(&mut actions);
        let process = ClaudeProcess::spawn(self.program.as_str(), params, resume_session);
        push_action(&mut actions, Action::Spawn(clone_invocation(process.invocation())));
        self.process = Some(process);
        assert(actions_view(actions@) =~= old(self)@.start(
            params@,
            opt_view(resume_session),
        ).actions);
        actions
    }

    /// Decides what one command leads to.
    pub fn handle(&mut self, request: Request) -> (res: Vec<Action>)
        ensures
            actions_view(res@) == old(self)@.handle(request@).actions,
            final(self)@ == old(self)@.handle(request@).after,
    {
        match request {
            Request::Chat(params) => self.start(&params, None),
            Request::Resume(params) => {
                let chat = ChatParams {
                    prompt: String::new(),
                    cwd: params.cwd,
                    context: None,
                    model: None,
                    allowed_tools: None,
                    append_system_prompt: None,
                    permission_mode: None,
                };
                self.start(&chat, Some(params.session_id))
            },
            Request::Continue(params) => {
                match self.session.get_session_id() {
                    Some(id) => {
                        let chat = ChatParams {
                            prompt: params.prompt,
                            cwd: None,
                            context: params.context,
                            model: None,
                            allowed_tools: None,
                            append_system_prompt: None,
                            permission_mode: None,
                        };
                        self.start(&chat, Some(id))
                    },
                    None => {
                        let mut actions = no_actions();
                        push_action(
                            &mut actions,
                            Action::Emit(
                                Event::Error {
                                    message: String::from_str("No active session to continue"),
                                },
                            ),
                        );
                        assert(actions_view(actions@) =~= old(self)@.handle(request@).actions);
                        actions
                    },
                }
            },
            Request::Abort => {
                let mut actions = no_actions();
                if self.process.is_some() {
                    self.retire(&mut actions);
                    push_action(&mut actions, Action::Emit(Event::Done));
                    assert(actions_view(actions@) =~= old(self)@.handle(request@).actions);
                }
                actions
            },
            Request::Status => {
                let state = self.session.get_state();
                let mut actions = no_actions();
                push_action(
                    &mut actions,
                    Action::Emit(
                        Event::Status { active: state.active, session_id: state.session_id },
                    ),
                );
                assert(actions_view(actions@) =~= old(self)@.handle(request@).actions);
                actions
            },
        }
    }

    /// The run could not be started: the slot is empty again, and the host
    /// is told why.
    pub fn spawn_failed(&mut self, error: &ProcessError) -> (res: Event)
        ensures
            res@ == (EventView::Error { message: error@.message(old(self)@.program) }),
            final(self)@ == (DispatcherView { running: None, ..old(self)@ }),
    {
        self.process = None;
        Event::Error { message: error.message(self.program.as_str()) }
    }

    /// The run has written its `Done` and its process has been reaped: the
    /// slot is empty again.
    pub fn run_finished(&mut self)
        ensures
            final(self)@ == (DispatcherView { running: None, ..old(self)@ }),
    {
        self.process = None;
    }

    /// The event for an input line that is not a command. The state is not
    /// touched.
    pub fn decode_failed(detail: &str) -> (res: Event)
        ensures
            res@ == invalid_request(detail@),
    {
        let mut message = String::from_str("Invalid request: ");
        message.append(detail);
        Event::Error { message }
    }
}

} // verus!
