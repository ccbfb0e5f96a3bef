//! The one piece of state that outlives a run of the agent: which session is
//! being talked to, with which model, and whether a run is in progress.

use crate::text::{clone_opt, opt_view};
use vstd::prelude::*;

verus! {

/// What the bridge knows about the conversation.
#[derive(Debug)]
pub struct SessionState {
    pub session_id: Option<String>,
    pub active: bool,
    pub model: Option<String>,
}

pub ghost struct SessionStateView {
    pub session_id: Option<Seq<char>>,
    pub active: bool,
    pub model: Option<Seq<char>>,
}

impl SessionStateView {
    /// Nothing known, nothing running.
    pub open spec fn initial() -> SessionStateView {
        SessionStateView { session_id: None, active: false, model: None }
    }

    /// The state once a run has reported its session and model.
    pub open spec fn activated(self, session_id: Seq<char>, model: Seq<char>) -> SessionStateView {
        SessionStateView { session_id: Some(session_id), active: true, model: Some(model) }
    }

    /// The state once the run is over; session and model are kept.
    pub open spec fn deactivated(self) -> SessionStateView {
        SessionStateView { active: false, ..self }
    }
}

impl View for SessionState {
    type V = SessionStateView;

    open spec fn view(&self) -> SessionStateView {
        SessionStateView {
            session_id: opt_view(self.session_id),
            active: self.active,
            model: opt_view(self.model),
        }
    }
}

impl Clone for SessionState {
    fn clone(&self) -> (res: Self)
        ensures
            res@ == self@,
    {
        SessionState {
            session_id: clone_opt(&self.session_id),
            active: self.active,
            model: clone_opt(&self.model),
        }
    }
}

impl SessionState {
    pub fn new() -> (res: Self)
        ensures
            res@ == SessionStateView::initial(),
    {
        Self { session_id: None, active: false, model: None }
    }
}

/// Sole owner of the [`SessionState`]. Every change goes through it.
#[derive(Debug)]
pub struct SessionManager {
    state: SessionState,
}

impl View for SessionManager {
    type V = SessionStateView;

    closed spec fn view(&self) -> SessionStateView {
        self.state@
    }
}

impl SessionManager {
    pub fn new() -> (res: Self)
        ensures
            res@ == SessionStateView::initial(),
    {
        Self { state: SessionState::new() }
    }

    /// Records that a run has started in the given session.
    pub fn set_active(&mut self, session_id: String, model: String)
        ensures
            final(self)@ == old(self)@.activated(session_id@, model@),
    {
        self.state.session_id = Some(session_id);
        self.state.model = Some(model);
        self.state.active = true;
    }

    /// Records that no run is in progress. The session stays known.
    pub fn set_inactive(&mut self)
        ensures
            final(self)@ == old(self)@.deactivated(),
    {
        self.state.active = false;
    }

    pub fn get_state(&self) -> (res: SessionState)
        ensures
            res@ == self@,
    {
        self.state.clone()
    }

    pub fn get_session_id(&self) -> (res: Option<String>)
        ensures
            opt_view(res) == self@.session_id,
    {
        clone_opt(&self.state.session_id)
    }
}

} // verus!
