use vstd::prelude::*;
use crate::surface::SurfaceSize;

verus! {

/// Where the event loop stands.
#[derive(Clone, Copy, Debug, PartialEq, Eq, Hash, Structural)]
pub enum LoopState {
    /// Nothing exists yet.
    Idle,
    /// The window and the rendering state are set up; no frame was asked for yet.
    Initialized,
    Running,
    /// The loop has been told to stop.
    Terminated,
}

/// Whether each frame asks for the next one at once.
#[derive(Clone, Copy, Debug, PartialEq, Eq, Hash, Structural)]
pub enum RedrawPolicy {
    /// Ask for a redraw right after each frame.
    Continuous,
    /// Draw only when the window system asks.
    WaitForEvent,
}

/// What the window system reports about the window.
#[derive(Clone, Copy, Debug, PartialEq, Eq, Hash, Structural)]
pub enum WindowEvent {
    CloseRequested,
    RedrawRequested,
    SurfaceResized(SurfaceSize),
    Other,
}

/// Everything the loop reacts to.
#[derive(Clone, Copy, Debug, PartialEq, Eq, Hash, Structural)]
pub enum LoopEvent {
    /// Surfaces can be created now.
    SurfaceCreatable,
    /// The one-time setup that the loop asked for has been completed.
    InitializationComplete,
    Window(WindowEvent),
}

/// One thing for the caller to do, in the order given.
#[derive(Clone, Copy, Debug, PartialEq, Eq, Hash, Structural)]
pub enum LoopAction {
    CreateWindow { transparent: bool },
    /// Set up context, pipeline, geometry and surface, then report `InitializationComplete`.
    Initialize,
    /// Render one frame.
    Render,
    /// Follow the window to a new size. No frame is rendered for it.
    Resize(SurfaceSize),
    RequestRedraw,
    /// Stop dispatching events.
    Exit,
}

/// The mathematical state of an [`AppLoop`].
pub struct LoopModel {
    pub state: LoopState,
    pub policy: RedrawPolicy,
    /// Whether a redraw was asked for and not yet delivered.
    pub redraw_pending: bool,
}

impl LoopModel {
    pub open spec fn fresh(policy: RedrawPolicy) -> LoopModel {
        LoopModel { state: LoopState::Idle, policy, redraw_pending: false }
    }

    /// The state that an event leads to. An event that the state does not
    /// expect changes nothing.
    pub open spec fn next(self, event: LoopEvent) -> LoopModel {
        match (self.state, event) {
            (LoopState::Terminated, _) => self,
            (_, LoopEvent::Window(WindowEvent::CloseRequested)) => LoopModel {
                state: LoopState::Terminated,
                redraw_pending: false,
                ..self
            },
            (LoopState::Idle, LoopEvent::SurfaceCreatable) => LoopModel {
                state: LoopState::Initialized,
                ..self
            },
            (LoopState::Initialized, LoopEvent::InitializationComplete) => LoopModel {
                state: LoopState::Running,
                redraw_pending: true,
                ..self
            },
            (LoopState::Running, LoopEvent::Window(WindowEvent::RedrawRequested)) => LoopModel {
                redraw_pending: self.policy is Continuous,
                ..self
            },
            _ => self,
        }
    }

    /// What an event asks the caller to do.
    pub open spec fn actions(self, event: LoopEvent) -> Seq<LoopAction> {
        match (self.state, event) {
            (LoopState::Terminated, _) => Seq::empty(),
            (_, LoopEvent::Window(WindowEvent::CloseRequested)) => seq![LoopAction::Exit],
            (LoopState::Idle, LoopEvent::SurfaceCreatable) => seq![
                LoopAction::CreateWindow { transparent: true },
                LoopAction::Initialize,
            ],
            (LoopState::Initialized, LoopEvent::InitializationComplete) => seq![
                LoopAction::RequestRedraw,
            ],
            (LoopState::Running, LoopEvent::Window(WindowEvent::RedrawRequested)) => if self.policy
                is Continuous {
                seq![LoopAction::Render, LoopAction::RequestRedraw]
            } else {
                seq![LoopAction::Render]
            },
            (LoopState::Running, LoopEvent::Window(WindowEvent::SurfaceResized(size))) => seq![
                LoopAction::Resize(size),
            ],
            _ => Seq::empty(),
        }
    }

    /// The state after a whole sequence of events.
    pub open spec fn after_all(self, events: Seq<LoopEvent>) -> LoopModel
        decreases events.len(),
    {
        if events.len() == 0 {
            self
        } else {
            self.after_all(events.drop_last()).next(events.last())
        }
    }

    /// Everything that a sequence of events asks the caller to do, in order.
    pub open spec fn all_actions(self, events: Seq<LoopEvent>) -> Seq<LoopAction>
        decreases events.len(),
    {
        if events.len() == 0 {
            Seq::empty()
        } else {
            self.all_actions(events.drop_last()) + self.after_all(events.drop_last()).actions(
                events.last(),
            )
        }
    }
}

/// The event-driven controller: it turns the events of the window system into
/// the lifecycle calls of the renderer.
pub struct AppLoop {
    state: LoopState,
    policy: RedrawPolicy,
    redraw_pending: bool,
}

impl View for AppLoop {
    type V = LoopModel;

    closed spec fn view(&self) -> LoopModel {
        LoopModel { state: self.state, policy: self.policy, redraw_pending: self.redraw_pending }
    }
}

impl AppLoop {
    pub fn new(policy: RedrawPolicy) -> (app: AppLoop)
        ensures
            app@ == LoopModel::fresh(policy),
    {
        AppLoop { state: LoopState::Idle, policy, redraw_pending: false }
    }

    pub fn state(&self) -> (state: LoopState)
        ensures
            state == self@.state,
    {
        self.state
    }

    pub fn policy(&self) -> (policy: RedrawPolicy)
        ensures
            policy == self@.policy,
    {
        self.policy
    }

    pub fn redraw_pending(&self) -> (pending: bool)
        ensures
            pending == self@.redraw_pending,
    {
        self.redraw_pending
    }

    /// Takes one event and says what to do about it.
    pub fn handle(&mut self, event: LoopEvent) -> (actions: Vec<LoopAction>)
        ensures
            final(self)@ == old(self)@.next(event),
            actions@ == old(self)@.actions(event),
    {
        let mut actions: Vec<LoopAction> = Vec::new();
        match (self.state, event) {
            (LoopState::Terminated, _) => {},
            (_, LoopEvent::Window(WindowEvent::CloseRequested)) => {
                self.state = LoopState::Terminated;
                self.redraw_pending = false;
                actions.push(LoopAction::Exit);
            },
            (LoopState::Idle, LoopEvent::SurfaceCreatable) => {
                self.state = LoopState::Initialized;
                actions.push(LoopAction::CreateWindow { transparent: true });
                actions.push(LoopAction::Initialize);
            },
            (LoopState::Initialized, LoopEvent::InitializationComplete) => {
                self.state = LoopState::Running;
                self.redraw_pending = true;
                actions.push(LoopAction::RequestRedraw);
            },
            (LoopState::Running, LoopEvent::Window(WindowEvent::RedrawRequested)) => {
                actions.push(LoopAction::Render);
                match self.policy {
                    RedrawPolicy::Continuous => {
                        self.redraw_pending = true;
                        actions.push(LoopAction::RequestRedraw);
                    },
                    RedrawPolicy::WaitForEvent => {
                        self.redraw_pending = false;
                    },
                }
            },
            (LoopState::Running, LoopEvent::Window(WindowEvent::SurfaceResized(size))) => {
                actions.push(LoopAction::Resize(size));
            },
            _ => {},
        }
        assert(actions@ =~= old(self)@.actions(event));
        actions
    }

    /// Surfaces can be created: the first time, the window and the rendering
    /// state are to be set up.
    pub fn can_create_surfaces(&mut self) -> (actions: Vec<LoopAction>)
        ensures
            final(self)@ == old(self)@.next(LoopEvent::SurfaceCreatable),
            actions@ == old(self)@.actions(LoopEvent::SurfaceCreatable),
    {
        self.handle(LoopEvent::SurfaceCreatable)
    }

    /// The setup is done: the loop starts running and asks for its first frame.
    pub fn initialized(&mut self) -> (actions: Vec<LoopAction>)
        ensures
            final(self)@ == old(self)@.next(LoopEvent::InitializationComplete),
            actions@ == old(self)@.actions(LoopEvent::InitializationComplete),
    {
        self.handle(LoopEvent::InitializationComplete)
    }

    /// The window system reported an event of the window.
    pub fn window_event(&mut self, event: WindowEvent) -> (actions: Vec<LoopAction>)
        ensures
            final(self)@ == old(self)@.next(LoopEvent::Window(event)),
            actions@ == old(self)@.actions(LoopEvent::Window(event)),
    {
        self.handle(LoopEvent::Window(event))
    }
}

/// How often a sequence of actions asks for a redraw.
pub open spec fn redraw_requests(actions: Seq<LoopAction>) -> nat
    decreases actions.len(),
{
    if actions.len() == 0 {
        0
    } else {
        redraw_requests(actions.drop_last()) + if actions.last() is RequestRedraw {
            1nat
        } else {
            0nat
        }
    }
}

/// A terminated loop stays terminated and asks for nothing, whatever comes.
pub proof fn lemma_terminated_is_final(model: LoopModel, events: Seq<LoopEvent>)
    requires
        model.state is Terminated,
    ensures
        model.after_all(events) == model,
        model.all_actions(events) == Seq::<LoopAction>::empty(),
    decreases events.len(),
{
    if events.len() > 0 {
        lemma_terminated_is_final(model, events.drop_last());
        assert(model.all_actions(events) =~= Seq::<LoopAction>::empty());
    }
}

/// A close request terminates the loop from every state, also while a redraw
/// is pending: the only thing asked for is to stop dispatching, and no event
/// that arrives afterwards leads to a redraw request or to anything else.
pub proof fn law_close_terminates(model: LoopModel, later: Seq<LoopEvent>)
    ensures
        model.next(LoopEvent::Window(WindowEvent::CloseRequested)).state is Terminated,
        !model.next(LoopEvent::Window(WindowEvent::CloseRequested)).redraw_pending || model.state
            is Terminated,
        redraw_requests(model.actions(LoopEvent::Window(WindowEvent::CloseRequested))) == 0,
        !(model.state is Terminated) ==> model.actions(
            LoopEvent::Window(WindowEvent::CloseRequested),
        ) == seq![LoopAction::Exit],
        model.next(LoopEvent::Window(WindowEvent::CloseRequested)).all_actions(later)
            == Seq::<LoopAction>::empty(),
        redraw_requests(
            model.next(LoopEvent::Window(WindowEvent::CloseRequested)).all_actions(later),
        ) == 0,
        model.next(LoopEvent::Window(WindowEvent::CloseRequested)).after_all(later).state
            is Terminated,
{
    let closed = model.next(LoopEvent::Window(WindowEvent::CloseRequested));
    lemma_terminated_is_final(closed, later);
    let asked = model.actions(LoopEvent::Window(WindowEvent::CloseRequested));
    assert(redraw_requests(Seq::<LoopAction>::empty()) == 0);
    if !(model.state is Terminated) {
        assert(asked.drop_last() =~= Seq::<LoopAction>::empty());
        assert(redraw_requests(asked) == redraw_requests(asked.drop_last()));
    }
}

/// Setting up happens once: a loop that has left `Idle` never returns to it
/// and never again asks for a window or for the setup.
pub proof fn law_setup_happens_once(model: LoopModel, events: Seq<LoopEvent>)
    requires
        !(model.state is Idle),
    ensures
        !(model.after_all(events).state is Idle),
        !model.all_actions(events).contains(LoopAction::Initialize),
        !model.all_actions(events).contains(LoopAction::CreateWindow { transparent: true }),
    decreases events.len(),
{
    if events.len() > 0 {
        law_setup_happens_once(model, events.drop_last());
        let before = model.all_actions(events.drop_last());
        let last = model.after_all(events.drop_last()).actions(events.last());
        let all = model.all_actions(events);
        assert(all == before + last);
        assert forall|i: int| 0 <= i < all.len() implies all[i] != LoopAction::Initialize && all[i]
            != (LoopAction::CreateWindow { transparent: true }) by {
            if i < before.len() {
                assert(before.contains(before[i]));
            } else {
                assert(last.contains(last[i - before.len()]));
            }
        }
    }
}

/// A resize never renders: it asks for the surface to follow, and nothing else.
pub proof fn law_resize_does_not_render(model: LoopModel, size: SurfaceSize)
    ensures
        model.next(LoopEvent::Window(WindowEvent::SurfaceResized(size))) == model,
        model.state is Running ==> model.actions(
            LoopEvent::Window(WindowEvent::SurfaceResized(size)),
        ) == seq![LoopAction::Resize(size)],
        !(model.state is Running) ==> model.actions(
            LoopEvent::Window(WindowEvent::SurfaceResized(size)),
        ) == Seq::<LoopAction>::empty(),
{
}

/// Frames are rendered only while the loop is running, one per redraw request.
pub proof fn law_render_only_while_running(model: LoopModel, event: LoopEvent)
    ensures
        model.actions(event).contains(LoopAction::Render) <==> model.state is Running && event
            == LoopEvent::Window(WindowEvent::RedrawRequested),
{
    let asked = model.actions(event);
    if model.state is Running && event == LoopEvent::Window(WindowEvent::RedrawRequested) {
        assert(asked[0] == LoopAction::Render);
    }
}

} // verus!
