//! The driver loop's state machine.
//!
//! The loop blocks until a platform event or a wake signal arrives, handles
//! it, and then unconditionally does a fixed amount of per-frame work:
//! submit a fresh empty transaction, let the renderer update, render at the
//! device size chosen at startup, and swap the display buffer. `step` decides
//! the state change and the actions of one iteration; the embedder performs
//! the actions in order.

use vstd::prelude::*;

use crate::geom::DeviceSize;

verus! {

/// The phases of the driver's life: setup has not run, setup is complete,
/// the event loop is running, or the loop has been asked to return.
#[derive(Clone, Copy, Debug, PartialEq, Eq, Structural)]
pub enum Phase {
    Uninitialized,
    Initialized,
    Running,
    Terminated,
}

/// The only key the loop distinguishes from the rest.
#[derive(Clone, Copy, Debug, PartialEq, Eq, Structural)]
pub enum KeyCode {
    Escape,
    Other,
}

/// A platform event, reduced to what the loop reacts to. `KeyboardInput`
/// carries no key when the platform could not name one; `Wake` is the
/// payload-free signal the notifier posts; everything else is `Other`.
#[derive(Clone, Copy, Debug, PartialEq, Eq)]
pub enum Event {
    CloseRequested,
    KeyboardInput { key: Option<KeyCode> },
    Resumed,
    Wake,
    Other,
}

/// One side effect of a loop iteration, for the embedder to perform.
#[derive(Clone, Copy, Debug, PartialEq, Eq, Structural)]
pub enum Action {
    ShowWindow,
    FocusWindow,
    SubmitEmptyTransaction,
    UpdateRenderer,
    RenderFrame,
    SwapBuffers,
}

/// The loop's view of the world: its phase, whether the window has been made
/// visible, whether focus has been requested for it, and the device-pixel
/// size fixed at startup (never updated, even on resize).
#[derive(Clone, Copy, Debug, PartialEq, Eq, Structural)]
pub struct DriverState {
    pub phase: Phase,
    pub visible: bool,
    pub focus_requested: bool,
    pub size: DeviceSize,
}

/// Whether the event asks the loop to return: a close request from the
/// window manager, or a press of the escape key.
pub open spec fn is_exit_event(event: Event) -> bool {
    event is CloseRequested || event matches Event::KeyboardInput {
        key: Some(KeyCode::Escape),
    }
}

/// The state after handling one event. Exit events terminate the loop from
/// any state; the resume notification shows the window, requests focus and
/// (unless the loop already terminated) enters the running phase; every
/// other event, a wake signal included, changes nothing.
pub open spec fn step_spec(state: DriverState, event: Event) -> DriverState {
    if is_exit_event(event) {
        DriverState { phase: Phase::Terminated, ..state }
    } else if event is Resumed {
        DriverState {
            phase: if state.phase is Terminated {
                Phase::Terminated
            } else {
                Phase::Running
            },
            visible: true,
            focus_requested: true,
            ..state
        }
    } else {
        state
    }
}

/// The actions of one iteration, in order: showing and focusing the window
/// on a resume notification, then always the unconditional per-frame work.
pub open spec fn iteration_actions(event: Event) -> Seq<Action> {
    let tail = seq![
        Action::SubmitEmptyTransaction,
        Action::UpdateRenderer,
        Action::RenderFrame,
        Action::SwapBuffers,
    ];
    if event is Resumed {
        seq![Action::ShowWindow, Action::FocusWindow] + tail
    } else {
        tail
    }
}

impl DriverState {
    /// The state before any setup has run: the window is created hidden and
    /// unfocused, sized to `size` device pixels.
    pub fn new(size: DeviceSize) -> (state: DriverState)
        ensures
            state.phase is Uninitialized,
            !state.visible,
            !state.focus_requested,
            state.size == size,
    {
        DriverState { phase: Phase::Uninitialized, visible: false, focus_requested: false, size }
    }

    /// Records that setup completed: the context is current, the renderer is
    /// built, the document exists and the initial transaction has been
    /// submitted. Nothing else changes. (A setup failure aborts the process
    /// instead, so this is only called on success.)
    pub fn initialize(&mut self)
        requires
            old(self).phase is Uninitialized,
        ensures
            final(self).phase is Initialized,
            final(self).visible == old(self).visible,
            final(self).focus_requested == old(self).focus_requested,
            final(self).size == old(self).size,
    {
        self.phase = Phase::Initialized;
    }

    /// Handles one event: moves to the state `step_spec` gives and returns
    /// the actions of this iteration, in the order the embedder must perform
    /// them. Every iteration ends with the unconditional per-frame work,
    /// the terminating one included.
    pub fn step(&mut self, event: Event) -> (actions: Vec<Action>)
        requires
            !(old(self).phase is Uninitialized),
        ensures
            *final(self) == step_spec(*old(self), event),
            actions@ == iteration_actions(event),
    {
        let mut actions: Vec<Action> = Vec::new();
        match event {
            Event::CloseRequested => {
                self.phase = Phase::Terminated;
            },
            Event::KeyboardInput { key: Some(KeyCode::Escape) } => {
                self.phase = Phase::Terminated;
            },
            Event::KeyboardInput { key: _ } => {},
            Event::Resumed => {
                match self.phase {
                    Phase::Terminated => {},
                    _ => {
                        self.phase = Phase::Running;
                    },
                }
                self.visible = true;
                self.focus_requested = true;
                actions.push(Action::ShowWindow);
                actions.push(Action::FocusWindow);
            },
            Event::Wake => {},
            Event::Other => {},
        }
        actions.push(Action::SubmitEmptyTransaction);
        actions.push(Action::UpdateRenderer);
        actions.push(Action::RenderFrame);
        actions.push(Action::SwapBuffers);
        proof {
            assert(actions@ =~= iteration_actions(event));
        }
        actions
    }
}

/// Law: a close request or an escape-key press terminates the loop from any
/// state reached after initialization.
pub proof fn lemma_exit_event_terminates(state: DriverState, event: Event)
    requires
        !(state.phase is Uninitialized),
        is_exit_event(event),
    ensures
        step_spec(state, event).phase is Terminated,
{
}

/// Law: no event other than the resume notification changes the window's
/// visibility or its focus-request flag.
pub proof fn lemma_only_resume_touches_window(state: DriverState, event: Event)
    requires
        !(event is Resumed),
    ensures
        step_spec(state, event).visible == state.visible,
        step_spec(state, event).focus_requested == state.focus_requested,
{
}

/// Law: the resume notification always makes the window visible and always
/// requests focus for it.
pub proof fn lemma_resume_shows_window(state: DriverState)
    ensures
        step_spec(state, Event::Resumed).visible,
        step_spec(state, Event::Resumed).focus_requested,
{
}

/// Law: once the loop has terminated, it stays terminated, whatever arrives.
pub proof fn lemma_terminated_is_final(state: DriverState, event: Event)
    requires
        state.phase is Terminated,
    ensures
        step_spec(state, event).phase is Terminated,
{
}

/// Law: no event changes the device size chosen at startup.
pub proof fn lemma_size_is_fixed(state: DriverState, event: Event)
    ensures
        step_spec(state, event).size == state.size,
{
}

} // verus!
