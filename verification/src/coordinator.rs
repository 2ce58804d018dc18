//! The part each process plays in keeping a single instance running.
//!
//! A process asks the machine-wide guard whether it is the first of its kind.
//! The first goes on to start and serves the launches that follow; every
//! other hands over what it was started with and ends. The coordinator holds
//! these rules; the guard itself and the channel between processes belong to
//! the operating system and are worked by the coordinator's owner.

use vstd::prelude::*;
use crate::activation::{ProcessActivation, ProcessActivationView, UiEvent, UiEventView};
use crate::views::option_view;

verus! {

/// The guard's answer to an attempt to acquire it.
#[derive(Clone, Copy, Debug, PartialEq, Eq, Structural)]
pub enum GuardAnswer {
    /// No other process held the guard; it is now held by this one.
    Acquired,
    /// Another process holds the guard.
    HeldElsewhere,
    /// The attempt itself failed.
    Failed,
}

/// Why a process could not take its part.
#[derive(Clone, Copy, Debug, PartialEq, Eq, Structural)]
pub enum CoordinatorError {
    /// The guard could not be asked. The process must not go on: it cannot
    /// know whether it is alone.
    GuardAcquisitionFailed,
}

/// Where a process stands.
#[derive(Clone, Copy, Debug, PartialEq, Eq, Structural)]
pub enum Phase {
    /// Started, the guard not yet answered.
    Starting,
    /// Holder of the guard: the one running instance.
    Primary,
    /// Not the holder, its launch not yet handed over.
    HandingOff,
    /// Not the holder, done.
    Exited,
    /// Stopped by a failure of the guard.
    Failed,
}

/// What the owner of a coordinator is to do next.
#[derive(Clone, Debug, PartialEq, Eq)]
pub enum Directive {
    /// Attempt to acquire the guard and report its answer.
    AcquireGuard,
    /// Complete startup, open the window, and report every launch that another
    /// process hands over.
    Serve,
    /// Deliver this launch to the running instance and report how that went.
    HandOff(ProcessActivation),
    /// End the process without opening a window.
    Exit,
    /// End the process with a fatal startup error.
    Abort(CoordinatorError),
}

/// A [`Directive`] as a mathematical value.
pub enum DirectiveView {
    AcquireGuard,
    Serve,
    HandOff(ProcessActivationView),
    Exit,
    Abort(CoordinatorError),
}

impl View for Directive {
    type V = DirectiveView;

    open spec fn view(&self) -> DirectiveView {
        match *self {
            Directive::AcquireGuard => DirectiveView::AcquireGuard,
            Directive::Serve => DirectiveView::Serve,
            Directive::HandOff(activation) => DirectiveView::HandOff(activation@),
            Directive::Exit => DirectiveView::Exit,
            Directive::Abort(error) => DirectiveView::Abort(error),
        }
    }
}

/// The coordinator as a mathematical value.
pub struct CoordinatorView {
    pub phase: Phase,
    /// What this process was started with.
    pub activation: ProcessActivationView,
}

impl CoordinatorView {
    /// The coordinator of a process that has just been started.
    pub open spec fn launched(activation: ProcessActivationView) -> CoordinatorView {
        CoordinatorView { phase: Phase::Starting, activation }
    }

    /// What the process is to do in its present phase.
    pub open spec fn directive(self) -> DirectiveView {
        match self.phase {
            Phase::Starting => DirectiveView::AcquireGuard,
            Phase::Primary => DirectiveView::Serve,
            Phase::HandingOff => DirectiveView::HandOff(self.activation),
            Phase::Exited => DirectiveView::Exit,
            Phase::Failed => DirectiveView::Abort(CoordinatorError::GuardAcquisitionFailed),
        }
    }

    /// Whether the process may open a window: only the running instance does.
    pub open spec fn opens_window(self) -> bool {
        self.phase == Phase::Primary
    }

    /// Whether the process has come to its end.
    pub open spec fn terminated(self) -> bool {
        self.phase == Phase::Exited || self.phase == Phase::Failed
    }

    /// The coordinator after the guard's answer. Only a starting process
    /// takes one: it becomes the running instance if it acquired the guard,
    /// turns to handing over if another holds it, and fails if the guard
    /// could not be asked.
    pub open spec fn guard_answered(self, answer: GuardAnswer) -> CoordinatorView {
        match self.phase {
            Phase::Starting => CoordinatorView {
                phase: match answer {
                    GuardAnswer::Acquired => Phase::Primary,
                    GuardAnswer::HeldElsewhere => Phase::HandingOff,
                    GuardAnswer::Failed => Phase::Failed,
                },
                activation: self.activation,
            },
            _ => self,
        }
    }

    /// The coordinator after the attempt to hand over has ended. Delivered or
    /// not, the process ends; it never takes the running instance's place.
    pub open spec fn hand_off_ended(self, delivered: bool) -> CoordinatorView {
        match self.phase {
            Phase::HandingOff => CoordinatorView { phase: Phase::Exited, activation: self.activation },
            _ => self,
        }
    }

    /// The event that the running instance emits when `incoming` is handed
    /// over to it. A process in any other phase emits nothing.
    pub open spec fn activated(self, incoming: ProcessActivationView) -> Option<UiEventView> {
        match self.phase {
            Phase::Primary => incoming.announcement(),
            _ => None,
        }
    }
}

/// The coordinator of one process.
pub struct Coordinator {
    phase: Phase,
    activation: ProcessActivation,
}

impl View for Coordinator {
    type V = CoordinatorView;

    closed spec fn view(&self) -> CoordinatorView {
        CoordinatorView { phase: self.phase, activation: self.activation@ }
    }
}

impl Coordinator {
    /// The coordinator of a process that was started with `activation`.
    pub fn launch(activation: ProcessActivation) -> (coordinator: Coordinator)
        ensures
            coordinator@ == CoordinatorView::launched(activation@),
    {
        Coordinator { phase: Phase::Starting, activation }
    }

    /// The coordinator of the running instance, for an owner whose guard has
    /// already been acquired on its behalf.
    pub fn primary(activation: ProcessActivation) -> (coordinator: Coordinator)
        ensures
            coordinator@ == CoordinatorView::launched(activation@).guard_answered(
                GuardAnswer::Acquired,
            ),
    {
        Coordinator { phase: Phase::Primary, activation }
    }

    /// Where the process stands.
    pub fn phase(&self) -> (phase: Phase)
        ensures
            phase == self@.phase,
    {
        self.phase
    }

    /// Whether this process is the running instance.
    pub fn is_primary(&self) -> (primary: bool)
        ensures
            primary == self@.opens_window(),
    {
        match self.phase {
            Phase::Primary => true,
            _ => false,
        }
    }

    /// What the owner is to do next.
    pub fn directive(&self) -> (directive: Directive)
        ensures
            directive@ == self@.directive(),
    {
        match self.phase {
            Phase::Starting => Directive::AcquireGuard,
            Phase::Primary => Directive::Serve,
            Phase::HandingOff => Directive::HandOff(self.activation.duplicate()),
            Phase::Exited => Directive::Exit,
            Phase::Failed => Directive::Abort(CoordinatorError::GuardAcquisitionFailed),
        }
    }

    /// Takes the guard's answer.
    pub fn guard_answered(self, answer: GuardAnswer) -> (next: Coordinator)
        ensures
            next@ == self@.guard_answered(answer),
    {
        match self.phase {
            Phase::Starting => {
                let phase = match answer {
                    GuardAnswer::Acquired => Phase::Primary,
                    GuardAnswer::HeldElsewhere => Phase::HandingOff,
                    GuardAnswer::Failed => Phase::Failed,
                };
                Coordinator { phase, activation: self.activation }
            },
            _ => self,
        }
    }

    /// Takes the end of the attempt to hand over.
    pub fn hand_off_ended(self, delivered: bool) -> (next: Coordinator)
        ensures
            next@ == self@.hand_off_ended(delivered),
    {
        match self.phase {
            Phase::HandingOff => Coordinator { phase: Phase::Exited, activation: self.activation },
            _ => self,
        }
    }

    /// Takes a launch that another process has handed over, and gives the
    /// event to emit for it, if any.
    pub fn activated(&self, incoming: &ProcessActivation) -> (event: Option<UiEvent>)
        ensures
            option_view(event) == self@.activated(incoming@),
    {
        match self.phase {
            Phase::Primary => incoming.announcement(),
            _ => None,
        }
    }
}

} // verus!
