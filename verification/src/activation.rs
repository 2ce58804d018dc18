//! Launches of the application and the deep links they carry.

use vstd::prelude::*;
use crate::views::option_view;

verus! {

/// The window that is told of deep links.
pub const MAIN_WINDOW: &'static str = "main";

/// The name of the event that carries a deep link.
pub const DEEP_LINK_EVENT: &'static str = "deep-link-received";

/// What a process was started with: its arguments in order, the executable's
/// path first, and its working directory.
#[derive(Clone, Debug, PartialEq, Eq)]
pub struct ProcessActivation {
    pub args: Vec<String>,
    pub cwd: String,
}

/// A [`ProcessActivation`] as a mathematical value.
pub struct ProcessActivationView {
    pub args: Seq<Seq<char>>,
    pub cwd: Seq<char>,
}

impl View for ProcessActivation {
    type V = ProcessActivationView;

    open spec fn view(&self) -> ProcessActivationView {
        ProcessActivationView { args: self.args@.map_values(|arg: String| arg@), cwd: self.cwd@ }
    }
}

/// The link that a launch asks the running application to open. It is
/// passed on as it came; nothing checks that it is well formed.
#[derive(Clone, Debug, PartialEq, Eq)]
pub struct DeepLinkPayload {
    pub url: String,
}

impl View for DeepLinkPayload {
    type V = Seq<char>;

    open spec fn view(&self) -> Seq<char> {
        self.url@
    }
}

/// A named event with a text payload, addressed to one window.
#[derive(Clone, Debug, PartialEq, Eq)]
pub struct UiEvent {
    pub target: String,
    pub name: String,
    pub payload: String,
}

/// A [`UiEvent`] as a mathematical value.
pub struct UiEventView {
    pub target: Seq<char>,
    pub name: Seq<char>,
    pub payload: Seq<char>,
}

impl View for UiEvent {
    type V = UiEventView;

    open spec fn view(&self) -> UiEventView {
        UiEventView { target: self.target@, name: self.name@, payload: self.payload@ }
    }
}

impl ProcessActivationView {
    /// The deep link of the launch: its second argument, if it has one.
    pub open spec fn deep_link(self) -> Option<Seq<char>> {
        if self.args.len() >= 2 {
            Some(self.args[1])
        } else {
            None
        }
    }

    /// The event by which the running application learns of the launch: the
    /// deep link, sent to the main window; none for a launch without one.
    pub open spec fn announcement(self) -> Option<UiEventView> {
        match self.deep_link() {
            Some(url) => Some(
                UiEventView { target: MAIN_WINDOW@, name: DEEP_LINK_EVENT@, payload: url },
            ),
            None => None,
        }
    }
}

impl ProcessActivation {
    /// A copy of the launch.
    pub fn duplicate(&self) -> (copy: ProcessActivation)
        ensures
            copy@ == self@,
    {
        let mut args: Vec<String> = Vec::new();
        let mut i: usize = 0;
        while i < self.args.len()
            invariant
                i <= self.args.len(),
                args@.len() == i,
                forall|j: int| 0 <= j < i ==> args@[j]@ == self.args@[j]@,
            decreases self.args.len() - i,
        {
            args.push(self.args[i].clone());
            i += 1;
        }
        let copy = ProcessActivation { args, cwd: self.cwd.clone() };
        assert(copy@.args =~= self@.args);
        copy
    }

    /// Extracts the deep link of the launch.
    pub fn deep_link(&self) -> (payload: Option<DeepLinkPayload>)
        ensures
            option_view(payload) == self@.deep_link(),
    {
        if self.args.len() >= 2 {
            Some(DeepLinkPayload { url: self.args[1].clone() })
        } else {
            None
        }
    }

    /// The event to emit in the running application for this launch, if any.
    pub fn announcement(&self) -> (event: Option<UiEvent>)
        ensures
            option_view(event) == self@.announcement(),
    {
        match self.deep_link() {
            Some(link) => Some(
                UiEvent {
                    target: MAIN_WINDOW.to_owned(),
                    name: DEEP_LINK_EVENT.to_owned(),
                    payload: link.url,
                },
            ),
            None => None,
        }
    }
}

} // verus!
