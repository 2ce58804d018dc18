//! The launches of one user session, seen together.
//!
//! Each process knows only what the guard answered to it. That a single
//! instance runs is a statement about all of them, and rests on how the
//! guard answers: this module writes that behaviour down and draws the
//! conclusion from the coordinator's rules.
//!
//! The guard serves the attempts one at a time, also of processes that start
//! at the same moment, and a session is the list of launches in the order in
//! which it served them. The process that acquires the guard holds it for as
//! long as it runs, which is here the whole of the session.

use vstd::prelude::*;
use crate::activation::{ProcessActivationView, UiEventView, DEEP_LINK_EVENT, MAIN_WINDOW};
use crate::coordinator::{CoordinatorView, DirectiveView, GuardAnswer, Phase};

verus! {

/// One start of the application.
pub struct Launch {
    /// What the process was started with.
    pub activation: ProcessActivationView,
    /// Whether the attempt to ask the guard fails for this process.
    pub guard_fails: bool,
    /// Whether the launch reaches the running instance, should the process
    /// hand it over.
    pub delivered: bool,
}

/// Whether the guard is held when the launch at `position` makes its
/// attempt: a launch before it has acquired the guard.
pub open spec fn held_before(session: Seq<Launch>, position: int) -> bool {
    exists|earlier: int| 0 <= earlier < position && !(#[trigger] session[earlier]).guard_fails
}

/// The guard's answer to the launch at `position`.
pub open spec fn guard_answer(session: Seq<Launch>, position: int) -> GuardAnswer {
    if session[position].guard_fails {
        GuardAnswer::Failed
    } else if held_before(session, position) {
        GuardAnswer::HeldElsewhere
    } else {
        GuardAnswer::Acquired
    }
}

/// The coordinator of the launch at `position` once the guard has answered.
pub open spec fn answered(session: Seq<Launch>, position: int) -> CoordinatorView {
    CoordinatorView::launched(session[position].activation).guard_answered(
        guard_answer(session, position),
    )
}

/// The coordinator of the launch at `position` once it has come to rest: as
/// the running instance, or at its end.
pub open spec fn settled(session: Seq<Launch>, position: int) -> CoordinatorView {
    answered(session, position).hand_off_ended(session[position].delivered)
}

/// The first launch up to `bound` whose attempt on the guard does not fail.
proof fn first_success(session: Seq<Launch>, bound: int) -> (first: int)
    requires
        0 <= bound < session.len(),
        !session[bound].guard_fails,
    ensures
        0 <= first <= bound,
        !session[first].guard_fails,
        !held_before(session, first),
    decreases bound,
{
    if held_before(session, bound) {
        let earlier = choose|earlier: int|
            0 <= earlier < bound && !(#[trigger] session[earlier]).guard_fails;
        first_success(session, earlier)
    } else {
        bound
    }
}

/// At no time do two processes of a session run as the instance: of any two
/// launches that settle as primary, one is the other.
pub proof fn at_most_one_primary(session: Seq<Launch>, one: int, other: int)
    requires
        0 <= one < session.len(),
        0 <= other < session.len(),
        settled(session, one).phase == Phase::Primary,
        settled(session, other).phase == Phase::Primary,
    ensures
        one == other,
{
    // The later of two different launches would have found the guard held
    // by the earlier.
}

/// Of the launches of a session, as many as there are and in whatever order
/// the guard serves them, exactly one settles as the running instance, and
/// every other comes to its end without ever being allowed a window. This
/// holds of every session in which the guard answers at least one attempt.
pub proof fn exactly_one_primary(session: Seq<Launch>) -> (primary: int)
    requires
        session.len() >= 1,
        exists|position: int|
            0 <= position < session.len() && !(#[trigger] session[position]).guard_fails,
    ensures
        0 <= primary < session.len(),
        settled(session, primary).phase == Phase::Primary,
        forall|position: int|
            0 <= position < session.len() && position != primary ==> !(#[trigger] answered(
                session,
                position,
            )).opens_window() && !settled(session, position).opens_window() && settled(
                session,
                position,
            ).terminated(),
{
    let some = choose|position: int|
        0 <= position < session.len() && !(#[trigger] session[position]).guard_fails;
    let primary = first_success(session, some);
    primary
}

/// A launch that finds the guard held hands over what it was started with,
/// and the running instance, once the launch has reached it, emits for it
/// what the launch announces: its deep link, addressed to the main window,
/// or nothing where it carries none.
pub proof fn hand_over_is_announced(session: Seq<Launch>, primary: int, position: int)
    requires
        0 <= primary < session.len(),
        0 <= position < session.len(),
        settled(session, primary).phase == Phase::Primary,
        position != primary,
        !session[position].guard_fails,
    ensures
        answered(session, position).directive() == DirectiveView::HandOff(
            session[position].activation,
        ),
        settled(session, primary).activated(session[position].activation)
            == session[position].activation.announcement(),
        session[position].activation.args.len() >= 2 ==> settled(session, primary).activated(
            session[position].activation,
        ) == Some(
            UiEventView {
                target: MAIN_WINDOW@,
                name: DEEP_LINK_EVENT@,
                payload: session[position].activation.args[1],
            },
        ),
        session[position].activation.args.len() < 2 ==> settled(session, primary).activated(
            session[position].activation,
        ) is None,
{
    // The primary's attempt did not fail and found no earlier success, so
    // the other launch came later and found the guard held.
}

/// A process that is not the running instance never becomes it: whatever
/// the guard is reported to answer later and however the hand-over ends, a
/// process that hands over, has ended or has failed stays out of the primary
/// phase.
pub proof fn secondary_stays_secondary(
    coordinator: CoordinatorView,
    answer: GuardAnswer,
    delivered: bool,
)
    requires
        coordinator.phase != Phase::Starting,
        coordinator.phase != Phase::Primary,
    ensures
        coordinator.guard_answered(answer).phase != Phase::Primary,
        coordinator.hand_off_ended(delivered).phase != Phase::Primary,
        coordinator.hand_off_ended(delivered).terminated(),
{
}

} // verus!
