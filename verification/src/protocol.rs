//! The two loops side by side: every way in which the event loop and the render loop can
//! take turns, and what holds of all of them.
//!
//! The event loop owns the window and never touches the context. The render loop owns
//! the context. Between them there are two channels and nothing else: the stop signal,
//! handed over while the sender waits, and the resizes, queued without waiting.

use crate::dispatch::{after_event, fresh, reaction_to, Command, DispatcherModel, Event, Flow};
use crate::render::{activated, after_iteration, after_poll, takes_stop, Found, Phase, RenderModel};
use crate::signal::{newest, Size};
use vstd::prelude::*;

verus! {

/// A run at one moment.
pub struct Run {
    pub dispatcher: DispatcherModel,
    pub render: RenderModel,
    /// What the event loop does once its current event is handled. Once it is leaving, it
    /// is leaving for good, whatever later events ask for.
    pub flow: Flow,
    /// The stop signal is held out and not taken yet: the event loop waits.
    pub stop_offered: bool,
    /// The sizes sent and not drained yet, oldest first.
    pub resizes: Seq<Size>,
    /// The render thread was joined.
    pub joined: bool,
}

/// One turn of one of the two loops.
pub enum Turn {
    /// The event loop handles an event.
    Dispatch(Event),
    /// The render loop ends its activation.
    Activate,
    /// The render loop runs one iteration.
    Iterate,
}

/// A run at its start: the render thread is spawned and has yet to activate its context.
pub open spec fn start() -> Run {
    Run {
        dispatcher: fresh(),
        render: RenderModel { phase: Phase::Activating, surface: None },
        flow: Flow::Wait,
        stop_offered: false,
        resizes: Seq::empty(),
        joined: false,
    }
}

/// Whether `turn` can be taken in `run`.
///
/// The event loop takes no event while it holds out the stop signal. Once it is leaving,
/// the one event left is the end of the loop, and that one returns from its join only
/// when the render loop has ended. The render loop activates once and then iterates
/// until it is terminating.
pub open spec fn can_take(run: Run, turn: Turn) -> bool {
    match turn {
        Turn::Dispatch(Event::LoopDestroyed) => {
            &&& !run.stop_offered
            &&& run.flow is Exit
            &&& run.dispatcher.render_attached
            &&& run.render.phase is Terminating
        },
        Turn::Dispatch(_) => !run.stop_offered && run.flow is Wait,
        Turn::Activate => run.render.phase is Activating,
        Turn::Iterate => run.render.phase is Running,
    }
}

/// The run after `turn`.
pub open spec fn after_turn(run: Run, turn: Turn) -> Run {
    match turn {
        Turn::Dispatch(event) => {
            let reaction = reaction_to(run.dispatcher, event);
            Run {
                dispatcher: after_event(run.dispatcher, event),
                render: run.render,
                flow: if run.flow is Exit {
                    Flow::Exit
                } else {
                    reaction.flow
                },
                stop_offered: reaction.command is SendStop,
                resizes: match reaction.command {
                    Command::SendResize(size) => run.resizes.push(size),
                    _ => run.resizes,
                },
                joined: run.joined || reaction.command is JoinRender,
            }
        },
        Turn::Activate => Run { render: activated(run.render), ..run },
        Turn::Iterate => {
            let found = Found { stop_present: run.stop_offered, pending: run.resizes };
            Run {
                render: after_iteration(run.render, found),
                stop_offered: run.stop_offered && !takes_stop(run.render, found),
                resizes: if after_poll(run.render, found.stop_present).phase is Running {
                    Seq::empty()
                } else {
                    run.resizes
                },
                ..run
            }
        },
    }
}

/// What holds at every moment of every run.
///
/// The event loop is leaving exactly if it has handed out the stop signal. The render loop
/// is terminating exactly if the signal was handed out and taken. The render thread is
/// joined only after it has ended.
pub open spec fn consistent(run: Run) -> bool {
    &&& run.flow is Exit <==> run.dispatcher.stop_sent
    &&& run.stop_offered ==> run.dispatcher.stop_sent
    &&& run.render.phase is Terminating <==> run.dispatcher.stop_sent && !run.stop_offered
    &&& run.joined <==> !run.dispatcher.render_attached
    &&& run.joined ==> run.render.phase is Terminating
}

/// The run after the turns of `turns`, first to last.
pub open spec fn after_turns(run: Run, turns: Seq<Turn>) -> Run
    decreases turns.len(),
{
    if turns.len() == 0 {
        run
    } else {
        after_turn(after_turns(run, turns.drop_last()), turns.last())
    }
}

/// Whether each turn of `turns` can be taken when it comes.
pub open spec fn can_take_all(run: Run, turns: Seq<Turn>) -> bool
    decreases turns.len(),
{
    turns.len() > 0 ==> can_take_all(run, turns.drop_last()) && can_take(
        after_turns(run, turns.drop_last()),
        turns.last(),
    )
}

/// How many turns at most are left to a run that is shutting down before its render
/// thread is joined.
pub open spec fn turns_to_join(run: Run) -> nat {
    if run.joined {
        0
    } else {
        match run.render.phase {
            Phase::Activating => 3,
            Phase::Running => 2,
            Phase::Terminating => 1,
        }
    }
}

/// A run starts consistent.
pub proof fn lemma_start_is_consistent()
    ensures
        consistent(start()),
{
}

/// No turn breaks consistency.
pub proof fn lemma_turn_keeps_consistency(run: Run, turn: Turn)
    requires
        consistent(run),
        can_take(run, turn),
    ensures
        consistent(after_turn(run, turn)),
{
}

/// Whatever turns the two loops take, in whatever order, the run is consistent: the stop
/// signal is never lost and never taken twice, and the render thread is never joined
/// while it may still touch its context.
pub proof fn lemma_every_run_is_consistent(turns: Seq<Turn>)
    requires
        can_take_all(start(), turns),
    ensures
        consistent(after_turns(start(), turns)),
    decreases turns.len(),
{
    if turns.len() > 0 {
        lemma_every_run_is_consistent(turns.drop_last());
        lemma_turn_keeps_consistency(after_turns(start(), turns.drop_last()), turns.last());
    }
}

/// Sending a size never waits and never fails: it joins the sizes pending, behind those
/// sent before it, and nothing else changes.
pub proof fn lemma_resize_is_queued(run: Run, size: Size)
    requires
        consistent(run),
        can_take(run, Turn::Dispatch(Event::Resized(size))),
    ensures
        after_turn(run, Turn::Dispatch(Event::Resized(size))) == (Run {
            resizes: run.resizes.push(size),
            ..run
        }),
{
}

/// An iteration that finds no stop signal drains the resize channel: none of the sizes
/// sent so far is pending after it, and the surface has the newest of them, or the size it
/// had where none was sent.
pub proof fn lemma_iteration_drains_resizes(run: Run)
    requires
        consistent(run),
        can_take(run, Turn::Iterate),
        !run.stop_offered,
    ensures
        after_turn(run, Turn::Iterate).resizes.len() == 0,
        after_turn(run, Turn::Iterate).render.phase is Running,
        after_turn(run, Turn::Iterate).render.surface == match newest(run.resizes) {
            Some(size) => Some(size),
            None => run.render.surface,
        },
{
}

/// A stop signal that is held out is taken by the very next iteration of the render
/// loop, which is thereby terminating.
pub proof fn lemma_offered_stop_is_taken_next(run: Run)
    requires
        consistent(run),
        run.stop_offered,
        can_take(run, Turn::Iterate),
    ensures
        after_turn(run, Turn::Iterate).render.phase is Terminating,
        !after_turn(run, Turn::Iterate).stop_offered,
{
}

/// A run that is shutting down never hangs and never runs on: until the render thread is
/// joined some turn can be taken, and every turn that can be taken brings the join
/// nearer. At most three turns are left: the end of activation, the iteration that takes
/// the stop signal, and the join.
pub proof fn lemma_shutdown_completes(run: Run)
    requires
        consistent(run),
        run.dispatcher.stop_sent,
        !run.joined,
    ensures
        exists|turn: Turn| can_take(run, turn),
        forall|turn: Turn| #[trigger]
            can_take(run, turn) ==> turns_to_join(after_turn(run, turn)) < turns_to_join(run),
        turns_to_join(run) <= 3,
{
    match run.render.phase {
        Phase::Activating => {
            assert(can_take(run, Turn::Activate));
        },
        Phase::Running => {
            assert(can_take(run, Turn::Iterate));
        },
        Phase::Terminating => {
            assert(can_take(run, Turn::Dispatch(Event::LoopDestroyed)));
        },
    }
    assert forall|turn: Turn| #[trigger] can_take(run, turn) implies turns_to_join(
        after_turn(run, turn),
    ) < turns_to_join(run) by {
        match turn {
            Turn::Dispatch(event) => {
                assert(event is LoopDestroyed);
            },
            Turn::Activate => {},
            Turn::Iterate => {
                assert(run.stop_offered);
            },
        }
    }
}

/// A run that is not shutting down never hangs either: the event loop can take its next
/// event.
pub proof fn lemma_running_never_hangs(run: Run)
    requires
        consistent(run),
        !run.dispatcher.stop_sent,
    ensures
        can_take(run, Turn::Dispatch(Event::Other)),
        can_take(run, Turn::Dispatch(Event::CloseRequested)),
{
}

} // verus!
