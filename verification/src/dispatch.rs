//! The event loop's decisions: what each window event asks of the render thread.
//!
//! The loop itself, with the channels it sends on and the thread it joins, runs outside;
//! it hands each event in and carries out the command that comes back.

use crate::fault::Fault;
use crate::signal::Size;
use vstd::prelude::*;

verus! {

/// An event of the window system, as far as the dispatcher tells events apart.
#[derive(Clone, Copy, Debug, PartialEq, Eq, Structural)]
pub enum Event {
    /// The window has a new size, in physical pixels.
    Resized(Size),
    /// The user asked to close the window.
    CloseRequested,
    /// A button of some input device changed; the number names the button.
    Button(u32),
    /// A key changed; the number is its scan code.
    Key(u32),
    /// The event loop is being torn down: the last event of a run.
    LoopDestroyed,
    /// Any other event.
    Other,
}

/// What the event loop does once the current event is handled.
#[derive(Clone, Copy, Debug, PartialEq, Eq, Structural)]
pub enum Flow {
    /// Sleep until the next event.
    Wait,
    /// Leave the loop.
    Exit,
}

/// What the event loop carries out for one event.
#[derive(Clone, Copy, Debug, PartialEq, Eq, Structural)]
pub enum Command {
    /// Nothing.
    Idle,
    /// Put the size on the resize channel, without waiting.
    SendResize(Size),
    /// Hand the stop signal to the render thread, waiting until it is taken.
    SendStop,
    /// Report the button; nothing else comes of it.
    ReportButton(u32),
    /// Report the key; nothing else comes of it.
    ReportKey(u32),
    /// Wait for the render thread to end.
    JoinRender,
}

/// The answer to one event.
#[derive(Clone, Copy, Debug, PartialEq, Eq, Structural)]
pub struct Reaction {
    pub flow: Flow,
    pub command: Command,
}

/// The dispatcher as plain values.
pub struct DispatcherModel {
    /// Whether the stop signal was handed out.
    pub stop_sent: bool,
    /// Whether the render thread is still to be joined.
    pub render_attached: bool,
}

/// The dispatcher's state.
#[derive(Debug)]
pub struct Dispatcher {
    stop_sent: bool,
    render_attached: bool,
}

/// The dispatcher of a run that has just begun.
pub open spec fn fresh() -> DispatcherModel {
    DispatcherModel { stop_sent: false, render_attached: true }
}

/// The answer to `event` in the state `before`.
pub open spec fn reaction_to(before: DispatcherModel, event: Event) -> Reaction {
    match event {
        Event::Resized(size) => Reaction { flow: Flow::Wait, command: Command::SendResize(size) },
        Event::CloseRequested => Reaction {
            flow: Flow::Exit,
            command: if before.stop_sent {
                Command::Idle
            } else {
                Command::SendStop
            },
        },
        Event::Button(button) => Reaction {
            flow: Flow::Wait,
            command: Command::ReportButton(button),
        },
        Event::Key(code) => Reaction { flow: Flow::Wait, command: Command::ReportKey(code) },
        Event::LoopDestroyed => Reaction { flow: Flow::Wait, command: Command::JoinRender },
        Event::Other => Reaction { flow: Flow::Wait, command: Command::Idle },
    }
}

/// The state that follows `before` on `event`.
pub open spec fn after_event(before: DispatcherModel, event: Event) -> DispatcherModel {
    match event {
        Event::CloseRequested => DispatcherModel {
            stop_sent: true,
            render_attached: before.render_attached,
        },
        Event::LoopDestroyed => DispatcherModel {
            stop_sent: before.stop_sent,
            render_attached: false,
        },
        _ => before,
    }
}

/// The failure to end the run on where `command` could not be carried out.
pub open spec fn failure_of(command: Command) -> Option<Fault> {
    match command {
        Command::SendStop => Some(Fault::StopSend),
        Command::JoinRender => Some(Fault::RenderJoin),
        _ => None,
    }
}

impl View for Dispatcher {
    type V = DispatcherModel;

    closed spec fn view(&self) -> DispatcherModel {
        DispatcherModel { stop_sent: self.stop_sent, render_attached: self.render_attached }
    }
}

impl Dispatcher {
    /// The dispatcher of a run that has just begun: its render thread was started, and no
    /// stop signal was handed out.
    pub fn new() -> (dispatcher: Dispatcher)
        ensures
            dispatcher@ == fresh(),
    {
        Dispatcher { stop_sent: false, render_attached: true }
    }

    /// Whether the stop signal was handed out.
    pub fn stop_sent(&self) -> (sent: bool)
        ensures
            sent == self@.stop_sent,
    {
        self.stop_sent
    }

    /// Whether the render thread is still to be joined. The run may end only once it is
    /// not.
    pub fn render_attached(&self) -> (attached: bool)
        ensures
            attached == self@.render_attached,
    {
        self.render_attached
    }

    /// Answers one event.
    ///
    /// A new size goes to the resize channel. A request to close hands out the stop
    /// signal, once in a run, and leaves the loop. Buttons and keys are reported and
    /// change nothing. The end of the loop joins the render thread. Everything else is
    /// passed over. But for a request to close, the loop waits for the next event.
    ///
    /// The end of the loop comes once: there is a render thread to join when it does.
    pub fn handle(&mut self, event: Event) -> (reaction: Reaction)
        requires
            event is LoopDestroyed ==> old(self)@.render_attached,
        ensures
            reaction == reaction_to(old(self)@, event),
            final(self)@ == after_event(old(self)@, event),
    {
        match event {
            Event::Resized(size) => Reaction {
                flow: Flow::Wait,
                command: Command::SendResize(size),
            },
            Event::CloseRequested => {
                let command = if self.stop_sent {
                    Command::Idle
                } else {
                    Command::SendStop
                };
                self.stop_sent = true;
                Reaction { flow: Flow::Exit, command }
            },
            Event::Button(button) => Reaction {
                flow: Flow::Wait,
                command: Command::ReportButton(button),
            },
            Event::Key(code) => Reaction { flow: Flow::Wait, command: Command::ReportKey(code) },
            Event::LoopDestroyed => {
                self.render_attached = false;
                Reaction { flow: Flow::Wait, command: Command::JoinRender }
            },
            Event::Other => Reaction { flow: Flow::Wait, command: Command::Idle },
        }
    }

    /// Judges a command that could not be carried out. A stop signal that nobody took and
    /// a render thread that did not end well are failures to end the run on. A resize that
    /// nobody took is expected while the run shuts down, and is passed over.
    pub fn settle(command: Command, done: bool) -> (failure: Option<Fault>)
        ensures
            failure == if done {
                None
            } else {
                failure_of(command)
            },
            failure is Some ==> failure->Some_0.is_fatal(),
    {
        if done {
            None
        } else {
            match command {
                Command::SendStop => Some(Fault::StopSend),
                Command::JoinRender => Some(Fault::RenderJoin),
                _ => None,
            }
        }
    }
}

/// The state after the events of `events`, first to last.
pub open spec fn after_events(before: DispatcherModel, events: Seq<Event>) -> DispatcherModel
    decreases events.len(),
{
    if events.len() == 0 {
        before
    } else {
        after_event(after_events(before, events.drop_last()), events.last())
    }
}

/// How many of the events of `events` are answered with the stop signal.
pub open spec fn stops_sent(before: DispatcherModel, events: Seq<Event>) -> nat
    decreases events.len(),
{
    if events.len() == 0 {
        0
    } else {
        let earlier = stops_sent(before, events.drop_last());
        let state = after_events(before, events.drop_last());
        if reaction_to(state, events.last()).command is SendStop {
            earlier + 1
        } else {
            earlier
        }
    }
}

/// Resizes, input and events of no interest leave the dispatcher as it was, and the
/// event loop waiting.
pub proof fn lemma_passing_events_change_nothing(before: DispatcherModel, event: Event)
    requires
        !(event is CloseRequested),
        !(event is LoopDestroyed),
    ensures
        after_event(before, event) == before,
        reaction_to(before, event).flow is Wait,
        failure_of(reaction_to(before, event).command) is None,
{
}

/// A request to close always makes the event loop leave, and hands out the stop signal
/// unless it was handed out before.
pub proof fn lemma_close_request_leaves(before: DispatcherModel)
    ensures
        reaction_to(before, Event::CloseRequested).flow is Exit,
        reaction_to(before, Event::CloseRequested).command is SendStop <==> !before.stop_sent,
        after_event(before, Event::CloseRequested).stop_sent,
{
}

/// Whether the stop signal was handed out is remembered through every event.
pub proof fn lemma_stop_stays_sent(before: DispatcherModel, events: Seq<Event>)
    requires
        before.stop_sent,
    ensures
        after_events(before, events).stop_sent,
        stops_sent(before, events) == 0,
    decreases events.len(),
{
    if events.len() > 0 {
        lemma_stop_stays_sent(before, events.drop_last());
    }
}

/// Whether a request to close is among `events`.
pub open spec fn asks_to_close(events: Seq<Event>) -> bool {
    exists|i: int| 0 <= i < events.len() && #[trigger] events[i] is CloseRequested
}

/// Whatever events come, in whatever order, the stop signal is handed out at most once in
/// a run: once if a request to close is among them, and not at all if none is.
pub proof fn lemma_stop_is_sent_at_most_once(events: Seq<Event>)
    ensures
        asks_to_close(events) ==> stops_sent(fresh(), events) == 1,
        !asks_to_close(events) ==> stops_sent(fresh(), events) == 0,
        after_events(fresh(), events).stop_sent <==> asks_to_close(events),
    decreases events.len(),
{
    if events.len() > 0 {
        let early = events.drop_last();
        lemma_stop_is_sent_at_most_once(early);
        if asks_to_close(early) {
            let i = choose|i: int| 0 <= i < early.len() && #[trigger] early[i] is CloseRequested;
            assert(events[i] is CloseRequested);
        } else if events.last() is CloseRequested {
            assert(events[events.len() - 1] is CloseRequested);
        } else {
            assert forall|i: int| 0 <= i < events.len() implies !(#[trigger] events[i]
                is CloseRequested) by {
                if i < early.len() {
                    assert(early[i] == events[i]);
                }
            }
        }
    }
}

/// The render thread stays attached until the end of the loop is handled, and is
/// detached from then on: the run is over only after the join.
pub proof fn lemma_join_comes_with_the_end_of_the_loop(
    before: DispatcherModel,
    events: Seq<Event>,
)
    requires
        before.render_attached,
    ensures
        after_events(before, events).render_attached <==> forall|i: int|
            0 <= i < events.len() ==> !(#[trigger] events[i] is LoopDestroyed),
    decreases events.len(),
{
    if events.len() > 0 {
        let early = events.drop_last();
        lemma_join_comes_with_the_end_of_the_loop(before, early);
        if forall|i: int| 0 <= i < early.len() ==> !(#[trigger] early[i] is LoopDestroyed) {
            if !(events.last() is LoopDestroyed) {
                assert forall|i: int| 0 <= i < events.len() implies !(#[trigger] events[i]
                    is LoopDestroyed) by {
                    if i < early.len() {
                        assert(early[i] == events[i]);
                    }
                }
            } else {
                assert(events[events.len() - 1] is LoopDestroyed);
            }
        } else {
            let i = choose|i: int| 0 <= i < early.len() && #[trigger] early[i] is LoopDestroyed;
            assert(events[i] is LoopDestroyed);
            lemma_detached_stays_detached(after_events(before, early), events.last());
        }
    }
}

/// A render thread that was joined is not attached again.
pub proof fn lemma_detached_stays_detached(before: DispatcherModel, event: Event)
    requires
        !before.render_attached,
    ensures
        !after_event(before, event).render_attached,
{
}

} // verus!
