//! The render loop's decisions: when it starts, what each frame does, when it ends.
//!
//! The loop itself, with the context it draws on and the channels it polls, runs
//! outside; it reports what it found and is told here what to do with it.

use crate::fault::Fault;
use crate::signal::{newest, latest, Size};
use vstd::prelude::*;
use vstd::string::StringExecFns;
use vstd::utf8::{decode_utf8, valid_utf8};

verus! {

/// Where the render loop stands.
#[derive(Clone, Copy, Debug, PartialEq, Eq, Structural)]
pub enum Phase {
    /// The context is not current yet.
    Activating,
    /// Frames are drawn and presented.
    Running,
    /// The stop signal was taken; nothing more is drawn.
    Terminating,
}

/// The rectangle that is drawn into, as the graphics interface takes it.
#[derive(Clone, Copy, Debug, PartialEq, Eq, Structural)]
pub struct Viewport {
    pub x: i32,
    pub y: i32,
    pub width: i32,
    pub height: i32,
}

/// One change of size: the surface's new size and the viewport that goes with it.
#[derive(Clone, Copy, Debug, PartialEq, Eq, Structural)]
pub struct Resize {
    pub surface: Size,
    pub viewport: Viewport,
}

/// What one iteration of the loop does.
#[derive(Clone, Copy, Debug, PartialEq, Eq, Structural)]
pub struct Frame {
    /// The change of size to apply before presenting, if any.
    pub resize: Option<Resize>,
    /// Whether a frame is presented.
    pub present: bool,
}

/// The render loop as plain values.
pub struct RenderModel {
    pub phase: Phase,
    /// The size last applied to the surface; none before the first resize.
    pub surface: Option<Size>,
}

/// The render loop's state.
#[derive(Debug)]
pub struct RenderLoop {
    phase: Phase,
    surface: Option<Size>,
}

/// A pixel count as the signed number of the same 32 bits.
pub open spec fn signed(extent: u32) -> i32 {
    if extent <= i32::MAX {
        extent as i32
    } else {
        (extent - 0x1_0000_0000) as i32
    }
}

/// The viewport that covers a surface of the given size.
pub open spec fn viewport_of(size: Size) -> Viewport {
    Viewport { x: 0, y: 0, width: signed(size.width), height: signed(size.height) }
}

/// The change of size that a drain of the resize channel calls for.
pub open spec fn resize_of(pending: Seq<Size>) -> Option<Resize> {
    match newest(pending) {
        Some(size) => Some(Resize { surface: size, viewport: viewport_of(size) }),
        None => None,
    }
}

/// The line that reports the driver's version.
pub open spec fn version_line(version: Seq<char>) -> Seq<char> {
    "OpenGL version "@ + version
}

/// The loop once its context is current and its version is known.
pub open spec fn activated(before: RenderModel) -> RenderModel {
    RenderModel { phase: Phase::Running, surface: before.surface }
}

/// The loop after it looked for a stop signal.
pub open spec fn after_poll(before: RenderModel, stop_present: bool) -> RenderModel {
    if before.phase is Running && stop_present {
        RenderModel { phase: Phase::Terminating, surface: before.surface }
    } else {
        before
    }
}

/// The loop after one frame that found `pending` in the resize channel, oldest first.
pub open spec fn after_frame(before: RenderModel, pending: Seq<Size>) -> RenderModel {
    if before.phase is Running && pending.len() > 0 {
        RenderModel { phase: Phase::Running, surface: Some(pending.last()) }
    } else {
        before
    }
}

/// What one frame does that found `pending` in the resize channel, oldest first.
pub open spec fn frame_of(before: RenderModel, pending: Seq<Size>) -> Frame {
    if before.phase is Running {
        Frame { resize: resize_of(pending), present: true }
    } else {
        Frame { resize: None, present: false }
    }
}

/// Calls `String::from_utf8`. Trusted: it succeeds on exactly the byte strings that are
/// well-formed UTF-8, and then gives the text that they encode.
#[verifier::external_body]
fn text_of(bytes: Vec<u8>) -> (text: Option<String>)
    ensures
        text is Some <==> valid_utf8(bytes@),
        text is Some ==> text->Some_0@ == decode_utf8(bytes@),
{
    match String::from_utf8(bytes) {
        Ok(text) => Some(text),
        Err(_) => None,
    }
}

/// The viewport that covers a surface of the given size, with its origin in the corner.
pub fn viewport(size: Size) -> (port: Viewport)
    ensures
        port == viewport_of(size),
{
    Viewport { x: 0, y: 0, width: to_signed(size.width), height: to_signed(size.height) }
}

/// A pixel count as the graphics interface takes it.
fn to_signed(extent: u32) -> (number: i32)
    ensures
        number == signed(extent),
{
    assert(extent as i32 == signed(extent)) by (bit_vector);
    #[verifier::truncate]
    (extent as i32)
}

impl View for RenderLoop {
    type V = RenderModel;

    closed spec fn view(&self) -> RenderModel {
        RenderModel { phase: self.phase, surface: self.surface }
    }
}

impl RenderLoop {
    /// A loop that has yet to make its context current.
    pub fn new() -> (render: RenderLoop)
        ensures
            render@ == (RenderModel { phase: Phase::Activating, surface: None }),
    {
        RenderLoop { phase: Phase::Activating, surface: None }
    }

    /// Where the loop stands.
    pub fn phase(&self) -> (phase: Phase)
        ensures
            phase == self@.phase,
    {
        self.phase
    }

    /// The size last applied to the surface.
    pub fn surface(&self) -> (surface: Option<Size>)
        ensures
            surface == self@.surface,
    {
        self.surface
    }

    /// Ends activation: takes the version string that the driver reported, once the
    /// context is current and its functions are loaded. Where the bytes are UTF-8 the loop
    /// is running from now on, and the line to report is returned. Where they are not,
    /// the loop stays as it was and the failure is `VersionDecoding`.
    pub fn activate(&mut self, version: Vec<u8>) -> (line: Result<String, Fault>)
        requires
            old(self)@.phase is Activating,
        ensures
            match line {
                Ok(text) => {
                    &&& valid_utf8(version@)
                    &&& text@ == version_line(decode_utf8(version@))
                    &&& final(self)@ == activated(old(self)@)
                },
                Err(fault) => {
                    &&& !valid_utf8(version@)
                    &&& fault == Fault::VersionDecoding
                    &&& final(self)@ == old(self)@
                },
            },
    {
        match text_of(version) {
            Some(text) => {
                self.phase = Phase::Running;
                Ok("OpenGL version ".to_owned().concat(text.as_str()))
            },
            None => Err(Fault::VersionDecoding),
        }
    }

    /// Starts an iteration with the outcome of one look at the stop channel. A running
    /// loop that found the signal is terminating from now on. Returns whether the
    /// iteration goes on to its frame, which is so in a running loop alone.
    pub fn poll_stop(&mut self, stop_present: bool) -> (go_on: bool)
        ensures
            final(self)@ == after_poll(old(self)@, stop_present),
            go_on == (final(self)@.phase is Running),
    {
        match self.phase {
            Phase::Running => {
                if stop_present {
                    self.phase = Phase::Terminating;
                    false
                } else {
                    true
                }
            },
            _ => false,
        }
    }

    /// Decides one frame from what a drain of the resize channel found, oldest first. A
    /// running loop applies the newest of the pending sizes, and no other, to surface and
    /// viewport alike, and then presents. A loop that is not running does nothing.
    pub fn begin_frame(&mut self, pending: &Vec<Size>) -> (frame: Frame)
        ensures
            frame == frame_of(old(self)@, pending@),
            final(self)@ == after_frame(old(self)@, pending@),
    {
        match self.phase {
            Phase::Running => {
                match latest(pending) {
                    Some(size) => {
                        self.surface = Some(size);
                        Frame {
                            resize: Some(Resize { surface: size, viewport: viewport(size) }),
                            present: true,
                        }
                    },
                    None => Frame { resize: None, present: true },
                }
            },
            _ => Frame { resize: None, present: false },
        }
    }

    /// Ends a frame with the outcome of presenting it: a frame that could not be
    /// presented is a failure, and is not tried again.
    pub fn end_frame(presented: bool) -> (failure: Option<Fault>)
        ensures
            failure == if presented {
                None
            } else {
                Some(Fault::Presentation)
            },
    {
        if presented {
            None
        } else {
            Some(Fault::Presentation)
        }
    }
}

/// What one iteration of the loop finds on its two channels.
pub struct Found {
    /// Whether the stop signal is there to take.
    pub stop_present: bool,
    /// The sizes pending in the resize channel, oldest first.
    pub pending: Seq<Size>,
}

/// Whether an iteration that starts in `before` takes the stop signal.
pub open spec fn takes_stop(before: RenderModel, found: Found) -> bool {
    before.phase is Running && found.stop_present
}

/// The loop after one iteration: the look at the stop channel, then the frame.
pub open spec fn after_iteration(before: RenderModel, found: Found) -> RenderModel {
    after_frame(after_poll(before, found.stop_present), found.pending)
}

/// The loop after the iterations of `run`, first to last.
pub open spec fn after_run(before: RenderModel, run: Seq<Found>) -> RenderModel
    decreases run.len(),
{
    if run.len() == 0 {
        before
    } else {
        after_iteration(after_run(before, run.drop_last()), run.last())
    }
}

/// How many iterations of `run` take the stop signal.
pub open spec fn stops_taken(before: RenderModel, run: Seq<Found>) -> nat
    decreases run.len(),
{
    if run.len() == 0 {
        0
    } else {
        let earlier = stops_taken(before, run.drop_last());
        if takes_stop(after_run(before, run.drop_last()), run.last()) {
            earlier + 1
        } else {
            earlier
        }
    }
}

/// The line that reports the driver's version is never empty, whatever the driver says.
pub proof fn lemma_version_line_is_not_empty(version: Seq<char>)
    ensures
        version_line(version).len() >= 15,
{
    reveal_strlit("OpenGL version ");
}

/// However many sizes were sent before one frame drains them, the frame of a running
/// loop applies the last one sent, to surface and viewport alike, and no other.
pub proof fn lemma_frame_applies_last_sent(before: RenderModel, pending: Seq<Size>)
    requires
        before.phase is Running,
        pending.len() > 0,
    ensures
        frame_of(before, pending).resize == Some(
            Resize { surface: pending.last(), viewport: viewport_of(pending.last()) },
        ),
        frame_of(before, pending).present,
        after_frame(before, pending).surface == Some(pending.last()),
        after_frame(before, pending).phase is Running,
{
}

/// A frame that finds nothing pending applies no size and leaves the loop as it was.
pub proof fn lemma_frame_without_resize(before: RenderModel)
    ensures
        frame_of(before, Seq::<Size>::empty()).resize is None,
        after_frame(before, Seq::<Size>::empty()) == before,
{
}

/// Sizes sent earlier never win over sizes sent later: a drain of `earlier` followed by
/// `later` keeps what a drain of `later` keeps, unless `later` is empty.
pub proof fn lemma_newest_of_two_batches(earlier: Seq<Size>, later: Seq<Size>)
    ensures
        newest(earlier + later) == if later.len() > 0 {
            newest(later)
        } else {
            newest(earlier)
        },
{
    if later.len() == 0 {
        assert(earlier + later =~= earlier);
    }
}

/// Applying a size that is already applied changes nothing of the loop's state.
pub proof fn lemma_repeated_resize_changes_nothing(before: RenderModel, pending: Seq<Size>)
    requires
        pending.len() > 0,
    ensures
        after_frame(after_frame(before, pending), pending) == after_frame(before, pending),
        before.surface == Some(pending.last()) ==> after_frame(before, pending) == before,
{
}

/// A loop that is terminating stays so, whatever it is told, and does no more work.
pub proof fn lemma_terminating_is_final(before: RenderModel, found: Found)
    requires
        before.phase is Terminating,
    ensures
        after_poll(before, found.stop_present) == before,
        after_frame(before, found.pending) == before,
        after_iteration(before, found) == before,
        !takes_stop(before, found),
        frame_of(before, found.pending) == (Frame { resize: None, present: false }),
{
}

/// A running loop keeps running through every iteration that finds no stop signal.
pub proof fn lemma_runs_until_stopped(before: RenderModel, run: Seq<Found>)
    requires
        before.phase is Running,
        forall|i: int| 0 <= i < run.len() ==> !(#[trigger] run[i]).stop_present,
    ensures
        after_run(before, run).phase is Running,
        stops_taken(before, run) == 0,
    decreases run.len(),
{
    if run.len() > 0 {
        lemma_runs_until_stopped(before, run.drop_last());
    }
}

/// A running loop is terminating right after the first iteration that finds the stop
/// signal: no later than the iteration that follows the sending.
pub proof fn lemma_stop_ends_the_run(before: RenderModel, run: Seq<Found>)
    requires
        before.phase is Running,
        run.len() > 0,
        run.last().stop_present,
        forall|i: int| 0 <= i < run.len() - 1 ==> !(#[trigger] run[i]).stop_present,
    ensures
        after_run(before, run).phase is Terminating,
        stops_taken(before, run) == 1,
{
    lemma_runs_until_stopped(before, run.drop_last());
}

/// Once a loop is terminating, no run of iterations brings it back or takes another
/// stop signal.
pub proof fn lemma_stopped_stays_stopped(before: RenderModel, run: Seq<Found>)
    requires
        before.phase is Terminating,
    ensures
        after_run(before, run) == before,
        stops_taken(before, run) == 0,
    decreases run.len(),
{
    if run.len() > 0 {
        lemma_stopped_stays_stopped(before, run.drop_last());
    }
}

/// A running loop takes the stop signal exactly once in any run in which some iteration
/// finds it, however the signal and the resizes fall, and is terminating at the end of the
/// run. In a run in which no iteration finds it, the loop takes none and is still running.
pub proof fn lemma_stop_is_taken_exactly_once(before: RenderModel, run: Seq<Found>)
    requires
        before.phase is Running,
    ensures
        (exists|i: int| 0 <= i < run.len() && (#[trigger] run[i]).stop_present) ==> stops_taken(
            before,
            run,
        ) == 1 && after_run(before, run).phase is Terminating,
        (forall|i: int| 0 <= i < run.len() ==> !(#[trigger] run[i]).stop_present)
            ==> stops_taken(before, run) == 0 && after_run(before, run).phase is Running,
    decreases run.len(),
{
    if run.len() == 0 {
    } else if forall|i: int| 0 <= i < run.len() ==> !(#[trigger] run[i]).stop_present {
        lemma_runs_until_stopped(before, run);
    } else {
        let early = run.drop_last();
        lemma_stop_is_taken_exactly_once(before, early);
        if forall|i: int| 0 <= i < early.len() ==> !(#[trigger] early[i]).stop_present {
            assert(run.last().stop_present) by {
                let i = choose|i: int| 0 <= i < run.len() && (#[trigger] run[i]).stop_present;
                if i < early.len() {
                    assert(early[i].stop_present);
                }
            }
        } else {
            let i = choose|i: int| 0 <= i < early.len() && (#[trigger] early[i]).stop_present;
            assert(early[i].stop_present);
        }
    }
}

} // verus!
