//! The frame lifecycle: when the swapchain is rebuilt, when a frame is
//! rendered, and which completion token the next frame waits on.
//!
//! The scheduler makes the decisions and owns the state; the work itself
//! (rebuilding, acquiring, recording, submitting, presenting) is done by
//! whoever drives it. The driver hands the scheduler a [`FrameEvent`], gets a
//! [`FrameAction`] back, performs it, and reports the outcome as the next
//! event. A redraw cycle starts with [`FrameEvent::Redraw`] and ends with
//! [`FrameAction::RequestRedraw`], [`FrameAction::Wait`] or
//! [`FrameAction::Fatal`].

use vstd::prelude::*;
use crate::event::{InputEvent, WindowMetrics};
use crate::translate::{translation, IoCall};

verus! {

/// What a windowing event means to the frame loop, apart from what it says
/// to the input state.
#[derive(Clone, Copy, Debug, PartialEq, Eq)]
pub enum LoopSignal {
    /// The window is to close: stop the loop.
    Shutdown,
    /// The window changed size: tell the scheduler.
    Resized,
    /// A frame is due: run a redraw cycle.
    Redraw,
}

/// The signal an event carries for the frame loop, if any.
pub open spec fn signal_of(event: InputEvent) -> Option<LoopSignal> {
    match event {
        InputEvent::Close => Some(LoopSignal::Shutdown),
        InputEvent::Resize => Some(LoopSignal::Resized),
        InputEvent::RedrawRequested => Some(LoopSignal::Redraw),
        _ => None,
    }
}

impl InputEvent {
    /// The signal this event carries for the frame loop, if any.
    pub fn loop_signal(&self) -> (signal: Option<LoopSignal>)
        ensures
            signal == signal_of(*self),
    {
        match self {
            InputEvent::Close => Some(LoopSignal::Shutdown),
            InputEvent::Resize => Some(LoopSignal::Resized),
            InputEvent::RedrawRequested => Some(LoopSignal::Redraw),
            _ => None,
        }
    }
}

/// Closing and redrawing concern the frame loop alone: an event that
/// carries either signal says nothing to the input state. A resize concerns
/// both.
pub proof fn loop_signals_bypass_the_input_state(window: WindowMetrics, event: InputEvent)
    ensures
        signal_of(event) == Some(LoopSignal::Shutdown) || signal_of(event) == Some(
            LoopSignal::Redraw,
        ) ==> translation(window, event) == Seq::<IoCall>::empty(),
        signal_of(event) == Some(LoopSignal::Resized) ==> translation(window, event)
            == translation(window, InputEvent::Resize) && translation(window, event).len() == 1,
{
}

/// What the scheduler knows of the presentable images.
#[derive(Clone, Copy, Debug, PartialEq, Eq)]
pub struct SwapchainState {
    /// Number of images in the current swapchain.
    pub image_count: u32,
    /// Number of framebuffers built for those images.
    pub framebuffer_count: u32,
    /// Viewport extent: the physical size the current swapchain was built for.
    pub extent: (u32, u32),
    /// Whether the swapchain must be rebuilt before the next frame.
    pub needs_recreate: bool,
}

/// Where a redraw cycle stands.
#[derive(Clone, Copy, Debug, PartialEq, Eq)]
pub enum Phase {
    /// Between cycles.
    Idle,
    /// A rebuild for the given extent was asked for and has not reported yet.
    Rebuilding { extent: (u32, u32) },
    /// An image was asked for and has not arrived yet.
    Acquiring,
    /// A frame was handed out for submission and has not reported yet.
    Submitting,
    /// A fatal error occurred; the scheduler accepts nothing more.
    Failed,
}

/// A failure that ends the frame loop.
#[derive(Clone, Copy, Debug, PartialEq, Eq)]
pub enum FatalError {
    /// The swapchain could not be rebuilt, for a reason other than staleness.
    RebuildFailed,
    /// A rebuild did not yield one framebuffer per image.
    FramebufferMismatch,
    /// No image could be acquired, for a reason other than staleness.
    AcquireFailed,
    /// The acquired image has no framebuffer.
    ImageOutOfRange,
    /// Submission or presentation failed, for a reason other than staleness.
    SubmitFailed,
    /// The event does not answer the action that was last handed out.
    UnexpectedEvent,
    /// An event arrived after a fatal error.
    AlreadyFailed,
}

/// The completion of the most recently submitted frame.
#[derive(Debug, PartialEq, Eq)]
pub enum FrameCompletionToken<T> {
    /// Nothing is in flight: a wait on this token returns at once.
    Completed,
    /// The presentation engine's handle for the frame in flight.
    InFlight(T),
}

/// What the driver reports to the scheduler.
#[derive(Debug, PartialEq, Eq)]
pub enum FrameEvent<T> {
    /// The window changed size.
    Resized,
    /// A redraw is due; `physical_size` is the window's size at this moment.
    Redraw { physical_size: (u32, u32) },
    /// The rebuild succeeded, with this many images and framebuffers.
    Rebuilt { image_count: u32, framebuffer_count: u32 },
    /// The rebuild found the surface changed again.
    RebuildStale,
    /// The rebuild failed for another reason.
    RebuildFailed,
    /// An image was acquired; `suboptimal` tells that the swapchain still
    /// presents but no longer matches the surface.
    Acquired { image_index: u32, suboptimal: bool },
    /// The swapchain was out of date when an image was asked for.
    AcquireStale,
    /// Acquiring failed for another reason.
    AcquireFailed,
    /// The frame was submitted and presented; `token` completes with it.
    Submitted { token: T },
    /// The swapchain was out of date when the frame was presented.
    SubmitStale,
    /// Submission or presentation failed for another reason.
    SubmitFailed,
}

/// What the scheduler asks the driver to do next.
#[derive(Debug, PartialEq, Eq)]
pub enum FrameAction<T> {
    /// Nothing: the cycle is over and no redraw is asked for.
    Wait,
    /// Rebuild the swapchain for `extent`, with one framebuffer per image.
    Rebuild { extent: (u32, u32) },
    /// Acquire the next presentable image.
    Acquire,
    /// Render into framebuffer `framebuffer` with a viewport of `viewport`,
    /// submit after `wait_on` and the acquisition, then present.
    Render { framebuffer: u32, viewport: (u32, u32), wait_on: FrameCompletionToken<T> },
    /// The cycle is over: ask the windowing system for the next redraw.
    RequestRedraw,
    /// Stop: the error cannot be recovered from.
    Fatal(FatalError),
}

/// The scheduler's state, as the contracts see it.
pub struct FrameState<T> {
    pub swapchain: SwapchainState,
    pub phase: Phase,
    /// The live completion token; `None` only while a frame is out for
    /// submission and the token has gone with it.
    pub token: Option<FrameCompletionToken<T>>,
}

impl SwapchainState {
    /// Every image has exactly one framebuffer.
    pub open spec fn wf(self) -> bool {
        self.framebuffer_count == self.image_count
    }

    /// The same swapchain, flagged for recreation if `stale`.
    pub open spec fn flagged(self, stale: bool) -> SwapchainState {
        SwapchainState { needs_recreate: self.needs_recreate || stale, ..self }
    }
}

impl<T> FrameAction<T> {
    /// The number of completion tokens that travel with this action.
    pub open spec fn live_tokens(self) -> nat {
        if self is Render {
            1
        } else {
            0
        }
    }
}

impl<T> FrameState<T> {
    /// The state of a scheduler that was just made for a swapchain of
    /// `image_count` images built for `extent`.
    pub open spec fn initial(image_count: u32, extent: (u32, u32)) -> FrameState<T> {
        FrameState {
            swapchain: SwapchainState {
                image_count,
                framebuffer_count: image_count,
                extent,
                needs_recreate: false,
            },
            phase: Phase::Idle,
            token: Some(FrameCompletionToken::Completed),
        }
    }

    /// Every image has a framebuffer, and the scheduler holds a token exactly
    /// when none is out for submission.
    pub open spec fn wf(self) -> bool {
        &&& self.swapchain.wf()
        &&& self.phase is Submitting ==> self.token is None
        &&& (self.phase is Idle || self.phase is Rebuilding || self.phase is Acquiring)
            ==> self.token is Some
    }

    /// The number of completion tokens the scheduler holds.
    pub open spec fn live_tokens(self) -> nat {
        if self.token is Some {
            1
        } else {
            0
        }
    }

    /// The number of completion tokens that are out with the driver.
    pub open spec fn tokens_out(self) -> nat {
        if self.phase is Submitting {
            1
        } else {
            0
        }
    }

    /// The state after a fatal error, and the action that reports it.
    pub open spec fn fail(self, error: FatalError) -> (FrameState<T>, FrameAction<T>) {
        (FrameState { phase: Phase::Failed, ..self }, FrameAction::Fatal(error))
    }

    /// The step taken between cycles.
    pub open spec fn next_idle(self, event: FrameEvent<T>) -> (FrameState<T>, FrameAction<T>) {
        match event {
            FrameEvent::Redraw { physical_size } => if self.swapchain.needs_recreate {
                (
                    FrameState { phase: Phase::Rebuilding { extent: physical_size }, ..self },
                    FrameAction::Rebuild { extent: physical_size },
                )
            } else {
                (FrameState { phase: Phase::Acquiring, ..self }, FrameAction::Acquire)
            },
            _ => self.fail(FatalError::UnexpectedEvent),
        }
    }

    /// The step taken when a rebuild for `extent` reports.
    pub open spec fn next_rebuilding(self, extent: (u32, u32), event: FrameEvent<T>) -> (
        FrameState<T>,
        FrameAction<T>,
    ) {
        match event {
            FrameEvent::Rebuilt { image_count, framebuffer_count } => if framebuffer_count
                == image_count {
                (
                    FrameState {
                        swapchain: SwapchainState {
                            image_count,
                            framebuffer_count,
                            extent,
                            needs_recreate: false,
                        },
                        phase: Phase::Acquiring,
                        ..self
                    },
                    FrameAction::Acquire,
                )
            } else {
                self.fail(FatalError::FramebufferMismatch)
            },
            FrameEvent::RebuildStale => (
                FrameState { swapchain: self.swapchain.flagged(true), phase: Phase::Idle, ..self },
                FrameAction::Wait,
            ),
            FrameEvent::RebuildFailed => self.fail(FatalError::RebuildFailed),
            _ => self.fail(FatalError::UnexpectedEvent),
        }
    }

    /// The step taken when an acquisition reports.
    pub open spec fn next_acquiring(self, event: FrameEvent<T>) -> (FrameState<T>, FrameAction<T>) {
        match event {
            FrameEvent::Acquired { image_index, suboptimal } => if image_index
                < self.swapchain.framebuffer_count {
                (
                    FrameState {
                        swapchain: self.swapchain.flagged(suboptimal),
                        phase: Phase::Submitting,
                        token: None,
                    },
                    FrameAction::Render {
                        framebuffer: image_index,
                        viewport: self.swapchain.extent,
                        wait_on: self.token->0,
                    },
                )
            } else {
                self.fail(FatalError::ImageOutOfRange)
            },
            FrameEvent::AcquireStale => (
                FrameState { swapchain: self.swapchain.flagged(true), phase: Phase::Idle, ..self },
                FrameAction::Wait,
            ),
            FrameEvent::AcquireFailed => self.fail(FatalError::AcquireFailed),
            _ => self.fail(FatalError::UnexpectedEvent),
        }
    }

    /// The step taken when a submission reports.
    pub open spec fn next_submitting(self, event: FrameEvent<T>) -> (
        FrameState<T>,
        FrameAction<T>,
    ) {
        match event {
            FrameEvent::Submitted { token } => (
                FrameState {
                    phase: Phase::Idle,
                    token: Some(FrameCompletionToken::InFlight(token)),
                    ..self
                },
                FrameAction::RequestRedraw,
            ),
            FrameEvent::SubmitStale => (
                FrameState {
                    swapchain: self.swapchain.flagged(true),
                    phase: Phase::Idle,
                    token: Some(FrameCompletionToken::Completed),
                },
                FrameAction::RequestRedraw,
            ),
            FrameEvent::SubmitFailed => self.fail(FatalError::SubmitFailed),
            _ => self.fail(FatalError::UnexpectedEvent),
        }
    }

    /// The state after `event`, and the action the driver is to perform.
    ///
    /// * After a fatal error every event is answered with another.
    /// * A resize flags the swapchain for recreation, whatever the phase.
    /// * Any other event must answer the action handed out last; one that
    ///   does not is fatal.
    pub open spec fn next(self, event: FrameEvent<T>) -> (FrameState<T>, FrameAction<T>) {
        if self.phase is Failed {
            (self, FrameAction::Fatal(FatalError::AlreadyFailed))
        } else if event is Resized {
            (FrameState { swapchain: self.swapchain.flagged(true), ..self }, FrameAction::Wait)
        } else {
            match self.phase {
                Phase::Idle => self.next_idle(event),
                Phase::Rebuilding { extent } => self.next_rebuilding(extent, event),
                Phase::Acquiring => self.next_acquiring(event),
                Phase::Submitting => self.next_submitting(event),
                Phase::Failed => (self, FrameAction::Fatal(FatalError::AlreadyFailed)),
            }
        }
    }

    /// The state after a run of events, each answered in turn.
    pub open spec fn run(self, events: Seq<FrameEvent<T>>) -> FrameState<T>
        decreases events.len(),
    {
        if events.len() == 0 {
            self
        } else {
            self.run(events.drop_last()).next(events.last()).0
        }
    }
}

/// One frame that goes through: the image acquired for it, whether that
/// image was suboptimal, and the token its submission yields.
pub struct Frame<T> {
    pub image_index: u32,
    pub suboptimal: bool,
    pub token: T,
}

impl<T> FrameState<T> {
    /// The state after one redraw cycle in which nothing is rebuilt and
    /// acquisition and submission both succeed.
    pub open spec fn after_frame(
        self,
        physical_size: (u32, u32),
        frame: Frame<T>,
    ) -> FrameState<T> {
        self.next(FrameEvent::Redraw { physical_size }).0.next(
            FrameEvent::Acquired { image_index: frame.image_index, suboptimal: frame.suboptimal },
        ).0.next(FrameEvent::Submitted { token: frame.token }).0
    }

    /// The state after the given frames, one redraw cycle each.
    pub open spec fn after_frames(
        self,
        physical_size: (u32, u32),
        frames: Seq<Frame<T>>,
    ) -> FrameState<T>
        decreases frames.len(),
    {
        if frames.len() == 0 {
            self
        } else {
            self.after_frames(physical_size, frames.drop_last()).after_frame(
                physical_size,
                frames.last(),
            )
        }
    }
}

/// Every step keeps the state well formed: each image keeps its framebuffer,
/// and the token is away only while a frame is out for submission.
pub proof fn step_keeps_well_formed<T>(state: FrameState<T>, event: FrameEvent<T>)
    requires
        state.wf(),
    ensures
        state.next(event).0.wf(),
{
}

/// No token is made or lost by a step that does not fail. Exactly one is
/// live before and after: the scheduler holds it, except while a frame is out
/// for submission, when it is with the driver. It leaves the scheduler only
/// inside a render action.
pub proof fn step_conserves_the_token<T>(state: FrameState<T>, event: FrameEvent<T>)
    requires
        state.wf(),
        !(state.phase is Failed),
        !(state.next(event).0.phase is Failed),
    ensures
        state.live_tokens() + state.tokens_out() == 1,
        state.next(event).0.live_tokens() + state.next(event).0.tokens_out() == 1,
        state.next(event).1.live_tokens() == 1 <==> state.live_tokens() == 1 && state.next(
            event,
        ).0.live_tokens() == 0,
{
}

/// Whatever events arrive, in whatever order, the state stays well formed,
/// and between cycles the scheduler holds exactly one token.
pub proof fn run_keeps_one_token<T>(state: FrameState<T>, events: Seq<FrameEvent<T>>)
    requires
        state.wf(),
    ensures
        state.run(events).wf(),
        state.run(events).phase is Idle ==> state.run(events).live_tokens() == 1,
    decreases events.len(),
{
    if events.len() > 0 {
        run_keeps_one_token(state, events.drop_last());
        step_keeps_well_formed(state.run(events.drop_last()), events.last());
    }
}

/// A frame that goes through replaces the token: the frame waits on the
/// token held before, and afterwards the scheduler holds the frame's token
/// and no other. The swapchain is untouched unless the image was suboptimal.
pub proof fn frame_replaces_the_token<T>(
    state: FrameState<T>,
    physical_size: (u32, u32),
    frame: Frame<T>,
)
    requires
        state.wf(),
        state.phase is Idle,
        !state.swapchain.needs_recreate,
        frame.image_index < state.swapchain.image_count,
    ensures
        state.next(FrameEvent::Redraw { physical_size }).1 == FrameAction::<T>::Acquire,
        state.next(FrameEvent::Redraw { physical_size }).0.next(
            FrameEvent::Acquired { image_index: frame.image_index, suboptimal: frame.suboptimal },
        ).1 == (FrameAction::Render {
            framebuffer: frame.image_index,
            viewport: state.swapchain.extent,
            wait_on: state.token->0,
        }),
        state.after_frame(physical_size, frame) == (FrameState {
            swapchain: state.swapchain.flagged(frame.suboptimal),
            phase: Phase::Idle,
            token: Some(FrameCompletionToken::InFlight(frame.token)),
        }),
        state.after_frame(physical_size, frame).live_tokens() == 1,
{
}

/// After any number of frames in a row that go through, the scheduler is
/// between cycles and holds exactly one token: that of the last frame, or
/// the one it started with if there was no frame.
pub proof fn frames_keep_one_token<T>(
    state: FrameState<T>,
    physical_size: (u32, u32),
    frames: Seq<Frame<T>>,
)
    requires
        state.wf(),
        state.phase is Idle,
        !state.swapchain.needs_recreate,
        forall|i: int|
            0 <= i < frames.len() ==> (#[trigger] frames[i]).image_index
                < state.swapchain.image_count && !frames[i].suboptimal,
    ensures
        state.after_frames(physical_size, frames).wf(),
        state.after_frames(physical_size, frames).phase is Idle,
        state.after_frames(physical_size, frames).swapchain == state.swapchain,
        state.after_frames(physical_size, frames).live_tokens() == 1,
        state.after_frames(physical_size, frames).token == if frames.len() == 0 {
            state.token
        } else {
            Some(FrameCompletionToken::InFlight(frames.last().token))
        },
    decreases frames.len(),
{
    if frames.len() > 0 {
        let earlier = frames.drop_last();
        frames_keep_one_token(state, physical_size, earlier);
        frame_replaces_the_token(
            state.after_frames(physical_size, earlier),
            physical_size,
            frames.last(),
        );
    }
}

/// A stale acquisition ends the cycle without a frame: nothing is handed out
/// for submission, nothing fatal is reported, no redraw is asked for, the
/// swapchain is flagged for recreation and the token stays where it is.
pub proof fn stale_acquire_ends_the_cycle<T>(state: FrameState<T>)
    requires
        state.wf(),
        state.phase is Acquiring,
    ensures
        state.next(FrameEvent::AcquireStale).1 == FrameAction::<T>::Wait,
        state.next(FrameEvent::AcquireStale).0 == (FrameState {
            swapchain: SwapchainState { needs_recreate: true, ..state.swapchain },
            phase: Phase::Idle,
            token: state.token,
        }),
{
}

/// A resize makes the next redraw rebuild the swapchain for the window's
/// size at that moment, and a rebuild that succeeds leaves one framebuffer
/// per image, the viewport at that size and the flag cleared.
pub proof fn resize_rebuilds_for_the_window<T>(
    state: FrameState<T>,
    physical_size: (u32, u32),
    image_count: u32,
)
    requires
        state.wf(),
        state.phase is Idle,
    ensures
        state.next(FrameEvent::Resized).0.next(FrameEvent::Redraw { physical_size }) == (
            FrameState {
                swapchain: SwapchainState { needs_recreate: true, ..state.swapchain },
                phase: Phase::Rebuilding { extent: physical_size },
                token: state.token,
            },
            FrameAction::<T>::Rebuild { extent: physical_size },
        ),
        state.next(FrameEvent::Resized).0.next(FrameEvent::Redraw { physical_size }).0.next(
            FrameEvent::Rebuilt { image_count, framebuffer_count: image_count },
        ) == (
            FrameState {
                swapchain: SwapchainState {
                    image_count,
                    framebuffer_count: image_count,
                    extent: physical_size,
                    needs_recreate: false,
                },
                phase: Phase::Acquiring,
                token: state.token,
            },
            FrameAction::<T>::Acquire,
        ),
{
}

/// An image is only ever asked for from a swapchain that is not flagged:
/// recreation happens in the cycle that finds the flag, before acquiring.
pub proof fn acquire_follows_recreation<T>(state: FrameState<T>, event: FrameEvent<T>)
    requires
        state.wf(),
        state.next(event).1 is Acquire,
    ensures
        !state.next(event).0.swapchain.needs_recreate,
        state.next(event).0.phase is Acquiring,
{
}

/// A frame is only ever rendered into a framebuffer that exists, with the
/// viewport the swapchain was built for.
pub proof fn render_targets_a_framebuffer<T>(state: FrameState<T>, event: FrameEvent<T>)
    requires
        state.wf(),
        state.next(event).1 is Render,
    ensures
        state.next(event).1 matches FrameAction::Render { framebuffer, viewport, .. }
            && framebuffer < state.swapchain.framebuffer_count && viewport
            == state.swapchain.extent,
{
}

/// Owns the swapchain state and the live completion token, and decides what
/// each redraw cycle does.
pub struct FrameScheduler<T> {
    state: FrameState<T>,
}

impl<T> View for FrameScheduler<T> {
    type V = FrameState<T>;

    closed spec fn view(&self) -> FrameState<T> {
        self.state
    }
}

impl<T> FrameScheduler<T> {
    /// A scheduler for a swapchain of `image_count` images built for
    /// `extent`, each image with its framebuffer. It starts between cycles,
    /// with nothing in flight.
    pub fn new(image_count: u32, extent: (u32, u32)) -> (scheduler: Self)
        ensures
            scheduler@ == FrameState::<T>::initial(image_count, extent),
            scheduler@.wf(),
    {
        FrameScheduler {
            state: FrameState {
                swapchain: SwapchainState {
                    image_count,
                    framebuffer_count: image_count,
                    extent,
                    needs_recreate: false,
                },
                phase: Phase::Idle,
                token: Some(FrameCompletionToken::Completed),
            },
        }
    }

    /// Where the redraw cycle stands.
    pub fn phase(&self) -> (phase: Phase)
        ensures
            phase == self@.phase,
    {
        self.state.phase
    }

    /// What the scheduler knows of the presentable images.
    pub fn swapchain(&self) -> (swapchain: SwapchainState)
        ensures
            swapchain == self@.swapchain,
    {
        self.state.swapchain
    }

    /// The live completion token, or `None` while it is out with a frame.
    pub fn token(&self) -> (token: Option<&FrameCompletionToken<T>>)
        ensures
            token is Some <==> self@.token is Some,
            token matches Some(held) ==> *held == self@.token->0,
    {
        self.state.token.as_ref()
    }

    /// Enters the failed phase and reports `error`.
    fn fail(&mut self, error: FatalError) -> (action: FrameAction<T>)
        ensures
            (final(self)@, action) == old(self)@.fail(error),
    {
        self.state.phase = Phase::Failed;
        FrameAction::Fatal(error)
    }

    /// Takes in `event` and says what the driver is to do next.
    pub fn step(&mut self, event: FrameEvent<T>) -> (action: FrameAction<T>)
        requires
            old(self)@.wf(),
        ensures
            (final(self)@, action) == old(self)@.next(event),
            final(self)@.wf(),
    {
        match self.state.phase {
            Phase::Failed => FrameAction::Fatal(FatalError::AlreadyFailed),
            Phase::Idle => match event {
                FrameEvent::Resized => {
                    self.state.swapchain.needs_recreate = true;
                    FrameAction::Wait
                },
                FrameEvent::Redraw { physical_size } => {
                    if self.state.swapchain.needs_recreate {
                        self.state.phase = Phase::Rebuilding { extent: physical_size };
                        FrameAction::Rebuild { extent: physical_size }
                    } else {
                        self.state.phase = Phase::Acquiring;
                        FrameAction::Acquire
                    }
                },
                _ => self.fail(FatalError::UnexpectedEvent),
            },
            Phase::Rebuilding { extent } => match event {
                FrameEvent::Resized => {
                    self.state.swapchain.needs_recreate = true;
                    FrameAction::Wait
                },
                FrameEvent::Rebuilt { image_count, framebuffer_count } => {
                    if framebuffer_count == image_count {
                        self.state.swapchain = SwapchainState {
                            image_count,
                            framebuffer_count,
                            extent,
                            needs_recreate: false,
                        };
                        self.state.phase = Phase::Acquiring;
                        FrameAction::Acquire
                    } else {
                        self.fail(FatalError::FramebufferMismatch)
                    }
                },
                FrameEvent::RebuildStale => {
                    self.state.swapchain.needs_recreate = true;
                    self.state.phase = Phase::Idle;
                    FrameAction::Wait
                },
                FrameEvent::RebuildFailed => self.fail(FatalError::RebuildFailed),
                _ => self.fail(FatalError::UnexpectedEvent),
            },
            Phase::Acquiring => match event {
                FrameEvent::Resized => {
                    self.state.swapchain.needs_recreate = true;
                    FrameAction::Wait
                },
                FrameEvent::Acquired { image_index, suboptimal } => {
                    if image_index < self.state.swapchain.framebuffer_count {
                        if suboptimal {
                            self.state.swapchain.needs_recreate = true;
                        }
                        self.state.phase = Phase::Submitting;
                        let wait_on: FrameCompletionToken<T> = self.state.token.take().unwrap();
                        FrameAction::Render {
                            framebuffer: image_index,
                            viewport: self.state.swapchain.extent,
                            wait_on,
                        }
                    } else {
                        self.fail(FatalError::ImageOutOfRange)
                    }
                },
                FrameEvent::AcquireStale => {
                    self.state.swapchain.needs_recreate = true;
                    self.state.phase = Phase::Idle;
                    FrameAction::Wait
                },
                FrameEvent::AcquireFailed => self.fail(FatalError::AcquireFailed),
                _ => self.fail(FatalError::UnexpectedEvent),
            },
            Phase::Submitting => match event {
                FrameEvent::Resized => {
                    self.state.swapchain.needs_recreate = true;
                    FrameAction::Wait
                },
                FrameEvent::Submitted { token } => {
                    self.state.phase = Phase::Idle;
                    self.state.token = Some(FrameCompletionToken::InFlight(token));
                    FrameAction::RequestRedraw
                },
                FrameEvent::SubmitStale => {
                    self.state.swapchain.needs_recreate = true;
                    self.state.phase = Phase::Idle;
                    self.state.token = Some(FrameCompletionToken::Completed);
                    FrameAction::RequestRedraw
                },
                FrameEvent::SubmitFailed => self.fail(FatalError::SubmitFailed),
                _ => self.fail(FatalError::UnexpectedEvent),
            },
        }
    }
}

} // verus!
